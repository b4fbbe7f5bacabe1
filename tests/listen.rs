use omdu_hook::listen::{
    net_mode, simulate, Feedback, HostState, ListenSequence, ListenStep,
    NET_MODE_DEDICATED_SERVER, NET_MODE_LISTEN_SERVER,
};

fn host(engine: bool, driver: bool, flag: u32, client: bool) -> HostState {
    HostState {
        engine_present: engine,
        driver_constructed: driver,
        listen_ok: true,
        seek_free_package_map: flag,
        client_present: client,
    }
}

fn is_effect(s: &ListenStep) -> bool {
    matches!(
        s,
        ListenStep::InstallNetDriver
            | ListenStep::InitListen
            | ListenStep::AddNetPackages
            | ListenStep::AppendObjectNotify
            | ListenStep::SpawnServerActors
            | ListenStep::GetWorldInfo
            | ListenStep::SetNetMode(_)
    )
}

#[test]
fn end_to_end_dedicated_legacy_map() {
    let steps = simulate(&host(true, true, 0, false));
    assert_eq!(
        steps,
        vec![
            ListenStep::ReadEngine,
            ListenStep::ConstructNetDriver,
            ListenStep::InstallNetDriver,
            ListenStep::InitListen,
            ListenStep::ReadPackageMapFlag,
            ListenStep::AddNetPackages,
            ListenStep::AppendObjectNotify,
            ListenStep::SpawnServerActors,
            ListenStep::GetWorldInfo,
            ListenStep::ReadClient,
            ListenStep::SetNetMode(1),
            ListenStep::Delegate,
            ListenStep::Return(true),
        ]
    );
}

#[test]
fn null_engine_writes_nothing_and_delegates() {
    let steps = simulate(&host(false, true, 0, true));
    assert!(!steps.iter().any(is_effect));
    assert_eq!(steps, vec![ListenStep::ReadEngine, ListenStep::Delegate, ListenStep::Return(true)]);
}

#[test]
fn null_driver_skips_to_delegation() {
    let steps = simulate(&host(true, false, 0, true));
    assert!(!steps.iter().any(is_effect));
    assert_eq!(steps, vec![ListenStep::ReadEngine, ListenStep::ConstructNetDriver, ListenStep::Delegate, ListenStep::Return(true)]);
}

#[test]
fn net_mode_follows_the_client() {
    let dedicated = simulate(&host(true, true, 1, false));
    assert!(dedicated.contains(&ListenStep::SetNetMode(1)));
    assert!(!dedicated.contains(&ListenStep::SetNetMode(2)));
    let listen = simulate(&host(true, true, 1, true));
    assert!(listen.contains(&ListenStep::SetNetMode(2)));
    assert!(!listen.contains(&ListenStep::SetNetMode(1)));
    assert_eq!(net_mode(false), NET_MODE_DEDICATED_SERVER);
    assert_eq!(net_mode(true), NET_MODE_LISTEN_SERVER);
}

#[test]
fn package_map_flag_selects_add_net_packages() {
    let seek_free = simulate(&host(true, true, 1, true));
    assert!(!seek_free.contains(&ListenStep::AddNetPackages));
    let legacy = simulate(&host(true, true, 0, true));
    assert_eq!(legacy.iter().filter(|s| **s == ListenStep::AddNetPackages).count(), 1);
}

#[test]
fn failed_init_listen_is_not_fatal() {
    let mut h = host(true, true, 7, false);
    h.listen_ok = false;
    let steps = simulate(&h);
    assert_eq!(
        steps,
        vec![
            ListenStep::ReadEngine,
            ListenStep::ConstructNetDriver,
            ListenStep::InstallNetDriver,
            ListenStep::InitListen,
            ListenStep::ReadPackageMapFlag,
            ListenStep::AppendObjectNotify,
            ListenStep::SpawnServerActors,
            ListenStep::GetWorldInfo,
            ListenStep::ReadClient,
            ListenStep::SetNetMode(1),
            ListenStep::Delegate,
            ListenStep::Return(true),
        ]
    );
}

#[test]
fn step_by_step() {
    let mut s = ListenSequence::new();
    assert_eq!(s.step(Feedback::Done), ListenStep::ReadEngine);
    assert_eq!(s.step(Feedback::Pointer(true)), ListenStep::ConstructNetDriver);
    assert_eq!(s.step(Feedback::Pointer(true)), ListenStep::InstallNetDriver);
    assert_eq!(s.step(Feedback::Done), ListenStep::InitListen);
    assert_eq!(s.step(Feedback::ListenCode(true)), ListenStep::ReadPackageMapFlag);
    // any answer other than a zero flag leaves the package map alone
    assert_eq!(s.step(Feedback::Done), ListenStep::AppendObjectNotify);
    assert_eq!(s.step(Feedback::Done), ListenStep::SpawnServerActors);
    assert_eq!(s.step(Feedback::Done), ListenStep::GetWorldInfo);
    assert_eq!(s.step(Feedback::Done), ListenStep::ReadClient);
    assert_eq!(s.step(Feedback::Pointer(true)), ListenStep::SetNetMode(2));
    assert_eq!(s.step(Feedback::Done), ListenStep::Delegate);
    assert!(!s.is_finished());
    assert_eq!(s.step(Feedback::Done), ListenStep::Return(true));
    assert!(s.is_finished());
    assert_eq!(s.step(Feedback::Done), ListenStep::Return(true));
}
