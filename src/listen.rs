use vstd::prelude::*;

verus! {

/// Net mode of a dedicated server: no local client.
pub const NET_MODE_DEDICATED_SERVER: u8 = 1;

/// Net mode of a listen server: a server with a local client.
pub const NET_MODE_LISTEN_SERVER: u8 = 2;

/// What the host side performs next on behalf of the sequence.
#[derive(Clone, Copy, Debug, PartialEq, Eq, Structural)]
pub enum ListenStep {
    /// Read the engine singleton; answer whether it is non-null.
    ReadEngine,
    /// Call the engine's "construct net driver" slot; answer whether the
    /// result is non-null.
    ConstructNetDriver,
    /// Write the constructed driver into the world's driver field.
    InstallNetDriver,
    /// Call the driver's "init listen" slot with the world's notify
    /// interface, the URL and an empty error string; answer its code.
    InitListen,
    /// Read the seek-free package map flag; answer its value.
    ReadPackageMapFlag,
    /// Call "add net packages" on the driver's master package map.
    AddNetPackages,
    /// Append the driver's object notify interface to the global collection
    /// with the host's own append function.
    AppendObjectNotify,
    /// Call the engine's "spawn server actors" slot.
    SpawnServerActors,
    /// Call the world's "get world info" with the streaming check off.
    GetWorldInfo,
    /// Read the engine's client pointer; answer whether it is non-null.
    ReadClient,
    /// Write this value into the world info's net mode field.
    SetNetMode(u8),
    /// Call through to the original listen routine with the original arguments.
    Delegate,
    /// Return this value to the host; the sequence is over.
    Return(bool),
}

/// What the host side answers after performing a step.
#[derive(Clone, Copy, Debug, PartialEq, Eq, Structural)]
pub enum Feedback {
    /// A pointer was read or returned; whether it is non-null.
    Pointer(bool),
    /// The value of a flag that was read.
    Flag(u32),
    /// The code that "init listen" returned.
    ListenCode(bool),
    /// The step was performed and has nothing to report.
    Done,
}

/// Where the sequence stands: the step it last asked for.
#[derive(Clone, Copy, Debug, PartialEq, Eq, Structural)]
pub enum Phase {
    Start,
    AwaitEngine,
    AwaitDriver,
    AwaitInstall,
    AwaitInitListen,
    AwaitFlag,
    AwaitAddPackages,
    AwaitAppend,
    AwaitSpawn,
    AwaitWorldInfo,
    AwaitClient,
    AwaitSetNetMode,
    AwaitDelegate,
    Finished,
}

/// Only an explicit non-null answer counts as non-null.
pub open spec fn is_non_null(fb: Feedback) -> bool {
    fb == Feedback::Pointer(true)
}

/// Only an explicit zero flag selects the legacy package map.
pub open spec fn is_legacy_package_map(fb: Feedback) -> bool {
    fb == Feedback::Flag(0)
}

pub open spec fn net_mode_spec(client_present: bool) -> u8 {
    if client_present {
        NET_MODE_LISTEN_SERVER
    } else {
        NET_MODE_DEDICATED_SERVER
    }
}

/// One transition: from the phase and the answer to the last step, the next
/// phase and the next step.
pub open spec fn transition(p: Phase, fb: Feedback) -> (Phase, ListenStep) {
    match p {
        Phase::Start => (Phase::AwaitEngine, ListenStep::ReadEngine),
        Phase::AwaitEngine => if is_non_null(fb) {
            (Phase::AwaitDriver, ListenStep::ConstructNetDriver)
        } else {
            (Phase::AwaitDelegate, ListenStep::Delegate)
        },
        Phase::AwaitDriver => if is_non_null(fb) {
            (Phase::AwaitInstall, ListenStep::InstallNetDriver)
        } else {
            (Phase::AwaitDelegate, ListenStep::Delegate)
        },
        Phase::AwaitInstall => (Phase::AwaitInitListen, ListenStep::InitListen),
        Phase::AwaitInitListen => (Phase::AwaitFlag, ListenStep::ReadPackageMapFlag),
        Phase::AwaitFlag => if is_legacy_package_map(fb) {
            (Phase::AwaitAddPackages, ListenStep::AddNetPackages)
        } else {
            (Phase::AwaitAppend, ListenStep::AppendObjectNotify)
        },
        Phase::AwaitAddPackages => (Phase::AwaitAppend, ListenStep::AppendObjectNotify),
        Phase::AwaitAppend => (Phase::AwaitSpawn, ListenStep::SpawnServerActors),
        Phase::AwaitSpawn => (Phase::AwaitWorldInfo, ListenStep::GetWorldInfo),
        Phase::AwaitWorldInfo => (Phase::AwaitClient, ListenStep::ReadClient),
        Phase::AwaitClient => (
            Phase::AwaitSetNetMode,
            ListenStep::SetNetMode(net_mode_spec(is_non_null(fb))),
        ),
        Phase::AwaitSetNetMode => (Phase::AwaitDelegate, ListenStep::Delegate),
        Phase::AwaitDelegate => (Phase::Finished, ListenStep::Return(true)),
        Phase::Finished => (Phase::Finished, ListenStep::Return(true)),
    }
}

/// The listen sequence run when the host calls its "begin listening" entry
/// point: each call of `step` takes the answer to the last step and names the
/// next one.
pub struct ListenSequence {
    phase: Phase,
}

impl ListenSequence {
    pub closed spec fn view(&self) -> Phase {
        self.phase
    }

    /// A sequence that has not started.
    pub fn new() -> (r: ListenSequence)
        ensures
            r@ == Phase::Start,
    {
        ListenSequence { phase: Phase::Start }
    }

    /// Whether the sequence has returned to the host.
    pub fn is_finished(&self) -> (r: bool)
        ensures
            r == (self@ == Phase::Finished),
    {
        self.phase == Phase::Finished
    }

    /// Takes the answer to the last step and gives the next step.
    pub fn step(&mut self, fb: Feedback) -> (r: ListenStep)
        ensures
            (final(self)@, r) == transition(old(self)@, fb),
    {
        let non_null = fb == Feedback::Pointer(true);
        let (p, s) = match self.phase {
            Phase::Start => (Phase::AwaitEngine, ListenStep::ReadEngine),
            Phase::AwaitEngine => if non_null {
                (Phase::AwaitDriver, ListenStep::ConstructNetDriver)
            } else {
                (Phase::AwaitDelegate, ListenStep::Delegate)
            },
            Phase::AwaitDriver => if non_null {
                (Phase::AwaitInstall, ListenStep::InstallNetDriver)
            } else {
                (Phase::AwaitDelegate, ListenStep::Delegate)
            },
            Phase::AwaitInstall => (Phase::AwaitInitListen, ListenStep::InitListen),
            Phase::AwaitInitListen => (Phase::AwaitFlag, ListenStep::ReadPackageMapFlag),
            Phase::AwaitFlag => if fb == Feedback::Flag(0) {
                (Phase::AwaitAddPackages, ListenStep::AddNetPackages)
            } else {
                (Phase::AwaitAppend, ListenStep::AppendObjectNotify)
            },
            Phase::AwaitAddPackages => (Phase::AwaitAppend, ListenStep::AppendObjectNotify),
            Phase::AwaitAppend => (Phase::AwaitSpawn, ListenStep::SpawnServerActors),
            Phase::AwaitSpawn => (Phase::AwaitWorldInfo, ListenStep::GetWorldInfo),
            Phase::AwaitWorldInfo => (Phase::AwaitClient, ListenStep::ReadClient),
            Phase::AwaitClient => (Phase::AwaitSetNetMode, ListenStep::SetNetMode(net_mode(non_null))),
            Phase::AwaitSetNetMode => (Phase::AwaitDelegate, ListenStep::Delegate),
            Phase::AwaitDelegate => (Phase::Finished, ListenStep::Return(true)),
            Phase::Finished => (Phase::Finished, ListenStep::Return(true)),
        };
        self.phase = p;
        s
    }
}

/// The net mode to set: a listen server where the engine has a local client,
/// a dedicated server otherwise.
pub fn net_mode(client_present: bool) -> (r: u8)
    ensures
        r == net_mode_spec(client_present),
{
    if client_present {
        NET_MODE_LISTEN_SERVER
    } else {
        NET_MODE_DEDICATED_SERVER
    }
}

/// The foreign state that the sequence observes, as plain values.
#[derive(Clone, Copy, Debug, PartialEq, Eq, Structural)]
pub struct HostState {
    /// The engine singleton is non-null.
    pub engine_present: bool,
    /// Constructing the net driver gives a non-null driver.
    pub driver_constructed: bool,
    /// What "init listen" returns.
    pub listen_ok: bool,
    /// The seek-free package map flag.
    pub seek_free_package_map: u32,
    /// The engine's client pointer is non-null.
    pub client_present: bool,
}

/// What a host in state `h` answers after performing `s`.
pub open spec fn response(h: HostState, s: ListenStep) -> Feedback {
    match s {
        ListenStep::ReadEngine => Feedback::Pointer(h.engine_present),
        ListenStep::ConstructNetDriver => Feedback::Pointer(h.driver_constructed),
        ListenStep::InitListen => Feedback::ListenCode(h.listen_ok),
        ListenStep::ReadPackageMapFlag => Feedback::Flag(h.seek_free_package_map),
        ListenStep::ReadClient => Feedback::Pointer(h.client_present),
        _ => Feedback::Done,
    }
}

/// The steps the sequence asks for, from phase `p` with answer `fb`, against
/// a host in state `h`, for at most `fuel` steps.
pub open spec fn run_from(h: HostState, p: Phase, fb: Feedback, fuel: nat) -> Seq<ListenStep>
    decreases fuel,
{
    if fuel == 0 {
        Seq::empty()
    } else {
        let (p2, s) = transition(p, fb);
        if s is Return {
            seq![s]
        } else {
            seq![s] + run_from(h, p2, response(h, s), (fuel - 1) as nat)
        }
    }
}

/// Every step a fresh sequence asks for against a host in state `h`.
pub open spec fn run(h: HostState) -> Seq<ListenStep> {
    run_from(h, Phase::Start, Feedback::Done, 16)
}

/// The listen sequence, written out: the engine is read; without it the
/// call goes straight to the original routine. Otherwise a driver is
/// constructed; without one, likewise. Otherwise the driver is installed and
/// initialised, the package map flag is read, the legacy package map gets its
/// net packages, the driver is registered for object notifications, server
/// actors are spawned, and the net mode follows the client pointer; then the
/// original routine runs, and the host is told of success.
pub open spec fn listen_trace(h: HostState) -> Seq<ListenStep> {
    if !h.engine_present {
        seq![ListenStep::ReadEngine, ListenStep::Delegate, ListenStep::Return(true)]
    } else if !h.driver_constructed {
        seq![
            ListenStep::ReadEngine,
            ListenStep::ConstructNetDriver,
            ListenStep::Delegate,
            ListenStep::Return(true),
        ]
    } else {
        seq![
            ListenStep::ReadEngine,
            ListenStep::ConstructNetDriver,
            ListenStep::InstallNetDriver,
            ListenStep::InitListen,
            ListenStep::ReadPackageMapFlag,
        ] + (if h.seek_free_package_map == 0 {
            seq![ListenStep::AddNetPackages]
        } else {
            Seq::empty()
        }) + seq![
            ListenStep::AppendObjectNotify,
            ListenStep::SpawnServerActors,
            ListenStep::GetWorldInfo,
            ListenStep::ReadClient,
            ListenStep::SetNetMode(net_mode_spec(h.client_present)),
            ListenStep::Delegate,
            ListenStep::Return(true),
        ]
    }
}

/// The steps that write foreign state or call into it for its effects.
pub open spec fn is_foreign_effect(s: ListenStep) -> bool {
    match s {
        ListenStep::InstallNetDriver
        | ListenStep::InitListen
        | ListenStep::AddNetPackages
        | ListenStep::AppendObjectNotify
        | ListenStep::SpawnServerActors
        | ListenStep::GetWorldInfo
        | ListenStep::SetNetMode(_) => true,
        _ => false,
    }
}

/// The state machine, run against any host, asks for exactly the steps of
/// the written-out sequence, in that order.
pub proof fn lemma_run_is_listen_trace(h: HostState)
    ensures
        run(h) == listen_trace(h),
{
    reveal_with_fuel(run_from, 14);
    if h.engine_present && h.driver_constructed {
        if h.seek_free_package_map == 0 {
            assert(run(h) =~= listen_trace(h));
        } else {
            assert(run(h) =~= listen_trace(h));
        }
    } else {
        assert(run(h) =~= listen_trace(h));
    }
}

/// With a null engine singleton the sequence makes no foreign write or
/// effectful call, and still calls through to the original routine.
pub proof fn lemma_null_engine_no_effects(h: HostState)
    requires
        !h.engine_present,
    ensures
        forall|i: int| 0 <= i < run(h).len() ==> !is_foreign_effect(#[trigger] run(h)[i]),
        run(h).contains(ListenStep::Delegate),
{
    lemma_run_is_listen_trace(h);
    assert(run(h)[1] == ListenStep::Delegate);
}

/// With an engine but no constructed driver, nothing after the construction
/// happens (no driver install, no package map call, no notification
/// registration, no actor spawn, no net mode), and the original routine
/// still runs.
pub proof fn lemma_null_driver_skips_effects(h: HostState)
    requires
        h.engine_present,
        !h.driver_constructed,
    ensures
        forall|i: int| 0 <= i < run(h).len() ==> !is_foreign_effect(#[trigger] run(h)[i]),
        run(h).contains(ListenStep::Delegate),
{
    lemma_run_is_listen_trace(h);
    assert(run(h)[2] == ListenStep::Delegate);
}

/// With a constructed driver the net mode is set, to a listen server where
/// the engine has a client and to a dedicated server where it has none, and
/// to no other value.
pub proof fn lemma_net_mode_follows_client(h: HostState)
    requires
        h.engine_present,
        h.driver_constructed,
    ensures
        run(h).contains(
            ListenStep::SetNetMode(
                if h.client_present {
                    NET_MODE_LISTEN_SERVER
                } else {
                    NET_MODE_DEDICATED_SERVER
                },
            ),
        ),
        forall|i: int, m: u8|
            0 <= i < run(h).len() && run(h)[i] == ListenStep::SetNetMode(m) ==> m
                == net_mode_spec(h.client_present),
{
    lemma_run_is_listen_trace(h);
    let k: int = if h.seek_free_package_map == 0 {
        10
    } else {
        9
    };
    assert(run(h)[k] == ListenStep::SetNetMode(net_mode_spec(h.client_present)));
}

/// With the seek-free flag set, no net packages are added; with it clear and
/// a constructed driver, they are added exactly once.
pub proof fn lemma_package_map_by_flag(h: HostState)
    ensures
        h.seek_free_package_map != 0 ==> !run(h).contains(ListenStep::AddNetPackages),
        h.seek_free_package_map == 0 && h.engine_present && h.driver_constructed ==> {
            &&& run(h)[5] == ListenStep::AddNetPackages
            &&& forall|i: int|
                0 <= i < run(h).len() && i != 5 ==> run(h)[i] != ListenStep::AddNetPackages
        },
{
    lemma_run_is_listen_trace(h);
    let t = run(h);
    if h.seek_free_package_map != 0 {
        assert forall|i: int| 0 <= i < t.len() implies t[i] != ListenStep::AddNetPackages by {
            if h.engine_present && h.driver_constructed {
                if i >= 5 {
                    assert(t[i] == seq![
                        ListenStep::AppendObjectNotify,
                        ListenStep::SpawnServerActors,
                        ListenStep::GetWorldInfo,
                        ListenStep::ReadClient,
                        ListenStep::SetNetMode(net_mode_spec(h.client_present)),
                        ListenStep::Delegate,
                        ListenStep::Return(true),
                    ][i - 5]);
                }
            }
        }
    }
}

impl HostState {
    /// What this host answers after performing `s`.
    pub fn respond(&self, s: ListenStep) -> (r: Feedback)
        ensures
            r == response(*self, s),
    {
        match s {
            ListenStep::ReadEngine => Feedback::Pointer(self.engine_present),
            ListenStep::ConstructNetDriver => Feedback::Pointer(self.driver_constructed),
            ListenStep::InitListen => Feedback::ListenCode(self.listen_ok),
            ListenStep::ReadPackageMapFlag => Feedback::Flag(self.seek_free_package_map),
            ListenStep::ReadClient => Feedback::Pointer(self.client_present),
            _ => Feedback::Done,
        }
    }
}

/// Runs a fresh sequence against a host in state `h`, answering each step as
/// that host would, and gives the steps in the order they were asked for.
pub fn simulate(h: &HostState) -> (r: Vec<ListenStep>)
    ensures
        r@ == listen_trace(*h),
{
    proof {
        lemma_run_is_listen_trace(*h);
    }
    let mut sequence = ListenSequence::new();
    let mut fb = Feedback::Done;
    let mut out: Vec<ListenStep> = Vec::new();
    let mut fuel: usize = 16;
    while fuel > 0
        invariant
            fuel <= 16,
            run(*h) == listen_trace(*h),
            out@ + run_from(*h, sequence@, fb, fuel as nat) == run(*h),
        decreases fuel,
    {
        let ghost before = out@;
        let ghost p = sequence@;
        let s = sequence.step(fb);
        out.push(s);
        if matches!(s, ListenStep::Return(_)) {
            assert(out@ =~= before + run_from(*h, p, fb, fuel as nat));
            return out;
        }
        assert(out@ + run_from(*h, sequence@, response(*h, s), (fuel - 1) as nat) =~= before
            + run_from(*h, p, fb, fuel as nat));
        fb = h.respond(s);
        fuel = fuel - 1;
    }
    assert(out@ =~= out@ + run_from(*h, sequence@, fb, 0));
    out
}

} // verus!
