use omdu_hook::address::Addresses;
use omdu_hook::bootstrap::{
    install_hooks, player_guid_always_valid, resolve_addresses, BootstrapError, HookHandles,
};
use omdu_hook::interpose::{InterposeError, Interceptions};
use omdu_hook::variant::BuildVariant;

#[test]
fn second_install_is_refused_and_first_stays() {
    let mut reg = Interceptions::new();
    let h = reg.install(0x1000).unwrap();
    reg.enable(h);
    assert_eq!(reg.install(0x1000), Err(InterposeError::AlreadyInstalled));
    assert!(reg.is_installed(0x1000));
    assert!(reg.is_enabled(h));
    assert!(reg.is_handle(h));
    assert!(!reg.is_handle(h + 1));
}

#[test]
fn null_address_is_invalid() {
    let mut reg = Interceptions::new();
    assert_eq!(reg.install(0), Err(InterposeError::InvalidAddress));
    assert!(!reg.is_installed(0));
}

#[test]
fn enable_and_disable() {
    let mut reg = Interceptions::new();
    let a = reg.install(0x10).unwrap();
    let b = reg.install(0x20).unwrap();
    assert_eq!((a, b), (0, 1));
    assert!(!reg.is_enabled(a));
    reg.enable(b);
    assert!(reg.is_enabled(b));
    assert!(!reg.is_enabled(a));
    reg.disable(b);
    assert!(!reg.is_enabled(b));
}

#[test]
fn install_both_hooks() {
    let mut reg = Interceptions::new();
    let h = install_hooks(&mut reg, 0x100, 0x200).unwrap();
    assert_eq!(h, HookHandles { credential_check: 0, listen: 1 });
    assert!(reg.is_enabled(0));
    assert!(reg.is_enabled(1));
}

#[test]
fn failed_listen_install_leaves_nothing_active() {
    let mut reg = Interceptions::new();
    assert_eq!(install_hooks(&mut reg, 0x100, 0x100), Err(InterposeError::AlreadyInstalled));
    assert!(!reg.is_enabled(0));
    let mut reg = Interceptions::new();
    assert_eq!(install_hooks(&mut reg, 0x100, 0), Err(InterposeError::InvalidAddress));
    assert!(!reg.is_enabled(0));
    let mut reg = Interceptions::new();
    assert_eq!(install_hooks(&mut reg, 0, 0x100), Err(InterposeError::InvalidAddress));
    assert!(!reg.is_handle(0));
}

#[test]
fn hooks_cannot_be_installed_twice() {
    let mut reg = Interceptions::new();
    install_hooks(&mut reg, 0x100, 0x200).unwrap();
    assert_eq!(install_hooks(&mut reg, 0x100, 0x200), Err(InterposeError::AlreadyInstalled));
    assert!(reg.is_enabled(0));
    assert!(reg.is_enabled(1));
}

#[test]
fn credential_check_always_succeeds() {
    assert!(player_guid_always_valid(0, 0, 0));
    assert!(player_guid_always_valid(0xdead, -1, 0xbeef));
    assert!(player_guid_always_valid(usize::MAX, i32::MIN, 1));
}

#[test]
fn bootstrap_resolves_the_table() {
    let v = BuildVariant::Manifest4932913164832566208;
    let a = resolve_addresses(v, 0x1_4000_0000).unwrap();
    assert_eq!(a, Addresses::for_variant(v).resolve(0x1_4000_0000).unwrap());
    assert_eq!(a.is_player_guid_valid, 0x1_4000_0000 + 0xf216c0);
    assert_eq!(resolve_addresses(v, usize::MAX), Err(BootstrapError::Unresolved));
}
