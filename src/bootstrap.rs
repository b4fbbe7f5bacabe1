use vstd::prelude::*;

use crate::address::{address_table, resolved_table, Addresses};
use crate::interpose::{is_installed, InterposeError, Interception, Interceptions};
use crate::overlay::{check_layout, LayoutMismatch};
use crate::variant::BuildVariant;

verus! {

/// Why the hook was not put in place. The host then runs unpatched.
#[derive(Clone, Copy, Debug, PartialEq, Eq, Structural)]
pub enum BootstrapError {
    /// A declared overlay field sits elsewhere than recorded.
    Layout(LayoutMismatch),
    /// The module base moves an entry of the table out of the address space,
    /// or onto the null address.
    Unresolved,
    /// An interception could not be installed.
    Install(InterposeError),
}

/// The handles of the two interceptions.
#[derive(Clone, Copy, Debug, PartialEq, Eq, Structural)]
pub struct HookHandles {
    pub credential_check: usize,
    pub listen: usize,
}

/// Checks the overlays of a build, then moves its offset table to a module
/// loaded at `base`.
pub fn resolve_addresses(v: BuildVariant, base: usize) -> (r: Result<Addresses, BootstrapError>)
    ensures
        r == match resolved_table(address_table(v), base) {
            Some(a) => Ok::<Addresses, BootstrapError>(a),
            None => Err(BootstrapError::Unresolved),
        },
{
    match check_layout(v) {
        Ok(()) => {},
        Err(m) => return Err(BootstrapError::Layout(m)),
    }
    let table = Addresses::for_variant(v);
    match table.resolve(base) {
        Some(a) => Ok(a),
        None => Err(BootstrapError::Unresolved),
    }
}

/// Not null and not intercepted yet.
pub open spec fn is_fresh(s: Seq<Interception>, a: usize) -> bool {
    a != 0 && !is_installed(s, a)
}

/// Installs and enables the credential check's interception, then the
/// listen routine's. Where the second cannot be installed, the first is
/// disabled again, so that no interception stays active.
pub fn install_hooks(
    reg: &mut Interceptions,
    credential_check: usize,
    listen: usize,
) -> (r: Result<HookHandles, InterposeError>)
    requires
        old(reg).wf(),
    ensures
        final(reg).wf(),
        credential_check == 0 ==> r == Err::<HookHandles, InterposeError>(
            InterposeError::InvalidAddress,
        ) && final(reg)@ == old(reg)@,
        credential_check != 0 && is_installed(old(reg)@, credential_check) ==> r == Err::<
            HookHandles,
            InterposeError,
        >(InterposeError::AlreadyInstalled) && final(reg)@ == old(reg)@,
        is_fresh(old(reg)@, credential_check) && listen == 0 ==> r == Err::<
            HookHandles,
            InterposeError,
        >(InterposeError::InvalidAddress) && final(reg)@ == old(reg)@.push(
            Interception { address: credential_check, enabled: false },
        ),
        is_fresh(old(reg)@, credential_check) && listen != 0 && (listen == credential_check
            || is_installed(old(reg)@, listen)) ==> r == Err::<HookHandles, InterposeError>(
            InterposeError::AlreadyInstalled,
        ) && final(reg)@ == old(reg)@.push(
            Interception { address: credential_check, enabled: false },
        ),
        is_fresh(old(reg)@, credential_check) && is_fresh(old(reg)@, listen) && listen
            != credential_check ==> r == Ok::<HookHandles, InterposeError>(
            HookHandles { credential_check: old(reg)@.len() as usize, listen: (old(reg)@.len()
                + 1) as usize },
        ) && final(reg)@ == old(reg)@.push(
            Interception { address: credential_check, enabled: true },
        ).push(Interception { address: listen, enabled: true }),
{
    let ghost s0 = reg@;
    let c = match reg.install(credential_check) {
        Ok(h) => h,
        Err(e) => return Err(e),
    };
    reg.enable(c);
    let ghost s1 = reg@;
    assert(s1 =~= s0.push(Interception { address: credential_check, enabled: true }));
    assert(is_installed(s1, listen) <==> (listen == credential_check || is_installed(s0, listen)))
        by {
        if listen == credential_check {
            assert(s1[s0.len() as int].address == listen);
        }
        if is_installed(s0, listen) {
            let i = choose|i: int| 0 <= i < s0.len() && s0[i].address == listen;
            assert(s1[i].address == listen);
        }
    }
    let l = match reg.install(listen) {
        Ok(h) => h,
        Err(e) => {
            reg.disable(c);
            assert(reg@ =~= s0.push(Interception { address: credential_check, enabled: false }));
            return Err(e);
        },
    };
    reg.enable(l);
    assert(reg@ =~= s1.push(Interception { address: listen, enabled: true }));
    Ok(HookHandles { credential_check: c, listen: l })
}

/// The replacement of the host's player credential check: every credential
/// is valid, whatever the arguments, and the original check never runs.
pub fn player_guid_always_valid(_player: usize, _kind: i32, _guid: usize) -> (r: bool)
    ensures
        r,
{
    true
}

} // verus!
