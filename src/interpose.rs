use vstd::prelude::*;

verus! {

/// Why an interception could not be installed.
#[derive(Clone, Copy, Debug, PartialEq, Eq, Structural)]
pub enum InterposeError {
    /// The address already carries an interception.
    AlreadyInstalled,
    /// The address is null.
    InvalidAddress,
}

/// The state of one intercepted foreign address.
#[derive(Clone, Copy, Debug, PartialEq, Eq, Structural)]
pub struct Interception {
    pub address: usize,
    pub enabled: bool,
}

/// The interceptions of the process, one per address; a handle is the
/// position of its record. Records are never removed.
pub struct Interceptions {
    records: Vec<Interception>,
}

/// Whether `a` carries an interception.
pub open spec fn is_installed(s: Seq<Interception>, a: usize) -> bool {
    exists|i: int| 0 <= i < s.len() && s[i].address == a
}

/// At most one record per address, none at the null address.
pub open spec fn records_wf(s: Seq<Interception>) -> bool {
    &&& forall|i: int| 0 <= i < s.len() ==> (#[trigger] s[i]).address != 0
    &&& forall|i: int, j: int|
        0 <= i < s.len() && 0 <= j < s.len() && i != j ==> (#[trigger] s[i]).address
            != (#[trigger] s[j]).address
}

/// What installing at `a` makes of the records, and what it returns.
pub open spec fn install_spec(s: Seq<Interception>, a: usize) -> (Seq<Interception>, Result<
    usize,
    InterposeError,
>) {
    if a == 0 {
        (s, Err(InterposeError::InvalidAddress))
    } else if is_installed(s, a) {
        (s, Err(InterposeError::AlreadyInstalled))
    } else {
        (s.push(Interception { address: a, enabled: false }), Ok(s.len() as usize))
    }
}

/// Installing an address a second time is refused and leaves the records,
/// the first installation and its enabled state included, as they were.
pub proof fn lemma_second_install_refused(s: Seq<Interception>, a: usize)
    requires
        records_wf(s),
        s.len() <= usize::MAX,
        install_spec(s, a).1 is Ok,
    ensures
        ({
            let (s1, r1) = install_spec(s, a);
            let (s2, r2) = install_spec(s1, a);
            &&& r2 == Err::<usize, InterposeError>(InterposeError::AlreadyInstalled)
            &&& s2 == s1
            &&& s2[r1->Ok_0 as int].address == a
        }),
{
    let s1 = s.push(Interception { address: a, enabled: false });
    assert(s1[s.len() as int].address == a);
    assert(is_installed(s1, a));
}

impl Interceptions {
    pub closed spec fn view(&self) -> Seq<Interception> {
        self.records@
    }

    pub open spec fn wf(&self) -> bool {
        &&& records_wf(self@)
        &&& self@.len() <= usize::MAX
    }

    /// No interception yet.
    pub fn new() -> (r: Interceptions)
        ensures
            r@ == Seq::<Interception>::empty(),
            r.wf(),
    {
        Interceptions { records: Vec::new() }
    }

    /// Whether `address` carries an interception.
    pub fn is_installed(&self, address: usize) -> (r: bool)
        ensures
            r == is_installed(self@, address),
    {
        let mut i: usize = 0;
        while i < self.records.len()
            invariant
                i <= self@.len(),
                forall|j: int| 0 <= j < i ==> self@[j].address != address,
            decreases self@.len() - i,
        {
            if self.records[i].address == address {
                return true;
            }
            i = i + 1;
        }
        false
    }

    /// Whether `handle` names an interception.
    pub fn is_handle(&self, handle: usize) -> (r: bool)
        ensures
            r == (handle < self@.len()),
    {
        handle < self.records.len()
    }

    /// Whether the interception `handle` is enabled.
    pub fn is_enabled(&self, handle: usize) -> (r: bool)
        requires
            handle < self@.len(),
        ensures
            r == self@[handle as int].enabled,
    {
        self.records[handle].enabled
    }

    /// Records a new, not yet enabled interception at `address` and returns
    /// its handle. A null address, or one that already carries an
    /// interception, is refused and nothing changes.
    pub fn install(&mut self, address: usize) -> (r: Result<usize, InterposeError>)
        requires
            old(self).wf(),
        ensures
            final(self).wf(),
            (final(self)@, r) == install_spec(old(self)@, address),
    {
        if address == 0 {
            return Err(InterposeError::InvalidAddress);
        }
        if self.is_installed(address) {
            return Err(InterposeError::AlreadyInstalled);
        }
        let handle = self.records.len();
        self.records.push(Interception { address, enabled: false });
        let _ = self.records.len();
        Ok(handle)
    }

    /// Routes calls at the interception's address to its replacement.
    pub fn enable(&mut self, handle: usize)
        requires
            old(self).wf(),
            handle < old(self)@.len(),
        ensures
            final(self).wf(),
            final(self)@ == old(self)@.update(
                handle as int,
                Interception { address: old(self)@[handle as int].address, enabled: true },
            ),
    {
        let address = self.records[handle].address;
        self.records.set(handle, Interception { address, enabled: true });
    }

    /// Restores the original control flow at the interception's address.
    pub fn disable(&mut self, handle: usize)
        requires
            old(self).wf(),
            handle < old(self)@.len(),
        ensures
            final(self).wf(),
            final(self)@ == old(self)@.update(
                handle as int,
                Interception { address: old(self)@[handle as int].address, enabled: false },
            ),
    {
        let address = self.records[handle].address;
        self.records.set(handle, Interception { address, enabled: false });
    }
}

} // verus!
