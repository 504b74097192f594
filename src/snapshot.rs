use vstd::prelude::*;

verus! {

#[verifier::external_type_specification]
#[verifier::external_body]
pub struct ExSystem(sysinfo::System);

/// Relies on sysinfo's `System::new_all`: a fresh view of the host, read once.
/// What it reads depends on the machine, so nothing is stated of it.
pub assume_specification[ sysinfo::System::new_all ]() -> sysinfo::System;

/// Relies on sysinfo's `System::refresh_all`: re-reads every tracked host
/// figure in place. What it reads depends on the machine.
pub assume_specification[ sysinfo::System::refresh_all ](system: &mut sysinfo::System);

/// The most recently observed host resource state, shared by the handlers.
/// The ghost counter records how many refreshes it has gone through since it
/// was created.
pub struct Snapshot {
    system: sysinfo::System,
    refreshes: Ghost<nat>,
}

impl Snapshot {
    /// Number of refreshes since creation.
    pub closed spec fn refresh_count(&self) -> nat {
        self.refreshes@
    }

    /// Reads the host once; no refresh has happened yet.
    pub fn new() -> (s: Snapshot)
        ensures
            s.refresh_count() == 0,
    {
        Snapshot { system: sysinfo::System::new_all(), refreshes: Ghost(0) }
    }

    /// Re-reads all host figures: exactly one refresh more.
    pub fn refresh(&mut self)
        ensures
            final(self).refresh_count() == old(self).refresh_count() + 1,
    {
        self.system.refresh_all();
        self.refreshes = Ghost(self.refreshes@ + 1);
    }

    /// The host state as last read.
    pub fn system(&self) -> &sysinfo::System {
        &self.system
    }
}

} // verus!
