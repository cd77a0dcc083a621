use vstd::prelude::*;

verus! {

/// Handle on the WireGuard tunnel interface of this host.
pub struct WireGuardService {}

impl WireGuardService {
    pub fn new() -> (r: WireGuardService)
        ensures
            r == (WireGuardService {}),
    {
        WireGuardService {}
    }

    /// Brings the interface up; this step itself cannot fail.
    pub fn start_interface(&self) -> (r: Result<(), String>)
        ensures
            r is Ok,
    {
        Ok(())
    }

    /// Takes the interface down; this step itself cannot fail.
    pub fn stop_interface(&self) -> (r: Result<(), String>)
        ensures
            r is Ok,
    {
        Ok(())
    }
}

} // verus!
