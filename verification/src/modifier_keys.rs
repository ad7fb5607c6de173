use vstd::prelude::*;

verus! {

/// A set of held modifier keys, as egui reports them.
#[derive(Clone, Copy, Debug, PartialEq, Eq, Structural)]
pub struct ModifierKeys {
    /// Either of the alt keys is down (option on Mac).
    pub alt: bool,
    /// Either of the control keys is down.
    pub ctrl: bool,
    /// Either of the shift keys is down.
    pub shift: bool,
    /// The Mac command key.
    pub mac_cmd: bool,
    /// The platform's command key: control on Windows and Linux, command on Mac.
    pub command: bool,
}

impl ModifierKeys {
    /// The shift key alone.
    pub open spec fn spec_shift() -> ModifierKeys {
        ModifierKeys { alt: false, ctrl: false, shift: true, mac_cmd: false, command: false }
    }

    /// The shift key alone.
    pub fn shift() -> (r: ModifierKeys)
        ensures
            r == ModifierKeys::spec_shift(),
    {
        ModifierKeys { alt: false, ctrl: false, shift: true, mac_cmd: false, command: false }
    }
}

} // verus!
