//! Console-level settings.

use vstd::prelude::*;

verus! {

/// Rendering configuration.
#[derive(Clone, Copy, PartialEq, Eq, Structural, Debug)]
pub struct GraphicsSettings {
    /// Skip the BIOS boot-logo animation by patching its jump hook.
    pub skip_boot_animation: bool,
}

/// Settings of one console instance.
#[derive(Clone, Copy, PartialEq, Eq, Structural, Debug)]
pub struct Ps1Settings {
    pub graphics: GraphicsSettings,
}

impl Default for Ps1Settings {
    fn default() -> (r: Ps1Settings)
        ensures
            r == (Ps1Settings { graphics: GraphicsSettings { skip_boot_animation: false } }),
    {
        Ps1Settings { graphics: GraphicsSettings { skip_boot_animation: false } }
    }
}

} // verus!
