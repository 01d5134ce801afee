//! Hardware model selection.

use vstd::prelude::*;

verus! {

/// The console models, which differ in their reset values.
#[derive(Debug, Clone, Copy, PartialEq, Eq, Structural)]
pub enum HardwareModel {
    /// The first console, in grey.
    GB,
    /// The color console.
    GBC,
    /// The pocket console.
    GBP,
    /// The console adapter for a home system.
    SGB,
}

/// The emulation settings.
#[derive(Debug, Clone, Copy, PartialEq, Eq, Structural)]
pub struct Config {
    /// The model of the emulated machine.
    pub model: HardwareModel,
}

impl Default for Config {
    fn default() -> (config: Config)
        ensures
            config == (Config { model: HardwareModel::GB }),
    {
        Config { model: HardwareModel::GB }
    }
}

} // verus!
