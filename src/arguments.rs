use vstd::prelude::*;

verus! {

/// Which historical interpreter the shift instructions follow.
#[derive(Debug, Clone, Copy, PartialEq, Eq, Structural)]
pub enum CompatabilityMode {
    /// The COSMAC VIP of 1977: shifts read register Y.
    Cosmac,
    /// SUPER-CHIP: shifts read register X itself.
    Super,
    /// XO-CHIP: shifts read register X itself.
    Xo,
}

/// Window scale of the user interface.
#[derive(Debug, Clone, Copy, PartialEq, Eq, Structural)]
pub enum Scale {
    FitScreen,
    X1,
    X2,
    X4,
    X8,
    X16,
    X32,
}

/// The settings a run of the interpreter is started with.
#[derive(Debug)]
pub struct Arguments {
    /// Path of the program to load.
    pub binary_path: String,
    /// Background colour: a colour name or an rgb string such as `#736`.
    pub background_color: String,
    /// Foreground colour: a colour name or an rgb string such as `#429278`.
    pub foreground_color: String,
    /// Scale of the user interface.
    pub scale: Option<Scale>,
    /// Shift semantics to follow.
    pub compatability_mode: CompatabilityMode,
}

} // verus!
