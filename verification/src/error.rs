use vstd::prelude::*;

use crate::dependency::Dependency;
use crate::vars::{Mode, Vars};

verus! {

/// Why a configuration or an evaluation request was refused.
#[derive(Clone, Copy, Debug, PartialEq, Eq, Structural)]
pub enum XcError {
    /// No mode is set, or a requested functional has no kernel.
    NotConfigured,
    /// A setting name matches no functional, parameter or alias.
    UnknownName,
    /// The input buffer does not have the length the layout asks for.
    InputLengthMismatch { expected: usize, got: usize },
    /// The output buffer does not have the length the request produces.
    OutputLengthMismatch { expected: usize, got: usize },
    /// The derivative order is beyond what the mode supports.
    InvalidOrder { order: u32, mode: Mode, n_vars: usize },
    /// The mode cannot be used with the dependencies of the functionals.
    InvalidMode { mode: Mode, depends: Dependency },
    /// The variable layout does not provide what the functionals need.
    InvalidVars { vars: Vars, required: Dependency },
    /// Both the variable layout and the mode are unusable together with the
    /// dependencies of the functionals.
    InvalidVarsAndMode { vars: Vars, mode: Mode, depends: Dependency },
    /// The evaluation back end failed.
    Runtime,
}

} // verus!
