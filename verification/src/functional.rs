use vstd::prelude::*;

use crate::dependency::Dependency;
use crate::dispatch::{spec_supports, supports};
use crate::error::XcError;
use crate::functional_id::{spec_functional_depends, FunctionalId};
use crate::taylor::{binom, lemma_small_taylorlen, spec_taylorlen, taylorlen};
use crate::vars::{spec_input_len, spec_is_2nd_taylor, Mode, Vars};

verus! {

/// Highest derivative order of a partial-derivatives evaluation.
pub const MAX_PARTIAL_ORDER: u32 = 4;

/// Highest order of a contracted evaluation.
pub const MAX_CONTRACTED_ORDER: u32 = 6;

/// The evaluation configuration of a weighted sum of functionals: which
/// functionals are active, the input layout, the mode and the order, and the
/// generation counter of the settings.
///
/// The weights and the settings values themselves are floating-point data
/// and are held by the caller beside this configuration; `functionals`
/// lists the active functionals in the order of their weights.
#[derive(Clone, Debug)]
pub struct Functional {
    /// The active functionals, one per weight.
    pub functionals: Vec<FunctionalId>,
    /// Input variable layout.
    pub vars: Vars,
    /// Evaluation mode.
    pub mode: Mode,
    /// Derivative order.
    pub order: u32,
    /// Counter bumped on every change of a setting.
    pub settings_gen: u64,
}

/// Dependency flags of a list of functionals: the density flag together
/// with the flags of every functional of the list.
pub open spec fn spec_dependencies(ids: Seq<FunctionalId>) -> u32
    decreases ids.len(),
{
    if ids.len() == 0 {
        Dependency::DENSITY_BIT
    } else {
        spec_dependencies(ids.drop_last()) | spec_functional_depends(ids.last())
    }
}

/// The flags of `want` are all set in `deps`.
pub open spec fn has_flags(deps: u32, want: u32) -> bool {
    deps & want == want
}

/// Outcome of the setup check of `(vars, mode, order)` for functionals with
/// the dependency flags `deps`.
pub open spec fn spec_eval_setup(deps: u32, vars: Vars, mode: Mode, order: u32) -> Result<
    (),
    XcError,
> {
    match mode {
        Mode::Unset => Err(XcError::NotConfigured),
        Mode::Contracted => if order > MAX_CONTRACTED_ORDER {
            Err(
                XcError::InvalidOrder {
                    order,
                    mode,
                    n_vars: spec_input_len(vars) as usize,
                },
            )
        } else {
            Ok(())
        },
        Mode::PartialDerivatives => Ok(()),
        Mode::Potential => if has_flags(deps, Dependency::LAPLACIAN_BIT) || has_flags(
            deps,
            Dependency::KINETIC_BIT,
        ) {
            Err(XcError::InvalidMode { mode, depends: Dependency { bits: deps } })
        } else if has_flags(deps, Dependency::GRADIENT_BIT) && !spec_is_2nd_taylor(vars) {
            Err(XcError::InvalidVarsAndMode { vars, mode, depends: Dependency { bits: deps } })
        } else {
            Ok(())
        },
    }
}

/// Number of values written by a potential evaluation: the energy and one
/// potential per spin channel of the layout.
pub open spec fn spec_potential_len(vars: Vars) -> nat {
    if vars == Vars::A || vars == Vars::A_2ND_TAYLOR {
        2
    } else {
        3
    }
}

/// Outcome of the output-length query for `(vars, mode, order)`.
pub open spec fn spec_output_length(vars: Vars, mode: Mode, order: u32) -> Result<usize, XcError> {
    match mode {
        Mode::PartialDerivatives => Ok(spec_taylorlen(spec_input_len(vars), order as nat) as usize),
        Mode::Potential => Ok(spec_potential_len(vars) as usize),
        Mode::Contracted => if order > MAX_CONTRACTED_ORDER {
            Err(
                XcError::InvalidOrder {
                    order,
                    mode,
                    n_vars: spec_input_len(vars) as usize,
                },
            )
        } else {
            Ok(vstd::arithmetic::power2::pow2(order as nat) as usize)
        },
        Mode::Unset => Err(XcError::NotConfigured),
    }
}

/// Length of the input buffer an evaluation reads: the layout's values, each
/// with `2^order` Taylor coefficients in contracted mode.
pub open spec fn spec_input_buffer_len(vars: Vars, mode: Mode, order: u32) -> int {
    if mode == Mode::Contracted {
        (spec_input_len(vars) * vstd::arithmetic::power2::pow2(order as nat)) as int
    } else {
        spec_input_len(vars) as int
    }
}

/// Some functional of `ids` has no kernel.
pub open spec fn has_unsupported(ids: Seq<FunctionalId>) -> bool {
    exists|i: int| 0 <= i < ids.len() && !spec_supports(#[trigger] ids[i])
}

/// Outcome of the checks an evaluation of `f` makes before any kernel runs,
/// for an input buffer of `input_len` values and an output buffer of
/// `output_len` values, in the order in which they are made.
pub open spec fn spec_validate_eval(f: Functional, input_len: usize, output_len: usize) -> Result<
    (),
    XcError,
> {
    let inlen = spec_input_len(f.vars);
    let expected_in = spec_input_buffer_len(f.vars, f.mode, f.order);
    if f.mode == Mode::Unset {
        Err(XcError::NotConfigured)
    } else if input_len != expected_in {
        Err(XcError::InputLengthMismatch { expected: expected_in as usize, got: input_len })
    } else if (f.mode == Mode::PartialDerivatives && f.order > MAX_PARTIAL_ORDER) || (f.mode
        == Mode::Contracted && f.order > MAX_CONTRACTED_ORDER) {
        Err(XcError::InvalidOrder { order: f.order, mode: f.mode, n_vars: inlen as usize })
    } else if Ok::<usize, XcError>(output_len) != spec_output_length(f.vars, f.mode, f.order) {
        Err(
            XcError::OutputLengthMismatch {
                expected: spec_output_length(f.vars, f.mode, f.order)->Ok_0,
                got: output_len,
            },
        )
    } else if has_unsupported(f.functionals@) {
        Err(XcError::NotConfigured)
    } else if f.mode == Mode::Potential {
        spec_eval_setup(spec_dependencies(f.functionals@), f.vars, f.mode, f.order)
    } else {
        Ok(())
    }
}

/// Flags of `ids` prefixes grow by the flags of the next functional.
proof fn lemma_dependencies_take(ids: Seq<FunctionalId>, i: int)
    requires
        0 <= i < ids.len(),
    ensures
        spec_dependencies(ids.take(i + 1)) == spec_dependencies(ids.take(i))
            | spec_functional_depends(ids[i]),
{
    assert(ids.take(i + 1).drop_last() =~= ids.take(i));
}

impl Functional {
    /// A configuration with no active functional, the two-spin density
    /// layout, no mode, order zero and a fresh settings generation.
    pub fn new() -> (r: Functional)
        ensures
            r.functionals@.len() == 0,
            r.vars == Vars::A_B,
            r.mode == Mode::Unset,
            r.order == 0,
            r.settings_gen == 0,
    {
        Functional {
            functionals: Vec::new(),
            vars: Vars::A_B,
            mode: Mode::Unset,
            order: 0,
            settings_gen: 0,
        }
    }

    /// The generation counter of the settings.
    pub fn settings_generation(&self) -> (r: u64)
        ensures
            r == self.settings_gen,
    {
        self.settings_gen
    }

    /// Records one change of a setting: the generation counter moves on by
    /// one, wrapping around at the end of its range.
    pub fn bump_settings_generation(&mut self)
        ensures
            final(self).settings_gen == vstd::wrapping::u64_specs::wrapping_add(
                old(self).settings_gen,
                1,
            ),
            final(self).functionals@ == old(self).functionals@,
            final(self).vars == old(self).vars,
            final(self).mode == old(self).mode,
            final(self).order == old(self).order,
    {
        self.settings_gen = self.settings_gen.wrapping_add(1);
    }

    /// Number of input values the layout `vars` has.
    pub fn input_length(vars: Vars) -> (r: usize)
        ensures
            r == spec_input_len(vars),
    {
        vars.input_len()
    }

    /// Number of values an evaluation in `mode` at `order` on the layout
    /// `vars` writes: the Taylor length in partial-derivatives mode, the
    /// energy and one potential per spin channel in potential mode, `2^order`
    /// in contracted mode (orders up to six).
    pub fn output_length(vars: Vars, mode: Mode, order: u32) -> (r: Result<usize, XcError>)
        requires
            mode == Mode::PartialDerivatives ==> spec_input_len(vars) + order <= usize::MAX
                && order * binom((spec_input_len(vars) + order) as nat, order as nat) <= usize::MAX,
        ensures
            r == spec_output_length(vars, mode, order),
    {
        match mode {
            Mode::PartialDerivatives => Ok(taylorlen(Self::input_length(vars), order as usize)),
            Mode::Potential => {
                match vars {
                    Vars::A | Vars::A_2ND_TAYLOR => Ok(2),
                    _ => Ok(3),
                }
            },
            Mode::Contracted => {
                if order > MAX_CONTRACTED_ORDER {
                    return Err(
                        XcError::InvalidOrder {
                            order,
                            mode,
                            n_vars: Self::input_length(vars),
                        },
                    );
                }
                proof {
                    vstd::arithmetic::power2::lemma2_to64();
                    vstd::bits::lemma_usize_shl_is_mul(1, order as usize);
                }
                Ok(1usize << (order as usize))
            },
            Mode::Unset => Err(XcError::NotConfigured),
        }
    }

    /// The dependency flags of the active functionals, together with the
    /// density flag.
    pub fn dependencies(&self) -> (r: Dependency)
        ensures
            r.bits == spec_dependencies(self.functionals@),
    {
        let mut bits: u32 = Dependency::DENSITY_BIT;
        let mut i: usize = 0;
        while i < self.functionals.len()
            invariant
                i <= self.functionals@.len(),
                bits == spec_dependencies(self.functionals@.take(i as int)),
            decreases self.functionals@.len() - i,
        {
            proof {
                lemma_dependencies_take(self.functionals@, i as int);
            }
            bits = bits | self.functionals[i].depends_bits();
            i = i + 1;
        }
        proof {
            assert(self.functionals@.take(i as int) =~= self.functionals@);
        }
        Dependency { bits }
    }

    /// Setup check of `(vars, mode, order)` against the dependencies of the
    /// active functionals: no mode is refused; contracted mode takes orders
    /// up to six; potential mode refuses Laplacian and kinetic-energy
    /// functionals, and gradient functionals unless the layout carries the
    /// density Hessian.
    pub fn eval_setup(&self, vars: Vars, mode: Mode, order: u32) -> (r: Result<(), XcError>)
        ensures
            r == spec_eval_setup(spec_dependencies(self.functionals@), vars, mode, order),
    {
        let deps = self.dependencies();
        match mode {
            Mode::Unset => Err(XcError::NotConfigured),
            Mode::Contracted => {
                if order > MAX_CONTRACTED_ORDER {
                    return Err(
                        XcError::InvalidOrder {
                            order,
                            mode,
                            n_vars: Self::input_length(vars),
                        },
                    );
                }
                Ok(())
            },
            Mode::PartialDerivatives => Ok(()),
            Mode::Potential => {
                if deps.contains(Dependency::laplacian()) || deps.contains(Dependency::kinetic()) {
                    return Err(XcError::InvalidMode { mode, depends: deps });
                }
                if deps.contains(Dependency::gradient()) && !vars.is_2nd_taylor() {
                    return Err(XcError::InvalidVarsAndMode { vars, mode, depends: deps });
                }
                Ok(())
            },
        }
    }

    /// Whether every active functional has a kernel.
    fn all_supported(&self) -> (r: bool)
        ensures
            r == !has_unsupported(self.functionals@),
    {
        let mut i: usize = 0;
        while i < self.functionals.len()
            invariant
                i <= self.functionals@.len(),
                forall|j: int| 0 <= j < i ==> spec_supports(#[trigger] self.functionals@[j]),
            decreases self.functionals@.len() - i,
        {
            if !supports(self.functionals[i]) {
                return false;
            }
            i = i + 1;
        }
        true
    }

    /// The checks an evaluation makes, in order, before any kernel runs:
    /// a mode is set; the input buffer has the layout's length (times
    /// `2^order` in contracted mode); the order is at most four for partial
    /// derivatives and at most six for contraction; the output buffer has
    /// the length `output_length` gives; every active functional has a
    /// kernel; and in potential mode the setup check passes.
    pub fn validate_eval(&self, input_len: usize, output_len: usize) -> (r: Result<(), XcError>)
        requires
            self.mode == Mode::Contracted ==> self.order < usize::BITS && spec_input_len(self.vars)
                * vstd::arithmetic::power2::pow2(self.order as nat) <= usize::MAX,
        ensures
            r == spec_validate_eval(*self, input_len, output_len),
    {
        if self.mode == Mode::Unset {
            return Err(XcError::NotConfigured);
        }
        let expected_inlen = Self::input_length(self.vars);
        let expected_input_buf_len = if self.mode == Mode::Contracted {
            proof {
                vstd::bits::lemma_usize_shl_is_mul(1, self.order as usize);
                vstd::arithmetic::power2::lemma_pow2_pos(self.order as nat);
                assert(1 * vstd::arithmetic::power2::pow2(self.order as nat) <= expected_inlen
                    * vstd::arithmetic::power2::pow2(self.order as nat)) by (nonlinear_arith)
                    requires
                        expected_inlen >= 1,
                ;
            }
            expected_inlen * (1usize << (self.order as usize))
        } else {
            expected_inlen
        };
        if input_len != expected_input_buf_len {
            return Err(
                XcError::InputLengthMismatch { expected: expected_input_buf_len, got: input_len },
            );
        }
        if (self.mode == Mode::PartialDerivatives && self.order > MAX_PARTIAL_ORDER) || (self.mode
            == Mode::Contracted && self.order > MAX_CONTRACTED_ORDER) {
            return Err(
                XcError::InvalidOrder { order: self.order, mode: self.mode, n_vars: expected_inlen },
            );
        }
        proof {
            if self.mode == Mode::PartialDerivatives {
                lemma_small_taylorlen(expected_inlen as nat, self.order as nat);
            }
        }
        let expected_outlen = match Self::output_length(self.vars, self.mode, self.order) {
            Ok(len) => len,
            Err(e) => {
                return Err(e);
            },
        };
        if output_len != expected_outlen {
            return Err(XcError::OutputLengthMismatch { expected: expected_outlen, got: output_len });
        }
        if !self.all_supported() {
            return Err(XcError::NotConfigured);
        }
        if self.mode == Mode::Potential {
            return self.eval_setup(self.vars, self.mode, self.order);
        }
        Ok(())
    }
}

impl Default for Functional {
    /// Same as `Functional::new()`.
    fn default() -> (r: Functional)
        ensures
            r.functionals@.len() == 0,
            r.vars == Vars::A_B,
            r.mode == Mode::Unset,
            r.order == 0,
            r.settings_gen == 0,
    {
        Functional::new()
    }
}

} // verus!
