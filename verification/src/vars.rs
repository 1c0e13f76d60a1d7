use vstd::prelude::*;

verus! {

/// Layout of the density variables handed to an evaluation, one entry per
/// layout of the input vector (`A` = alpha density, `B` = beta density,
/// `N` = total density, `S` = spin density, `G..` = gradient products,
/// `LAP..` = Laplacians, `TAU..` = kinetic energy densities, `JP..` =
/// paramagnetic currents, `..X/Y/Z` = gradient components, `_2ND_TAYLOR` =
/// density with its gradient and Hessian).
#[allow(non_camel_case_types)]
#[derive(Clone, Copy, Debug, PartialEq, Eq, Structural)]
pub enum Vars {
    A,
    N,
    A_B,
    N_S,
    A_GAA,
    N_GNN,
    A_B_GAA_GAB_GBB,
    N_S_GNN_GNS_GSS,
    A_GAA_LAPA,
    A_GAA_TAUA,
    N_GNN_LAPN,
    N_GNN_TAUN,
    A_B_GAA_GAB_GBB_LAPA_LAPB,
    A_B_GAA_GAB_GBB_TAUA_TAUB,
    N_S_GNN_GNS_GSS_LAPN_LAPS,
    N_S_GNN_GNS_GSS_TAUN_TAUS,
    A_B_GAA_GAB_GBB_LAPA_LAPB_TAUA_TAUB,
    A_B_GAA_GAB_GBB_LAPA_LAPB_TAUA_TAUB_JPAA_JPBB,
    N_S_GNN_GNS_GSS_LAPN_LAPS_TAUN_TAUS,
    A_AX_AY_AZ,
    A_B_AX_AY_AZ_BX_BY_BZ,
    N_NX_NY_NZ,
    N_S_NX_NY_NZ_SX_SY_SZ,
    A_AX_AY_AZ_TAUA,
    A_B_AX_AY_AZ_BX_BY_BZ_TAUA_TAUB,
    N_NX_NY_NZ_TAUN,
    N_S_NX_NY_NZ_SX_SY_SZ_TAUN_TAUS,
    A_2ND_TAYLOR,
    A_B_2ND_TAYLOR,
    N_2ND_TAYLOR,
    N_S_2ND_TAYLOR,
}

/// How an evaluation interprets its input and what it writes.
#[derive(Clone, Copy, Debug, PartialEq, Eq, Structural)]
pub enum Mode {
    /// No mode chosen yet: nothing can be evaluated.
    Unset,
    /// Energy and all partial derivatives up to the order, in the
    /// upper-triangular Taylor layout.
    PartialDerivatives,
    /// Energy and the exchange-correlation potential of each spin channel.
    Potential,
    /// Contraction of the derivatives with Taylor-expanded input.
    Contracted,
}

/// Number of input values of the layout `v`.
pub open spec fn spec_input_len(v: Vars) -> nat {
    match v {
        Vars::A => 1,
        Vars::N => 1,
        Vars::A_B => 2,
        Vars::N_S => 2,
        Vars::A_GAA => 2,
        Vars::N_GNN => 2,
        Vars::A_B_GAA_GAB_GBB => 5,
        Vars::N_S_GNN_GNS_GSS => 5,
        Vars::A_GAA_LAPA => 3,
        Vars::A_GAA_TAUA => 3,
        Vars::N_GNN_LAPN => 3,
        Vars::N_GNN_TAUN => 3,
        Vars::A_B_GAA_GAB_GBB_LAPA_LAPB => 7,
        Vars::A_B_GAA_GAB_GBB_TAUA_TAUB => 7,
        Vars::N_S_GNN_GNS_GSS_LAPN_LAPS => 7,
        Vars::N_S_GNN_GNS_GSS_TAUN_TAUS => 7,
        Vars::A_B_GAA_GAB_GBB_LAPA_LAPB_TAUA_TAUB => 9,
        Vars::A_B_GAA_GAB_GBB_LAPA_LAPB_TAUA_TAUB_JPAA_JPBB => 11,
        Vars::N_S_GNN_GNS_GSS_LAPN_LAPS_TAUN_TAUS => 9,
        Vars::A_AX_AY_AZ => 4,
        Vars::A_B_AX_AY_AZ_BX_BY_BZ => 8,
        Vars::N_NX_NY_NZ => 4,
        Vars::N_S_NX_NY_NZ_SX_SY_SZ => 8,
        Vars::A_AX_AY_AZ_TAUA => 5,
        Vars::A_B_AX_AY_AZ_BX_BY_BZ_TAUA_TAUB => 10,
        Vars::N_NX_NY_NZ_TAUN => 5,
        Vars::N_S_NX_NY_NZ_SX_SY_SZ_TAUN_TAUS => 10,
        Vars::A_2ND_TAYLOR => 10,
        Vars::A_B_2ND_TAYLOR => 20,
        Vars::N_2ND_TAYLOR => 10,
        Vars::N_S_2ND_TAYLOR => 20,
    }
}

/// Position of the layout `v` in the declaration order (the code by which
/// the kernels are specialised).
pub open spec fn spec_vars_code(v: Vars) -> u32 {
    match v {
        Vars::A => 0,
        Vars::N => 1,
        Vars::A_B => 2,
        Vars::N_S => 3,
        Vars::A_GAA => 4,
        Vars::N_GNN => 5,
        Vars::A_B_GAA_GAB_GBB => 6,
        Vars::N_S_GNN_GNS_GSS => 7,
        Vars::A_GAA_LAPA => 8,
        Vars::A_GAA_TAUA => 9,
        Vars::N_GNN_LAPN => 10,
        Vars::N_GNN_TAUN => 11,
        Vars::A_B_GAA_GAB_GBB_LAPA_LAPB => 12,
        Vars::A_B_GAA_GAB_GBB_TAUA_TAUB => 13,
        Vars::N_S_GNN_GNS_GSS_LAPN_LAPS => 14,
        Vars::N_S_GNN_GNS_GSS_TAUN_TAUS => 15,
        Vars::A_B_GAA_GAB_GBB_LAPA_LAPB_TAUA_TAUB => 16,
        Vars::A_B_GAA_GAB_GBB_LAPA_LAPB_TAUA_TAUB_JPAA_JPBB => 17,
        Vars::N_S_GNN_GNS_GSS_LAPN_LAPS_TAUN_TAUS => 18,
        Vars::A_AX_AY_AZ => 19,
        Vars::A_B_AX_AY_AZ_BX_BY_BZ => 20,
        Vars::N_NX_NY_NZ => 21,
        Vars::N_S_NX_NY_NZ_SX_SY_SZ => 22,
        Vars::A_AX_AY_AZ_TAUA => 23,
        Vars::A_B_AX_AY_AZ_BX_BY_BZ_TAUA_TAUB => 24,
        Vars::N_NX_NY_NZ_TAUN => 25,
        Vars::N_S_NX_NY_NZ_SX_SY_SZ_TAUN_TAUS => 26,
        Vars::A_2ND_TAYLOR => 27,
        Vars::A_B_2ND_TAYLOR => 28,
        Vars::N_2ND_TAYLOR => 29,
        Vars::N_S_2ND_TAYLOR => 30,
    }
}

/// The layouts that carry the density together with its gradient and
/// Hessian, which a gradient-dependent potential needs.
pub open spec fn spec_is_2nd_taylor(v: Vars) -> bool {
    v == Vars::A_2ND_TAYLOR || v == Vars::A_B_2ND_TAYLOR || v == Vars::N_2ND_TAYLOR
        || v == Vars::N_S_2ND_TAYLOR
}

impl Vars {
    /// Number of input values of this layout.
    pub fn input_len(self) -> (r: usize)
        ensures
            r == spec_input_len(self),
            1 <= r <= 20,
    {
        match self {
            Vars::A => 1,
            Vars::N => 1,
            Vars::A_B => 2,
            Vars::N_S => 2,
            Vars::A_GAA => 2,
            Vars::N_GNN => 2,
            Vars::A_B_GAA_GAB_GBB => 5,
            Vars::N_S_GNN_GNS_GSS => 5,
            Vars::A_GAA_LAPA => 3,
            Vars::A_GAA_TAUA => 3,
            Vars::N_GNN_LAPN => 3,
            Vars::N_GNN_TAUN => 3,
            Vars::A_B_GAA_GAB_GBB_LAPA_LAPB => 7,
            Vars::A_B_GAA_GAB_GBB_TAUA_TAUB => 7,
            Vars::N_S_GNN_GNS_GSS_LAPN_LAPS => 7,
            Vars::N_S_GNN_GNS_GSS_TAUN_TAUS => 7,
            Vars::A_B_GAA_GAB_GBB_LAPA_LAPB_TAUA_TAUB => 9,
            Vars::A_B_GAA_GAB_GBB_LAPA_LAPB_TAUA_TAUB_JPAA_JPBB => 11,
            Vars::N_S_GNN_GNS_GSS_LAPN_LAPS_TAUN_TAUS => 9,
            Vars::A_AX_AY_AZ => 4,
            Vars::A_B_AX_AY_AZ_BX_BY_BZ => 8,
            Vars::N_NX_NY_NZ => 4,
            Vars::N_S_NX_NY_NZ_SX_SY_SZ => 8,
            Vars::A_AX_AY_AZ_TAUA => 5,
            Vars::A_B_AX_AY_AZ_BX_BY_BZ_TAUA_TAUB => 10,
            Vars::N_NX_NY_NZ_TAUN => 5,
            Vars::N_S_NX_NY_NZ_SX_SY_SZ_TAUN_TAUS => 10,
            Vars::A_2ND_TAYLOR => 10,
            Vars::A_B_2ND_TAYLOR => 20,
            Vars::N_2ND_TAYLOR => 10,
            Vars::N_S_2ND_TAYLOR => 20,
        }
    }

    /// Position of this layout in the declaration order.
    pub fn code(self) -> (r: u32)
        ensures
            r == spec_vars_code(self),
            r <= 30,
    {
        match self {
            Vars::A => 0,
            Vars::N => 1,
            Vars::A_B => 2,
            Vars::N_S => 3,
            Vars::A_GAA => 4,
            Vars::N_GNN => 5,
            Vars::A_B_GAA_GAB_GBB => 6,
            Vars::N_S_GNN_GNS_GSS => 7,
            Vars::A_GAA_LAPA => 8,
            Vars::A_GAA_TAUA => 9,
            Vars::N_GNN_LAPN => 10,
            Vars::N_GNN_TAUN => 11,
            Vars::A_B_GAA_GAB_GBB_LAPA_LAPB => 12,
            Vars::A_B_GAA_GAB_GBB_TAUA_TAUB => 13,
            Vars::N_S_GNN_GNS_GSS_LAPN_LAPS => 14,
            Vars::N_S_GNN_GNS_GSS_TAUN_TAUS => 15,
            Vars::A_B_GAA_GAB_GBB_LAPA_LAPB_TAUA_TAUB => 16,
            Vars::A_B_GAA_GAB_GBB_LAPA_LAPB_TAUA_TAUB_JPAA_JPBB => 17,
            Vars::N_S_GNN_GNS_GSS_LAPN_LAPS_TAUN_TAUS => 18,
            Vars::A_AX_AY_AZ => 19,
            Vars::A_B_AX_AY_AZ_BX_BY_BZ => 20,
            Vars::N_NX_NY_NZ => 21,
            Vars::N_S_NX_NY_NZ_SX_SY_SZ => 22,
            Vars::A_AX_AY_AZ_TAUA => 23,
            Vars::A_B_AX_AY_AZ_BX_BY_BZ_TAUA_TAUB => 24,
            Vars::N_NX_NY_NZ_TAUN => 25,
            Vars::N_S_NX_NY_NZ_SX_SY_SZ_TAUN_TAUS => 26,
            Vars::A_2ND_TAYLOR => 27,
            Vars::A_B_2ND_TAYLOR => 28,
            Vars::N_2ND_TAYLOR => 29,
            Vars::N_S_2ND_TAYLOR => 30,
        }
    }

    /// Whether this layout carries the density with its gradient and Hessian.
    pub fn is_2nd_taylor(self) -> (r: bool)
        ensures
            r == spec_is_2nd_taylor(self),
    {
        match self {
            Vars::A_2ND_TAYLOR | Vars::A_B_2ND_TAYLOR | Vars::N_2ND_TAYLOR
            | Vars::N_S_2ND_TAYLOR => true,
            _ => false,
        }
    }
}

} // verus!
