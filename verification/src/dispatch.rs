use vstd::prelude::*;

use crate::functional_id::{spec_functional_code, FunctionalId};

verus! {

/// The functionals with a kernel: every catalogue entry except the Minnesota
/// family (codes 29 to 40) and BLOCX (code 70).
pub open spec fn spec_supports(id: FunctionalId) -> bool {
    let c = spec_functional_code(id);
    !(29 <= c <= 40 || c == 70)
}

/// Host-side guard: whether `id` has a kernel, so that an evaluation of it
/// can be launched.
pub fn supports(id: FunctionalId) -> (r: bool)
    ensures
        r == spec_supports(id),
{
    match id.code() {
        // density-only functionals
        0 | 2 | 3 | 13 | 14 | 15 | 24 | 25 | 28 | 55 | 59
        // gradient functionals
        | 4 | 5 | 6 | 7 | 8 | 9 | 16 | 19 | 20 | 21 | 22 | 69 | 71 | 72 | 73 | 74 | 76
        | 1 | 17 | 18 | 26 | 27 | 56 | 57 | 67 | 68 | 77
        | 23 | 58 | 60 | 61 | 62 | 63 | 64 | 65
        // kinetic-energy-density functionals: TPSS family
        | 41 | 42 | 43 | 44 | 75
        // Becke-Roussel family and Colle-Salvetti
        | 10 | 11 | 12 | 66
        // SCAN family
        | 45 | 46 | 47 | 48 | 49 | 50 | 51 | 52 | 53 | 54 => true,
        _ => false,
    }
}

/// Density-only functionals whose kernels are built for the two-spin
/// density layout.
pub open spec fn is_lda_core(id: u32) -> bool {
    id == 0 || id == 2 || id == 3 || id == 13 || id == 14 || id == 15 || id == 24 || id == 28
        || id == 55
}

/// The density-only functionals together with the two kinetic-energy
/// functionals built on the gradient layout.
pub open spec fn is_lda_class(id: u32) -> bool {
    is_lda_core(id) || id == 25 || id == 59
}

/// Gradient-corrected functionals.
pub open spec fn is_gga(id: u32) -> bool {
    id == 1 || id == 4 || id == 5 || id == 6 || id == 7 || id == 8 || id == 9 || id == 16 || id
        == 17 || id == 18 || id == 19 || id == 20 || id == 21 || id == 22 || id == 23 || id == 26
        || id == 27 || id == 56 || id == 57 || id == 58 || (60 <= id <= 65) || id == 67 || id
        == 68 || id == 69 || id == 71 || id == 72 || id == 73 || id == 74 || id == 76 || id == 77
}

/// Functionals of the kinetic energy density: Minnesota, TPSS and SCAN
/// families, BLOCX and TPSSLOCC.
pub open spec fn is_meta_gga(id: u32) -> bool {
    (29 <= id <= 54) || id == 70 || id == 75
}

/// Becke-Roussel family and Colle-Salvetti, built on the full layout with
/// Laplacians and currents.
pub open spec fn is_br_class(id: u32) -> bool {
    id == 10 || id == 11 || id == 12 || id == 66
}

/// The `(functional code, layout code, Taylor order)` triples for which a
/// specialised kernel exists.
pub open spec fn spec_has_launch_arm(id: u32, vars: u32, n: u32) -> bool {
    ||| vars == 2 && is_lda_core(id) && n <= 4
    ||| vars == 6 && (is_lda_class(id) || is_gga(id)) && n <= 4
    ||| vars == 28 && (is_lda_class(id) || is_gga(id)) && 1 <= n <= 2
    ||| vars == 13 && is_meta_gga(id) && n <= 3
    ||| vars == 13 && n == 4 && (id == 31 || id == 42 || id == 46)
    ||| vars == 17 && is_br_class(id) && n <= 3
    ||| (n == 5 || n == 6) && ((id == 0 && vars == 2) || (id == 5 && vars == 6))
}

fn lda_core(id: u32) -> (r: bool)
    ensures
        r == is_lda_core(id),
{
    matches!(id, 0 | 2 | 3 | 13 | 14 | 15 | 24 | 28 | 55)
}

fn lda_class(id: u32) -> (r: bool)
    ensures
        r == is_lda_class(id),
{
    lda_core(id) || id == 25 || id == 59
}

fn gga(id: u32) -> (r: bool)
    ensures
        r == is_gga(id),
{
    matches!(
        id,
        4 | 5 | 6 | 7 | 8 | 9 | 16 | 19 | 20 | 21 | 22 | 69 | 71 | 72 | 73 | 74 | 76 | 1 | 17 | 18
            | 26 | 27 | 56 | 57 | 67 | 68 | 77 | 23 | 58 | 60 | 61 | 62 | 63 | 64 | 65
    )
}

fn meta_gga(id: u32) -> (r: bool)
    ensures
        r == is_meta_gga(id),
{
    (29 <= id && id <= 54) || id == 70 || id == 75
}

fn br_class(id: u32) -> (r: bool)
    ensures
        r == is_br_class(id),
{
    matches!(id, 10 | 11 | 12 | 66)
}

/// Whether a kernel is specialised for the functional code `id`, the
/// layout code `vars` and the Taylor order `n`; a launch of any other
/// triple is refused as not configured.
pub fn has_launch_arm(id: u32, vars: u32, n: u32) -> (r: bool)
    ensures
        r == spec_has_launch_arm(id, vars, n),
{
    if n == 5 || n == 6 {
        return (id == 0 && vars == 2) || (id == 5 && vars == 6);
    }
    match vars {
        2 => lda_core(id) && n <= 4,
        6 => (lda_class(id) || gga(id)) && n <= 4,
        28 => (lda_class(id) || gga(id)) && 1 <= n && n <= 2,
        13 => (meta_gga(id) && n <= 3) || (n == 4 && (id == 31 || id == 42 || id == 46)),
        17 => br_class(id) && n <= 3,
        _ => false,
    }
}

} // verus!
