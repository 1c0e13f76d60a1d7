use vstd::prelude::*;

use crate::dependency::Dependency;
use crate::dispatch::{is_br_class, is_gga, is_lda_core, is_meta_gga, spec_has_launch_arm, spec_supports};
use crate::error::XcError;
use crate::functional::{
    has_flags, has_unsupported, spec_dependencies, spec_eval_setup, spec_input_buffer_len,
    spec_output_length, spec_validate_eval, Functional, MAX_CONTRACTED_ORDER,
};
use crate::functional_id::{spec_functional_code, spec_functional_depends, FunctionalId};
use crate::taylor::spec_taylorlen;
use crate::vars::{spec_input_len, spec_is_2nd_taylor, spec_vars_code, Mode, Vars};

verus! {

/// In partial-derivatives mode an evaluation writes one value per Taylor
/// coefficient of the layout's variables up to the order.
pub proof fn law_partial_output_is_taylorlen(vars: Vars, order: u32)
    ensures
        spec_output_length(vars, Mode::PartialDerivatives, order) == Ok::<usize, XcError>(
            spec_taylorlen(spec_input_len(vars), order as nat) as usize,
        ),
{
}

/// In contracted mode an evaluation at an order up to six writes `2^order`
/// values, and a higher order is refused.
pub proof fn law_contracted_output_is_power_of_two(vars: Vars, order: u32)
    ensures
        order <= MAX_CONTRACTED_ORDER ==> spec_output_length(vars, Mode::Contracted, order)
            == Ok::<usize, XcError>(vstd::arithmetic::power2::pow2(order as nat) as usize),
        order > MAX_CONTRACTED_ORDER ==> spec_output_length(vars, Mode::Contracted, order) is Err,
{
}

/// A validated evaluation has a mode, an input buffer of the layout's length,
/// an output buffer of the length `output_length` gives, and only
/// functionals that have kernels.
pub proof fn law_validated_buffers_match(f: Functional, input_len: usize, output_len: usize)
    requires
        spec_validate_eval(f, input_len, output_len) is Ok,
    ensures
        f.mode != Mode::Unset,
        input_len == spec_input_buffer_len(f.vars, f.mode, f.order),
        spec_output_length(f.vars, f.mode, f.order) == Ok::<usize, XcError>(output_len),
        !has_unsupported(f.functionals@),
{
}

/// A validated potential evaluation also passes the setup check of its
/// configuration.
pub proof fn law_validated_potential_passes_setup(
    f: Functional,
    input_len: usize,
    output_len: usize,
)
    requires
        spec_validate_eval(f, input_len, output_len) is Ok,
        f.mode == Mode::Potential,
    ensures
        spec_eval_setup(spec_dependencies(f.functionals@), f.vars, f.mode, f.order) is Ok,
{
}

/// The setup check accepts every partial-derivatives configuration, and a
/// contracted one exactly when its order is at most six.
pub proof fn law_setup_by_mode(deps: u32, vars: Vars, order: u32)
    ensures
        spec_eval_setup(deps, vars, Mode::PartialDerivatives, order) is Ok,
        spec_eval_setup(deps, vars, Mode::Contracted, order) is Ok <==> order
            <= MAX_CONTRACTED_ORDER,
        spec_eval_setup(deps, vars, Mode::Unset, order) == Err::<(), XcError>(
            XcError::NotConfigured,
        ),
{
}

proof fn lemma_or_keeps_flags(a: u32, b: u32, w: u32)
    ensures
        a & w == w ==> (a | b) & w == w,
        b & w == w ==> (a | b) & w == w,
{
    assert(a & w == w ==> (a | b) & w == w) by (bit_vector);
    assert(b & w == w ==> (a | b) & w == w) by (bit_vector);
}

/// The dependency flags of a list of functionals hold the density flag and
/// every flag of every functional of the list.
pub proof fn law_dependencies_cover_members(ids: Seq<FunctionalId>)
    ensures
        has_flags(spec_dependencies(ids), Dependency::DENSITY_BIT),
        forall|i: int|
            0 <= i < ids.len() ==> has_flags(
                spec_dependencies(ids),
                spec_functional_depends(#[trigger] ids[i]),
            ),
    decreases ids.len(),
{
    if ids.len() == 0 {
        assert(1u32 & 1u32 == 1u32) by (bit_vector);
    } else {
        let init = ids.drop_last();
        law_dependencies_cover_members(init);
        let a = spec_dependencies(init);
        let b = spec_functional_depends(ids.last());
        lemma_or_keeps_flags(a, b, Dependency::DENSITY_BIT);
        lemma_or_keeps_flags(a, b, b);
        assert(b & b == b) by (bit_vector);
        assert forall|i: int| 0 <= i < ids.len() implies has_flags(
            spec_dependencies(ids),
            spec_functional_depends(#[trigger] ids[i]),
        ) by {
            if i < ids.len() - 1 {
                assert(ids[i] == init[i]);
                lemma_or_keeps_flags(a, b, spec_functional_depends(ids[i]));
            }
        }
    }
}

/// A flag is set in the dependency flags of a list of functionals only when
/// it is the density flag or a flag of some functional of the list.
pub proof fn law_dependencies_only_from_members(ids: Seq<FunctionalId>, flag: u32)
    requires
        flag == Dependency::DENSITY_BIT || flag == Dependency::GRADIENT_BIT || flag
            == Dependency::LAPLACIAN_BIT || flag == Dependency::KINETIC_BIT || flag
            == Dependency::JP_BIT,
        has_flags(spec_dependencies(ids), flag),
    ensures
        flag == Dependency::DENSITY_BIT || exists|i: int|
            0 <= i < ids.len() && has_flags(spec_functional_depends(#[trigger] ids[i]), flag),
    decreases ids.len(),
{
    if ids.len() == 0 {
        assert(1u32 & flag == flag && (flag == 2 || flag == 4 || flag == 8 || flag == 16)
            ==> false) by (bit_vector);
    } else if flag != Dependency::DENSITY_BIT {
        let init = ids.drop_last();
        let a = spec_dependencies(init);
        let b = spec_functional_depends(ids.last());
        assert((a | b) & flag == flag && b & flag != flag && (flag == 2 || flag == 4 || flag == 8
            || flag == 16) ==> a & flag == flag) by (bit_vector);
        if has_flags(b, flag) {
            assert(has_flags(spec_functional_depends(ids[ids.len() - 1]), flag));
        } else {
            law_dependencies_only_from_members(init, flag);
            let i = choose|i: int|
                0 <= i < init.len() && has_flags(spec_functional_depends(#[trigger] init[i]), flag);
            assert(ids[i] == init[i]);
        }
    }
}

/// The settings generation counter changes on every recorded change.
pub proof fn law_settings_generation_moves(g: u64)
    ensures
        vstd::wrapping::u64_specs::wrapping_add(g, 1) != g,
{
}

/// Every functional with a kernel can be launched at order zero on the
/// layout its dependencies call for.
pub proof fn law_supported_functional_has_launch(id: FunctionalId)
    requires
        spec_supports(id),
    ensures
        exists|v: Vars| #[trigger] spec_has_launch_arm(spec_functional_code(id), spec_vars_code(v), 0),
{
    let c = spec_functional_code(id);
    if spec_has_launch_arm(c, 6, 0) {
        assert(spec_has_launch_arm(c, spec_vars_code(Vars::A_B_GAA_GAB_GBB), 0));
    } else if spec_has_launch_arm(c, 13, 0) {
        assert(spec_has_launch_arm(c, spec_vars_code(Vars::A_B_GAA_GAB_GBB_TAUA_TAUB), 0));
    } else {
        assert(spec_has_launch_arm(
            c,
            spec_vars_code(Vars::A_B_GAA_GAB_GBB_LAPA_LAPB_TAUA_TAUB_JPAA_JPBB),
            0,
        ));
    }
}

/// The dependency flags the values of the layout `v` provide: the density
/// alone; with gradient information (gradient products, gradient components,
/// or gradient and Hessian); with Laplacians; with kinetic energy densities;
/// and everything with the paramagnetic currents.
pub open spec fn layout_flags(v: Vars) -> u32 {
    match v {
        Vars::A | Vars::N | Vars::A_B | Vars::N_S => 1,
        Vars::A_GAA | Vars::N_GNN | Vars::A_B_GAA_GAB_GBB | Vars::N_S_GNN_GNS_GSS | Vars::A_AX_AY_AZ
        | Vars::A_B_AX_AY_AZ_BX_BY_BZ | Vars::N_NX_NY_NZ | Vars::N_S_NX_NY_NZ_SX_SY_SZ
        | Vars::A_2ND_TAYLOR | Vars::A_B_2ND_TAYLOR | Vars::N_2ND_TAYLOR | Vars::N_S_2ND_TAYLOR => 3,
        Vars::A_GAA_LAPA | Vars::N_GNN_LAPN | Vars::A_B_GAA_GAB_GBB_LAPA_LAPB
        | Vars::N_S_GNN_GNS_GSS_LAPN_LAPS => 7,
        Vars::A_GAA_TAUA | Vars::N_GNN_TAUN | Vars::A_B_GAA_GAB_GBB_TAUA_TAUB
        | Vars::N_S_GNN_GNS_GSS_TAUN_TAUS | Vars::A_AX_AY_AZ_TAUA
        | Vars::A_B_AX_AY_AZ_BX_BY_BZ_TAUA_TAUB | Vars::N_NX_NY_NZ_TAUN
        | Vars::N_S_NX_NY_NZ_SX_SY_SZ_TAUN_TAUS => 11,
        Vars::A_B_GAA_GAB_GBB_LAPA_LAPB_TAUA_TAUB | Vars::N_S_GNN_GNS_GSS_LAPN_LAPS_TAUN_TAUS => 15,
        Vars::A_B_GAA_GAB_GBB_LAPA_LAPB_TAUA_TAUB_JPAA_JPBB => 31,
    }
}

/// The two-spin layouts in gradient products, one per kind of functional:
/// density only, with gradient, with kinetic energy density, and the full
/// layout with Laplacians and currents.
pub open spec fn is_two_spin_product_layout(v: Vars) -> bool {
    v == Vars::A_B || v == Vars::A_B_GAA_GAB_GBB || v == Vars::A_B_GAA_GAB_GBB_TAUA_TAUB || v
        == Vars::A_B_GAA_GAB_GBB_LAPA_LAPB_TAUA_TAUB_JPAA_JPBB
}

proof fn lemma_flag_facts()
    ensures
        1u32 & 1u32 == 1u32,
        3u32 & 1u32 == 1u32,
        3u32 & 3u32 == 3u32,
        3u32 & 2u32 == 2u32,
        3u32 & 4u32 != 4u32,
        3u32 & 8u32 != 8u32,
        1u32 & 2u32 != 2u32,
        11u32 & 1u32 == 1u32,
        11u32 & 3u32 == 3u32,
        11u32 & 11u32 == 11u32,
        11u32 & 2u32 == 2u32,
        11u32 & 8u32 == 8u32,
        15u32 & 1u32 == 1u32,
        15u32 & 3u32 == 3u32,
        15u32 & 11u32 == 11u32,
        7u32 & 1u32 == 1u32,
        7u32 & 3u32 == 3u32,
        31u32 & 1u32 == 1u32,
        31u32 & 3u32 == 3u32,
        31u32 & 11u32 == 11u32,
        31u32 & 31u32 == 31u32,
        31u32 & 2u32 == 2u32,
        31u32 & 4u32 == 4u32,
        31u32 & 8u32 == 8u32,
        1u32 & 3u32 != 3u32,
        1u32 & 11u32 != 11u32,
        3u32 & 11u32 != 11u32,
        7u32 & 11u32 != 11u32,
        1u32 & 31u32 != 31u32,
        3u32 & 31u32 != 31u32,
        7u32 & 31u32 != 31u32,
        11u32 & 31u32 != 31u32,
        15u32 & 31u32 != 31u32,
{
    assert(1u32 & 1u32 == 1u32) by (bit_vector);
    assert(3u32 & 1u32 == 1u32) by (bit_vector);
    assert(3u32 & 3u32 == 3u32) by (bit_vector);
    assert(3u32 & 2u32 == 2u32) by (bit_vector);
    assert(3u32 & 4u32 != 4u32) by (bit_vector);
    assert(3u32 & 8u32 != 8u32) by (bit_vector);
    assert(1u32 & 2u32 != 2u32) by (bit_vector);
    assert(11u32 & 1u32 == 1u32) by (bit_vector);
    assert(11u32 & 3u32 == 3u32) by (bit_vector);
    assert(11u32 & 11u32 == 11u32) by (bit_vector);
    assert(11u32 & 2u32 == 2u32) by (bit_vector);
    assert(11u32 & 8u32 == 8u32) by (bit_vector);
    assert(15u32 & 1u32 == 1u32) by (bit_vector);
    assert(15u32 & 3u32 == 3u32) by (bit_vector);
    assert(15u32 & 11u32 == 11u32) by (bit_vector);
    assert(7u32 & 1u32 == 1u32) by (bit_vector);
    assert(7u32 & 3u32 == 3u32) by (bit_vector);
    assert(31u32 & 1u32 == 1u32) by (bit_vector);
    assert(31u32 & 3u32 == 3u32) by (bit_vector);
    assert(31u32 & 11u32 == 11u32) by (bit_vector);
    assert(31u32 & 31u32 == 31u32) by (bit_vector);
    assert(31u32 & 2u32 == 2u32) by (bit_vector);
    assert(31u32 & 4u32 == 4u32) by (bit_vector);
    assert(31u32 & 8u32 == 8u32) by (bit_vector);
    assert(1u32 & 3u32 != 3u32) by (bit_vector);
    assert(1u32 & 11u32 != 11u32) by (bit_vector);
    assert(3u32 & 11u32 != 11u32) by (bit_vector);
    assert(7u32 & 11u32 != 11u32) by (bit_vector);
    assert(1u32 & 31u32 != 31u32) by (bit_vector);
    assert(3u32 & 31u32 != 31u32) by (bit_vector);
    assert(7u32 & 31u32 != 31u32) by (bit_vector);
    assert(11u32 & 31u32 != 31u32) by (bit_vector);
    assert(15u32 & 31u32 != 31u32) by (bit_vector);
}

/// The dependency flags of a functional follow its kind: exactly the
/// density for the density-only functionals; the gradient for every
/// gradient-corrected one; the gradient and the kinetic energy density for
/// the meta-GGAs; every flag for the Becke-Roussel family and
/// Colle-Salvetti.
pub proof fn law_dependencies_follow_functional_kind(id: FunctionalId)
    ensures
        is_lda_core(spec_functional_code(id)) <==> spec_functional_depends(id)
            == Dependency::DENSITY_BIT,
        has_flags(spec_functional_depends(id), Dependency::DENSITY_BIT),
        is_gga(spec_functional_code(id)) ==> has_flags(
            spec_functional_depends(id),
            Dependency::GRADIENT_BIT,
        ),
        is_meta_gga(spec_functional_code(id)) ==> has_flags(
            spec_functional_depends(id),
            Dependency::GRADIENT_BIT,
        ) && has_flags(spec_functional_depends(id), Dependency::KINETIC_BIT),
        is_br_class(spec_functional_code(id)) ==> spec_functional_depends(id) == 31,
{
    lemma_flag_facts();
}

/// A kernel reads only what its layout provides: every layout on which a
/// functional has a kernel carries all of the functional's dependencies.
pub proof fn law_kernel_layouts_carry_dependencies(id: FunctionalId, v: Vars, n: u32)
    requires
        spec_has_launch_arm(spec_functional_code(id), spec_vars_code(v), n),
    ensures
        has_flags(layout_flags(v), spec_functional_depends(id)),
{
    lemma_flag_facts();
}

/// Every functional with a kernel can be evaluated, up to order three (four
/// for the density-only and gradient-corrected ones), on the two-spin layout
/// that carries exactly its dependencies; and those without Laplacian or
/// kinetic dependencies also on the two-spin density with gradient and
/// Hessian at the first and second order a potential evaluation uses.
pub proof fn law_supported_functionals_have_kernels(id: FunctionalId, v: Vars, n: u32)
    requires
        spec_supports(id),
    ensures
        is_two_spin_product_layout(v) && layout_flags(v) == spec_functional_depends(id) && n <= 3
            ==> spec_has_launch_arm(spec_functional_code(id), spec_vars_code(v), n),
        is_two_spin_product_layout(v) && layout_flags(v) == spec_functional_depends(id) && n == 4
            && has_flags(3, spec_functional_depends(id)) ==> spec_has_launch_arm(
            spec_functional_code(id),
            spec_vars_code(v),
            n,
        ),
        has_flags(3, spec_functional_depends(id)) && 1 <= n <= 2 ==> spec_has_launch_arm(
            spec_functional_code(id),
            spec_vars_code(Vars::A_B_2ND_TAYLOR),
            n,
        ),
{
    lemma_flag_facts();
}

/// A potential evaluation of functionals without Laplacian or kinetic
/// dependencies is set up exactly when they do not depend on the gradient
/// or the layout is one of the density-with-gradient-and-Hessian layouts
/// (layout codes 27 to 30); those layouts hold ten values per spin channel,
/// so the gradient pass exists for each of them.
pub proof fn law_potential_setup_by_layout(deps: u32, v: Vars, order: u32)
    requires
        !has_flags(deps, Dependency::LAPLACIAN_BIT),
        !has_flags(deps, Dependency::KINETIC_BIT),
    ensures
        spec_eval_setup(deps, v, Mode::Potential, order) is Ok <==> (!has_flags(
            deps,
            Dependency::GRADIENT_BIT,
        ) || 27 <= spec_vars_code(v) <= 30),
        27 <= spec_vars_code(v) <= 30 ==> spec_input_len(v) == 10 || spec_input_len(v) == 20,
{
}

} // verus!
