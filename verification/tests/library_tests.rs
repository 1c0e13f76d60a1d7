use xcfun_eval::dependency::Dependency;
use xcfun_eval::dispatch::{has_launch_arm, supports};
use xcfun_eval::error::XcError;
use xcfun_eval::functional::Functional;
use xcfun_eval::functional_id::FunctionalId;
use xcfun_eval::taylor::{inlen_triangle_count, taylorlen, taylorlen_fits};
use xcfun_eval::vars::{Mode, Vars};

fn config(functionals: Vec<FunctionalId>, vars: Vars, mode: Mode, order: u32) -> Functional {
    Functional { functionals, vars, mode, order, settings_gen: 0 }
}

#[test]
fn taylorlen_exact_values() {
    assert_eq!(taylorlen(2, 0), 1);
    assert_eq!(taylorlen(2, 1), 3);
    assert_eq!(taylorlen(2, 2), 6);
    assert_eq!(taylorlen(2, 5), 21);
    assert_eq!(taylorlen(5, 2), 21);
    assert_eq!(taylorlen(20, 4), 10626);
    assert_eq!(taylorlen(0, 3), 1);
}

#[test]
fn triangle_count_equals_taylorlen() {
    for inlen in 1_usize..=20 {
        for order in 0_usize..=4 {
            assert_eq!(inlen_triangle_count(inlen, order), taylorlen(inlen, order));
        }
    }
    assert_eq!(inlen_triangle_count(5, 2), 21);
    assert_eq!(inlen_triangle_count(2, 3), 10);
}

#[test]
fn supports_excludes_minnesota_and_blocx() {
    assert!(supports(FunctionalId::XC_SLATERX));
    assert!(supports(FunctionalId::XC_PBEX));
    assert!(supports(FunctionalId::XC_TPSSX));
    assert!(supports(FunctionalId::XC_BRX));
    assert!(supports(FunctionalId::XC_PW91C));
    assert!(!supports(FunctionalId::XC_M05X));
    assert!(!supports(FunctionalId::XC_M06X2C));
    assert!(!supports(FunctionalId::XC_BLOCX));
    let count = (0_u32..78)
        .filter(|c| supports(FunctionalId::from_code(*c).unwrap()))
        .count();
    assert_eq!(count, 65);
}

#[test]
fn launch_arms_follow_the_kernel_table() {
    assert!(has_launch_arm(0, 2, 0));
    assert!(has_launch_arm(0, 2, 4));
    assert!(has_launch_arm(0, 2, 6));
    assert!(!has_launch_arm(0, 2, 7));
    assert!(!has_launch_arm(25, 2, 0));
    assert!(has_launch_arm(25, 6, 4));
    assert!(has_launch_arm(5, 6, 6));
    assert!(!has_launch_arm(4, 6, 5));
    assert!(has_launch_arm(77, 28, 1));
    assert!(!has_launch_arm(77, 28, 0));
    assert!(has_launch_arm(31, 13, 4));
    assert!(!has_launch_arm(41, 13, 4));
    assert!(has_launch_arm(70, 13, 3));
    assert!(has_launch_arm(66, 17, 3));
    assert!(!has_launch_arm(66, 13, 0));
    assert!(!has_launch_arm(0, 3, 0));
}

#[test]
fn codes_round_trip() {
    for c in 0_u32..78 {
        assert_eq!(FunctionalId::from_code(c).unwrap().code(), c);
    }
    assert!(FunctionalId::from_code(78).is_none());
    assert_eq!(FunctionalId::XC_PW91C.code(), 77);
    assert_eq!(Vars::A_B_2ND_TAYLOR.code(), 28);
    assert_eq!(Vars::A_B_GAA_GAB_GBB_TAUA_TAUB.code(), 13);
    assert_eq!(Vars::N_S_2ND_TAYLOR.input_len(), 20);
}

#[test]
fn new_and_default_agree() {
    let a = Functional::new();
    let b = Functional::default();
    assert!(a.functionals.is_empty() && b.functionals.is_empty());
    assert_eq!(a.vars, Vars::A_B);
    assert_eq!(b.vars, Vars::A_B);
    assert_eq!(a.mode, Mode::Unset);
    assert_eq!(b.mode, Mode::Unset);
    assert_eq!(a.order, 0);
    assert_eq!(a.settings_generation(), 0);
}

#[test]
fn settings_generation_moves_and_wraps() {
    let mut f = Functional::new();
    f.bump_settings_generation();
    assert_eq!(f.settings_generation(), 1);
    f.bump_settings_generation();
    assert_eq!(f.settings_generation(), 2);
    f.settings_gen = u64::MAX;
    f.bump_settings_generation();
    assert_eq!(f.settings_generation(), 0);
}

#[test]
fn validate_refuses_functional_without_kernel() {
    let f = config(vec![FunctionalId::XC_M05X], Vars::A_B, Mode::PartialDerivatives, 0);
    assert_eq!(f.validate_eval(2, 1), Err(XcError::NotConfigured));
}

#[test]
fn validate_potential_runs_setup_check() {
    let f = config(vec![FunctionalId::XC_TPSSX], Vars::A_B_2ND_TAYLOR, Mode::Potential, 0);
    let deps = f.dependencies();
    assert_eq!(
        f.validate_eval(20, 3),
        Err(XcError::InvalidMode { mode: Mode::Potential, depends: deps })
    );
    let g = config(vec![FunctionalId::XC_PBEX], Vars::A_B_2ND_TAYLOR, Mode::Potential, 0);
    assert_eq!(g.validate_eval(20, 3), Ok(()));
    assert_eq!(
        g.validate_eval(20, 2),
        Err(XcError::OutputLengthMismatch { expected: 3, got: 2 })
    );
}

#[test]
fn validate_contracted_lengths() {
    let f = config(vec![FunctionalId::XC_PBEX], Vars::A_B_GAA_GAB_GBB, Mode::Contracted, 3);
    assert_eq!(f.validate_eval(40, 8), Ok(()));
    assert_eq!(
        f.validate_eval(5, 8),
        Err(XcError::InputLengthMismatch { expected: 40, got: 5 })
    );
    assert_eq!(
        f.validate_eval(40, 9),
        Err(XcError::OutputLengthMismatch { expected: 8, got: 9 })
    );
}

#[test]
fn validate_partial_order_error_names_order_and_inputs() {
    let f = config(Vec::new(), Vars::A_B_GAA_GAB_GBB, Mode::PartialDerivatives, 5);
    assert_eq!(
        f.validate_eval(5, 252),
        Err(XcError::InvalidOrder { order: 5, mode: Mode::PartialDerivatives, n_vars: 5 })
    );
    let g = config(Vec::new(), Vars::A_B_GAA_GAB_GBB, Mode::PartialDerivatives, 4);
    assert_eq!(g.validate_eval(5, 126), Ok(()));
}

#[test]
fn output_length_unset_is_not_configured() {
    assert_eq!(
        Functional::output_length(Vars::A_B, Mode::Unset, 0),
        Err(XcError::NotConfigured)
    );
    assert_eq!(
        Functional::output_length(Vars::A_B, Mode::Contracted, 9),
        Err(XcError::InvalidOrder { order: 9, mode: Mode::Contracted, n_vars: 2 })
    );
}

#[test]
fn dependencies_of_no_functional_is_density() {
    let f = Functional::new();
    assert_eq!(f.dependencies(), Dependency::density());
    let g = config(vec![FunctionalId::XC_BRX], Vars::A_B, Mode::PartialDerivatives, 0);
    assert_eq!(g.dependencies().bits, 31);
    let h = config(
        vec![FunctionalId::XC_SLATERX, FunctionalId::XC_TPSSC],
        Vars::A_B,
        Mode::PartialDerivatives,
        0,
    );
    assert_eq!(h.dependencies().bits, 11);
}

#[test]
fn dependency_union_and_contains() {
    let d = Dependency::density().union(Dependency::kinetic());
    assert_eq!(d.bits, 9);
    assert!(d.contains(Dependency::kinetic()));
    assert!(!d.contains(Dependency::gradient()));
    assert!(d.contains(Dependency::density().union(Dependency::kinetic())));
    assert!(Dependency::jp().contains(Dependency { bits: 0 }));
}

#[test]
fn setup_partial_derivatives_always_passes() {
    let f = config(vec![FunctionalId::XC_BRX], Vars::A, Mode::PartialDerivatives, 3);
    assert_eq!(f.eval_setup(Vars::A, Mode::PartialDerivatives, 3), Ok(()));
}

#[test]
fn taylorlen_fits_at_the_edges() {
    assert!(taylorlen_fits(20, 4));
    assert!(taylorlen_fits(2, 1000));
    assert!(taylorlen_fits(0, 0));
    assert!(!taylorlen_fits(usize::MAX, 1));
    assert!(!taylorlen_fits(20, 1000));
    assert!(taylorlen_fits(usize::MAX, 0));
}
