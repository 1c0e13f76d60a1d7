use xcfun_eval::dependency::Dependency;
use xcfun_eval::error::XcError;
use xcfun_eval::functional::Functional;
use xcfun_eval::functional_id::FunctionalId;
use xcfun_eval::taylor::taylorlen;
use xcfun_eval::vars::{Mode, Vars};

fn config(functionals: Vec<FunctionalId>, vars: Vars, mode: Mode, order: u32) -> Functional {
    Functional { functionals, vars, mode, order, settings_gen: 0 }
}

#[test]
fn input_length_matches_vars_table() {
    assert_eq!(Functional::input_length(Vars::A), 1);
    assert_eq!(Functional::input_length(Vars::N), 1);
    assert_eq!(Functional::input_length(Vars::A_B), 2);
    assert_eq!(Functional::input_length(Vars::N_S), 2);
    assert_eq!(Functional::input_length(Vars::A_B_GAA_GAB_GBB), 5);
}

#[test]
fn eval_rejects_unset_mode() {
    let f = config(Vec::new(), Vars::A_B, Mode::Unset, 0);
    let input = [1.0_f64, 0.5];
    let out = vec![0.0_f64; 1];
    assert!(matches!(f.validate_eval(input.len(), out.len()), Err(XcError::NotConfigured)));
}

#[test]
fn eval_contracted_mode_accepted_at_order_0() {
    let f = config(Vec::new(), Vars::A_B, Mode::Contracted, 0);
    let input = [1.0_f64, 0.5];
    let out = vec![0.0_f64; 1];
    assert!(f.validate_eval(input.len(), out.len()).is_ok());
}

#[test]
fn eval_rejects_contracted_order_above_6() {
    let f = config(Vec::new(), Vars::A_B, Mode::Contracted, 7);
    let out = vec![0.0_f64; 128];
    let buf = vec![0.0_f64; 2 * (1_usize << 7)];
    assert!(matches!(
        f.validate_eval(buf.len(), out.len()),
        Err(XcError::InvalidOrder { .. })
    ));
}

#[test]
fn output_length_contracted_orders_0_to_6() {
    for order in 0_u32..=6 {
        let expected = 1_usize << order;
        assert_eq!(
            Functional::output_length(Vars::A_B, Mode::Contracted, order).unwrap(),
            expected,
            "order {} should give 1 << {} = {}",
            order,
            order,
            expected,
        );
    }
}

#[test]
fn output_length_contracted_rejects_order_above_6() {
    assert!(matches!(
        Functional::output_length(Vars::A_B, Mode::Contracted, 7),
        Err(XcError::InvalidOrder { .. })
    ));
}

#[test]
fn eval_setup_contracted_accepts_orders_0_to_6() {
    let f = config(vec![FunctionalId::XC_SLATERX], Vars::A_B, Mode::Contracted, 0);
    for order in 0_u32..=6 {
        assert!(
            f.eval_setup(Vars::A_B, Mode::Contracted, order).is_ok(),
            "Mode::Contracted at order {} must pass eval_setup",
            order
        );
    }
}

#[test]
fn eval_setup_contracted_rejects_order_above_6() {
    let f = config(vec![FunctionalId::XC_SLATERX], Vars::A_B, Mode::Contracted, 7);
    assert!(matches!(
        f.eval_setup(Vars::A_B, Mode::Contracted, 7),
        Err(XcError::InvalidOrder { .. })
    ));
}

#[test]
fn eval_rejects_order_above_4() {
    let f = config(Vec::new(), Vars::A_B, Mode::PartialDerivatives, 5);
    let input = [1.0_f64, 0.5];
    let out = vec![0.0_f64; 21];
    assert!(matches!(
        f.validate_eval(input.len(), out.len()),
        Err(XcError::InvalidOrder { .. })
    ));
}

#[test]
fn eval_rejects_input_length_mismatch() {
    let f = config(Vec::new(), Vars::A_B, Mode::PartialDerivatives, 0);
    let input = [1.0_f64];
    let out = vec![0.0_f64; 1];
    assert!(matches!(
        f.validate_eval(input.len(), out.len()),
        Err(XcError::InputLengthMismatch { expected: 2, got: 1 })
    ));
}

#[test]
fn eval_rejects_output_length_mismatch() {
    let f = config(Vec::new(), Vars::A_B, Mode::PartialDerivatives, 1);
    let input = [1.0_f64, 0.5];
    let out = vec![0.0_f64; 5];
    assert!(matches!(
        f.validate_eval(input.len(), out.len()),
        Err(XcError::OutputLengthMismatch { expected: 3, got: 5 })
    ));
}

#[test]
fn output_length_potential_nspin1() {
    assert_eq!(Functional::output_length(Vars::A, Mode::Potential, 0).unwrap(), 2);
    assert_eq!(Functional::output_length(Vars::A_2ND_TAYLOR, Mode::Potential, 0).unwrap(), 2);
}

#[test]
fn output_length_potential_nspin2() {
    assert_eq!(Functional::output_length(Vars::A_B, Mode::Potential, 0).unwrap(), 3);
    assert_eq!(Functional::output_length(Vars::N_S, Mode::Potential, 0).unwrap(), 3);
    assert_eq!(Functional::output_length(Vars::N_S_2ND_TAYLOR, Mode::Potential, 0).unwrap(), 3);
    assert_eq!(Functional::output_length(Vars::A_B_2ND_TAYLOR, Mode::Potential, 0).unwrap(), 3);
}

#[test]
fn output_length_partial_derivatives_matches_taylorlen() {
    assert_eq!(
        Functional::output_length(Vars::A_B, Mode::PartialDerivatives, 0).unwrap(),
        taylorlen(2, 0)
    );
    assert_eq!(
        Functional::output_length(Vars::A_B, Mode::PartialDerivatives, 2).unwrap(),
        taylorlen(2, 2)
    );
}

#[test]
fn eval_setup_rejects_metagga_potential() {
    let f = config(vec![FunctionalId::XC_M05X], Vars::A_B_2ND_TAYLOR, Mode::Potential, 0);
    assert!(matches!(
        f.eval_setup(Vars::A_B_2ND_TAYLOR, Mode::Potential, 0),
        Err(XcError::InvalidMode { .. })
    ));
}

#[test]
fn eval_setup_rejects_laplacian_potential() {
    let f = config(vec![FunctionalId::XC_BRX], Vars::A_B_2ND_TAYLOR, Mode::Potential, 0);
    assert!(matches!(
        f.eval_setup(Vars::A_B_2ND_TAYLOR, Mode::Potential, 0),
        Err(XcError::InvalidMode { .. })
    ));
}

#[test]
fn eval_setup_rejects_gga_non_2nd_taylor_potential() {
    let f = config(vec![FunctionalId::XC_PBEX], Vars::A_B_GAA_GAB_GBB, Mode::Potential, 0);
    let err = f.eval_setup(Vars::A_B_GAA_GAB_GBB, Mode::Potential, 0).unwrap_err();
    match err {
        XcError::InvalidVarsAndMode { vars: v, mode: m, depends: d } => {
            assert_eq!(v, Vars::A_B_GAA_GAB_GBB);
            assert_eq!(m, Mode::Potential);
            assert!(d.contains(Dependency::gradient()));
        }
        e => panic!("expected InvalidVarsAndMode, got {e:?}"),
    }
}

#[test]
fn eval_setup_emits_combined_error_when_gga_potential_with_lda_vars() {
    let f = config(vec![FunctionalId::XC_PBEX], Vars::A_B, Mode::Potential, 0);
    let err = f.eval_setup(Vars::A_B, Mode::Potential, 0).unwrap_err();
    match err {
        XcError::InvalidVarsAndMode { vars, mode, depends } => {
            assert_eq!(vars, Vars::A_B);
            assert_eq!(mode, Mode::Potential);
            assert!(depends.contains(Dependency::gradient()));
        }
        e => panic!("expected InvalidVarsAndMode, got {e:?}"),
    }
}

#[test]
fn eval_setup_accepts_gga_with_2nd_taylor_potential() {
    let f = config(vec![FunctionalId::XC_PBEX], Vars::A_B_2ND_TAYLOR, Mode::Potential, 0);
    assert!(f.eval_setup(Vars::A_B_2ND_TAYLOR, Mode::Potential, 0).is_ok());
}

#[test]
fn eval_setup_accepts_lda_with_any_vars_potential() {
    let f = config(vec![FunctionalId::XC_SLATERX], Vars::A_B, Mode::Potential, 0);
    assert!(f.eval_setup(Vars::A_B, Mode::Potential, 0).is_ok());
}

#[test]
fn eval_setup_rejects_unset_mode() {
    let f = config(vec![FunctionalId::XC_SLATERX], Vars::A_B, Mode::Unset, 0);
    assert!(matches!(f.eval_setup(Vars::A_B, Mode::Unset, 0), Err(XcError::NotConfigured)));
}

#[test]
fn dependencies_aggregates_across_weights() {
    let f = config(
        vec![FunctionalId::XC_SLATERX, FunctionalId::XC_PBEX],
        Vars::A_B_GAA_GAB_GBB,
        Mode::PartialDerivatives,
        0,
    );
    let deps = f.dependencies();
    assert!(deps.contains(Dependency::density()));
    assert!(deps.contains(Dependency::gradient()));
    assert!(!deps.contains(Dependency::kinetic()));
    assert!(!deps.contains(Dependency::laplacian()));
}
