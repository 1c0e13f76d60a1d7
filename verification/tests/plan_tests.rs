use xcfun_eval::dependency::Dependency;
use xcfun_eval::error::XcError;
use xcfun_eval::functional::Functional;
use xcfun_eval::functional_id::FunctionalId;
use xcfun_eval::launch_plan::{
    contracted_plan, density_potential_plan, derivative_launch, eval_plan,
    gradient_potential_plan, partial_derivative_plan, potential_plan, CopyIn, Launch, ReadOut,
};
use xcfun_eval::taylor::taylorlen;
use xcfun_eval::vars::{Mode, Vars};

fn config(functionals: Vec<FunctionalId>, vars: Vars, mode: Mode, order: u32) -> Functional {
    Functional { functionals, vars, mode, order, settings_gen: 0 }
}

fn add(to: usize, coeff: usize) -> ReadOut {
    ReadOut { to, coeff, subtract: false }
}

fn constant(n: usize, size: usize) -> Vec<CopyIn> {
    (0..n).map(|l| CopyIn { to: l * size, from: l }).collect()
}

fn check(l: &Launch, order: u32, copies: Vec<CopyIn>, seeds: Vec<usize>, reads: Vec<ReadOut>) {
    assert_eq!(l.order, order);
    assert_eq!(l.copies, copies);
    assert_eq!(l.seeds, seeds);
    assert_eq!(l.reads, reads);
}

#[test]
fn partial_plan_order_0_is_one_plain_launch() {
    let plan = partial_derivative_plan(Vars::A_B, 0).unwrap();
    assert_eq!(plan.len(), 1);
    check(&plan[0], 0, constant(2, 1), vec![], vec![add(0, 0)]);
}

#[test]
fn partial_plan_order_1_two_values_seeds_both_directions() {
    let plan = partial_derivative_plan(Vars::A_B, 1).unwrap();
    assert_eq!(plan.len(), 1);
    check(&plan[0], 2, constant(2, 4), vec![1, 6], vec![add(0, 0), add(1, 1), add(2, 2)]);
}

#[test]
fn partial_plan_order_1_five_values_one_launch_each() {
    let plan = partial_derivative_plan(Vars::A_B_GAA_GAB_GBB, 1).unwrap();
    assert_eq!(plan.len(), 5);
    for i in 0..5 {
        let mut reads = vec![add(i + 1, 1)];
        if i == 4 {
            reads.push(add(0, 0));
        }
        check(&plan[i], 2, constant(5, 4), vec![i * 4 + 1], reads);
    }
}

#[test]
fn partial_plan_order_2_two_values() {
    let plan = partial_derivative_plan(Vars::A_B, 2).unwrap();
    assert_eq!(plan.len(), 3);
    check(&plan[0], 2, constant(2, 4), vec![1, 2], vec![add(3, 3)]);
    check(&plan[1], 2, constant(2, 4), vec![1, 6], vec![add(4, 3), add(1, 1)]);
    check(&plan[2], 2, constant(2, 4), vec![5, 6], vec![add(5, 3), add(2, 1), add(0, 0)]);
}

#[test]
fn partial_plan_order_3_appends_third_degree_launches() {
    let plan = partial_derivative_plan(Vars::A_B, 3).unwrap();
    assert_eq!(plan.len(), 7);
    check(&plan[2], 2, constant(2, 4), vec![5, 6], vec![add(5, 3), add(2, 1), add(0, 0)]);
    check(&plan[3], 3, constant(2, 8), vec![1, 2, 4], vec![add(6, 7)]);
    check(&plan[4], 3, constant(2, 8), vec![1, 2, 12], vec![add(7, 7)]);
    check(&plan[5], 3, constant(2, 8), vec![1, 10, 12], vec![add(8, 7)]);
    check(&plan[6], 3, constant(2, 8), vec![9, 10, 12], vec![add(9, 7)]);
}

#[test]
fn partial_plan_order_4_fills_every_slot_once() {
    for vars in [Vars::A, Vars::A_B, Vars::A_B_GAA_GAB_GBB, Vars::A_B_2ND_TAYLOR] {
        let n = Functional::input_length(vars);
        let plan = partial_derivative_plan(vars, 4).unwrap();
        let len = taylorlen(n, 4);
        let mut hits = vec![0usize; len];
        for l in &plan {
            for r in &l.reads {
                assert!(r.coeff < (1usize << l.order));
                hits[r.to] += 1;
            }
        }
        assert!(hits.iter().all(|&h| h == 1));
    }
}

#[test]
fn partial_plan_order_4_last_launch() {
    let plan = partial_derivative_plan(Vars::A_B, 4).unwrap();
    // 3 + 4 + 5 launches; the last seeds all four directions on the second value.
    assert_eq!(plan.len(), 12);
    check(&plan[11], 4, constant(2, 16), vec![17, 18, 20, 24], vec![add(14, 15)]);
}

#[test]
fn partial_plan_refuses_order_5() {
    let r = partial_derivative_plan(Vars::A_B, 5);
    assert!(matches!(
        r,
        Err(XcError::InvalidOrder { order: 5, mode: Mode::PartialDerivatives, n_vars: 2 })
    ));
}

#[test]
fn density_potential_plan_two_spins() {
    let plan = density_potential_plan(Vars::A_B).unwrap();
    assert_eq!(plan.len(), 2);
    check(&plan[0], 1, constant(2, 2), vec![1], vec![add(1, 1)]);
    check(&plan[1], 1, constant(2, 2), vec![3], vec![add(2, 1), add(0, 0)]);
    let plan = density_potential_plan(Vars::A_B_2ND_TAYLOR).unwrap();
    assert_eq!(plan[1].seeds, vec![21]);
}

#[test]
fn density_potential_plan_refuses_gradient_layouts() {
    let r = density_potential_plan(Vars::A_B_GAA_GAB_GBB);
    assert!(matches!(
        r,
        Err(XcError::InvalidVars { vars: Vars::A_B_GAA_GAB_GBB, required })
            if required == Dependency::density()
    ));
}

#[test]
fn gradient_potential_plan_single_spin() {
    let plan = gradient_potential_plan(Vars::A_2ND_TAYLOR).unwrap();
    assert_eq!(plan.len(), 3);
    let copies_y = vec![
        CopyIn { to: 0, from: 0 },
        CopyIn { to: 1, from: 2 },
        CopyIn { to: 4, from: 1 },
        CopyIn { to: 5, from: 5 },
        CopyIn { to: 8, from: 2 },
        CopyIn { to: 9, from: 7 },
        CopyIn { to: 12, from: 3 },
        CopyIn { to: 13, from: 8 },
    ];
    check(&plan[1], 2, copies_y, vec![10], vec![ReadOut { to: 1, coeff: 3, subtract: true }]);
    assert_eq!(plan[2].copies[7], CopyIn { to: 13, from: 9 });
}

#[test]
fn gradient_potential_plan_refuses_plain_density() {
    let r = gradient_potential_plan(Vars::A_B);
    assert!(matches!(
        r,
        Err(XcError::InvalidVars { vars: Vars::A_B, required }) if required == Dependency::gradient()
    ));
}

#[test]
fn potential_plan_gga_two_spins() {
    let f = config(vec![FunctionalId::XC_PBEX], Vars::A_B_2ND_TAYLOR, Mode::Potential, 0);
    let plan = potential_plan(&f).unwrap();
    assert_eq!(plan.len(), 8);
    assert_eq!(plan[0].seeds, vec![1]);
    assert_eq!(plan[1].seeds, vec![21]);
    assert_eq!(plan[2].copies.len(), 16);
    assert_eq!(plan[2].copies[8], CopyIn { to: 40, from: 10 });
    assert_eq!(plan[2].copies[9], CopyIn { to: 41, from: 11 });
    assert_eq!(plan[2].seeds, vec![6]);
    assert_eq!(plan[7].seeds, vec![54]);
    assert_eq!(plan[7].reads, vec![ReadOut { to: 2, coeff: 3, subtract: true }]);
}

#[test]
fn potential_plan_lda_has_no_gradient_pass() {
    let f = config(vec![FunctionalId::XC_SLATERX], Vars::A_B_2ND_TAYLOR, Mode::Potential, 0);
    assert_eq!(potential_plan(&f).unwrap().len(), 2);
}

#[test]
fn potential_plan_refuses_kinetic_functionals() {
    let f = config(vec![FunctionalId::XC_TPSSX], Vars::A_B_2ND_TAYLOR, Mode::Potential, 0);
    let r = potential_plan(&f);
    assert!(matches!(
        r,
        Err(XcError::InvalidMode { mode: Mode::Potential, depends }) if depends.bits == 11
    ));
}

#[test]
fn potential_plan_refuses_gga_without_hessian() {
    let f = config(vec![FunctionalId::XC_PBEX], Vars::A_B, Mode::Potential, 0);
    let r = potential_plan(&f);
    assert!(matches!(
        r,
        Err(XcError::InvalidVars { vars: Vars::A_B, required }) if required == Dependency::gradient()
    ));
}

#[test]
fn contracted_plan_copies_the_whole_block() {
    let f = config(vec![FunctionalId::XC_SLATERX], Vars::A_B, Mode::Contracted, 2);
    let l = contracted_plan(&f, 8, 4).unwrap();
    let copies: Vec<CopyIn> = (0..8).map(|k| CopyIn { to: k, from: k }).collect();
    let reads: Vec<ReadOut> = (0..4).map(|k| add(k, k)).collect();
    check(&l, 2, copies, vec![], reads);
}

#[test]
fn contracted_plan_errors() {
    let f = config(vec![], Vars::A_B, Mode::Contracted, 7);
    assert!(matches!(
        contracted_plan(&f, 0, 0),
        Err(XcError::InvalidOrder { order: 7, mode: Mode::Contracted, n_vars: 2 })
    ));
    let f = config(vec![], Vars::A_B, Mode::Contracted, 2);
    assert!(matches!(
        contracted_plan(&f, 7, 4),
        Err(XcError::InputLengthMismatch { expected: 8, got: 7 })
    ));
    assert!(matches!(
        contracted_plan(&f, 8, 3),
        Err(XcError::OutputLengthMismatch { expected: 4, got: 3 })
    ));
}

#[test]
fn derivative_launch_seeds_each_direction() {
    let l = derivative_launch(3, 4, &vec![0, 1, 2, 2]);
    check(&l, 4, constant(3, 16), vec![1, 18, 36, 40], vec![]);
    let l = derivative_launch(2, 3, &vec![1, 0, 1]);
    check(&l, 3, constant(2, 8), vec![9, 2, 12], vec![]);
}

#[test]
fn eval_plan_follows_the_mode() {
    let f = config(vec![FunctionalId::XC_SLATERX], Vars::A_B, Mode::PartialDerivatives, 2);
    assert_eq!(eval_plan(&f, 2, 6).unwrap().len(), 3);
    let f = config(vec![FunctionalId::XC_SLATERX], Vars::A_B, Mode::Potential, 0);
    assert_eq!(eval_plan(&f, 2, 3).unwrap().len(), 2);
    let f = config(vec![FunctionalId::XC_SLATERX], Vars::A_B, Mode::Contracted, 3);
    let plan = eval_plan(&f, 16, 8).unwrap();
    assert_eq!(plan.len(), 1);
    assert_eq!(plan[0].copies.len(), 16);
}

#[test]
fn eval_plan_reports_validation_errors() {
    let f = config(vec![FunctionalId::XC_SLATERX], Vars::A_B, Mode::PartialDerivatives, 2);
    assert!(matches!(
        eval_plan(&f, 2, 5),
        Err(XcError::OutputLengthMismatch { expected: 6, got: 5 })
    ));
    let f = config(vec![], Vars::A_B, Mode::Unset, 0);
    assert!(matches!(eval_plan(&f, 2, 1), Err(XcError::NotConfigured)));
    let f = config(vec![FunctionalId::XC_M06X], Vars::A_B, Mode::PartialDerivatives, 0);
    assert!(matches!(eval_plan(&f, 2, 1), Err(XcError::NotConfigured)));
}

#[test]
fn potential_plan_writes_energy_and_each_potential_once() {
    for (ids, vars, npot) in [
        (vec![FunctionalId::XC_SLATERX], Vars::A_B, 2usize),
        (vec![FunctionalId::XC_SLATERX], Vars::A, 1),
        (vec![FunctionalId::XC_PBEX], Vars::A_2ND_TAYLOR, 1),
        (vec![FunctionalId::XC_PBEX, FunctionalId::XC_SLATERX], Vars::A_B_2ND_TAYLOR, 2),
    ] {
        let f = config(ids, vars, Mode::Potential, 0);
        let plan = potential_plan(&f).unwrap();
        let mut added = vec![0usize; npot + 1];
        for l in &plan {
            for r in &l.reads {
                assert!(r.to <= npot);
                if r.subtract {
                    assert!(r.to >= 1);
                } else {
                    added[r.to] += 1;
                }
            }
        }
        assert!(added.iter().all(|&a| a == 1));
    }
}
