use xcfun_eval::functional_id::FunctionalId;
use xcfun_eval::names::eq_ignore_ascii_case;
use xcfun_eval::settings::{lookup_setting, ParameterId, Setting, NR_SETTINGS};

#[test]
fn names_compare_ascii_letters_without_case() {
    assert!(eq_ignore_ascii_case("aBc_1", "AbC_1"));
    assert!(!eq_ignore_ascii_case("abc", "abd"));
    assert!(!eq_ignore_ascii_case("ab", "abc"));
    assert!(!eq_ignore_ascii_case("é", "É"));
    assert!(eq_ignore_ascii_case("", ""));
}

#[test]
fn functional_names_resolve_in_any_case() {
    assert_eq!(FunctionalId::from_name("slaterx"), Some(FunctionalId::XC_SLATERX));
    assert_eq!(FunctionalId::from_name("PBEX"), Some(FunctionalId::XC_PBEX));
    assert_eq!(FunctionalId::from_name("b97_1x"), Some(FunctionalId::XC_B97_1X));
    assert_eq!(FunctionalId::from_name("Pw91C"), Some(FunctionalId::XC_PW91C));
    assert_eq!(FunctionalId::from_name("XC_PBEX"), None);
    assert_eq!(FunctionalId::from_name("pbe"), None);
    assert_eq!(FunctionalId::from_name(""), None);
}

#[test]
fn every_functional_name_resolves_to_its_functional() {
    for code in 0..78u32 {
        let id = FunctionalId::from_code(code).unwrap();
        assert_eq!(FunctionalId::from_name(id.name()), Some(id));
        assert_eq!(format!("XC_{}", id.name()), format!("{:?}", id));
    }
}

#[test]
fn parameter_names_and_slots() {
    assert_eq!(ParameterId::from_name("rangesep_mu"), Some(ParameterId::XC_RANGESEP_MU));
    assert_eq!(ParameterId::from_name("Cam_Alpha"), Some(ParameterId::XC_CAM_ALPHA));
    assert_eq!(ParameterId::from_name("CAM"), None);
    assert_eq!(ParameterId::XC_RANGESEP_MU.slot(), 78);
    assert_eq!(ParameterId::XC_EXX.slot(), 79);
    assert_eq!(ParameterId::XC_CAM_ALPHA.slot(), 80);
    assert_eq!(ParameterId::XC_CAM_BETA.slot(), 81);
    assert_eq!(NR_SETTINGS, 82);
}

#[test]
fn settings_resolve_functionals_then_parameters() {
    let s = lookup_setting("optx").unwrap();
    assert_eq!(s, Setting::Weight(FunctionalId::XC_OPTX));
    assert_eq!(s.slot(), 17);
    assert!(s.is_additive());
    let s = lookup_setting("Exx").unwrap();
    assert_eq!(s, Setting::Parameter(ParameterId::XC_EXX));
    assert_eq!(s.slot(), 79);
    assert!(!s.is_additive());
    assert_eq!(lookup_setting("blyp"), None);
}
