use vstd::prelude::*;

use crate::functional_id::{spec_functional_code, FunctionalId};
use crate::names::{eq_ignore_ascii_case, same_name, spec_functional_named};

verus! {

/// Number of slots of the settings array: one weight per functional of the
/// catalogue, then the parameters.
pub const NR_SETTINGS: usize = 82;

/// A numerical parameter shared by the functionals, stored after the
/// functional weights in the settings array.
#[allow(non_camel_case_types)]
#[derive(Clone, Copy, Debug, PartialEq, Eq, Structural)]
pub enum ParameterId {
    /// Range-separation parameter.
    XC_RANGESEP_MU,
    /// Fraction of exact exchange.
    XC_EXX,
    /// Coulomb-attenuation alpha.
    XC_CAM_ALPHA,
    /// Coulomb-attenuation beta.
    XC_CAM_BETA,
}

/// Slot of the parameter `p` in the settings array.
pub open spec fn spec_parameter_slot(p: ParameterId) -> nat {
    match p {
        ParameterId::XC_RANGESEP_MU => 78,
        ParameterId::XC_EXX => 79,
        ParameterId::XC_CAM_ALPHA => 80,
        ParameterId::XC_CAM_BETA => 81,
    }
}

/// The parameter whose name is `name`, ASCII letters compared without
/// regard to case.
pub open spec fn spec_parameter_named(name: Seq<char>) -> Option<ParameterId> {
    if same_name(name, "RANGESEP_MU"@) {
        Some(ParameterId::XC_RANGESEP_MU)
    } else if same_name(name, "EXX"@) {
        Some(ParameterId::XC_EXX)
    } else if same_name(name, "CAM_ALPHA"@) {
        Some(ParameterId::XC_CAM_ALPHA)
    } else if same_name(name, "CAM_BETA"@) {
        Some(ParameterId::XC_CAM_BETA)
    } else {
        None
    }
}

/// Name of the parameter `p` in the settings.
pub open spec fn spec_parameter_name(p: ParameterId) -> Seq<char> {
    match p {
        ParameterId::XC_RANGESEP_MU => "RANGESEP_MU"@,
        ParameterId::XC_EXX => "EXX"@,
        ParameterId::XC_CAM_ALPHA => "CAM_ALPHA"@,
        ParameterId::XC_CAM_BETA => "CAM_BETA"@,
    }
}

/// Each parameter's name designates that parameter and no other; a name
/// designates a parameter only when it spells that parameter's name; and
/// the parameters have distinct slots, all after the functional weights.
pub proof fn law_parameter_names_resolve(p: ParameterId, q: ParameterId, name: Seq<char>)
    ensures
        spec_parameter_named(spec_parameter_name(p)) == Some(p),
        spec_parameter_named(name) == Some(p) ==> same_name(name, spec_parameter_name(p)),
        spec_parameter_slot(p) == spec_parameter_slot(q) ==> p == q,
        78 <= spec_parameter_slot(p) < NR_SETTINGS,
{
    reveal_strlit("RANGESEP_MU");
    reveal_strlit("EXX");
    reveal_strlit("CAM_ALPHA");
    reveal_strlit("CAM_BETA");
    let n = spec_parameter_name(p);
    assert(same_name(n, n));
    assert(!same_name("EXX"@, "RANGESEP_MU"@));
    assert(!same_name("CAM_ALPHA"@, "RANGESEP_MU"@));
    assert(!same_name("CAM_ALPHA"@, "EXX"@));
    assert(!same_name("CAM_BETA"@, "RANGESEP_MU"@));
    assert(!same_name("CAM_BETA"@, "EXX"@));
    assert(!same_name("CAM_BETA"@, "CAM_ALPHA"@));
}

impl ParameterId {
    /// Slot of this parameter in the settings array.
    pub fn slot(self) -> (r: usize)
        ensures
            r == spec_parameter_slot(self),
            r < NR_SETTINGS,
    {
        match self {
            ParameterId::XC_RANGESEP_MU => 78,
            ParameterId::XC_EXX => 79,
            ParameterId::XC_CAM_ALPHA => 80,
            ParameterId::XC_CAM_BETA => 81,
        }
    }

    /// The parameter whose name is `name`, ASCII letters compared without
    /// regard to case.
    pub fn from_name(name: &str) -> (r: Option<ParameterId>)
        ensures
            r == spec_parameter_named(name@),
    {
        if eq_ignore_ascii_case(name, "RANGESEP_MU") {
            Some(ParameterId::XC_RANGESEP_MU)
        } else if eq_ignore_ascii_case(name, "EXX") {
            Some(ParameterId::XC_EXX)
        } else if eq_ignore_ascii_case(name, "CAM_ALPHA") {
            Some(ParameterId::XC_CAM_ALPHA)
        } else if eq_ignore_ascii_case(name, "CAM_BETA") {
            Some(ParameterId::XC_CAM_BETA)
        } else {
            None
        }
    }
}

/// What a setting name designates: the weight of a functional, which a
/// setting adds to, or a parameter, which a setting overwrites.
#[derive(Clone, Copy, Debug, PartialEq, Eq, Structural)]
pub enum Setting {
    Weight(FunctionalId),
    Parameter(ParameterId),
}

/// The setting a name designates: functional names are looked up first,
/// then parameter names.
pub open spec fn spec_setting_named(name: Seq<char>) -> Option<Setting> {
    match spec_functional_named(name) {
        Some(id) => Some(Setting::Weight(id)),
        None => match spec_parameter_named(name) {
            Some(p) => Some(Setting::Parameter(p)),
            None => None,
        },
    }
}

/// Slot of the setting `s` in the settings array: a functional's weight at
/// its catalogue position, a parameter after all the weights.
pub open spec fn spec_setting_slot(s: Setting) -> nat {
    match s {
        Setting::Weight(id) => spec_functional_code(id) as nat,
        Setting::Parameter(p) => spec_parameter_slot(p),
    }
}

impl Setting {
    /// Slot of this setting in the settings array.
    pub fn slot(self) -> (r: usize)
        ensures
            r == spec_setting_slot(self),
            r < NR_SETTINGS,
    {
        match self {
            Setting::Weight(id) => id.code() as usize,
            Setting::Parameter(p) => p.slot(),
        }
    }

    /// Whether setting a value adds it to the slot (a functional weight)
    /// rather than overwriting the slot (a parameter).
    pub fn is_additive(self) -> (r: bool)
        ensures
            r == (self is Weight),
    {
        match self {
            Setting::Weight(_) => true,
            Setting::Parameter(_) => false,
        }
    }
}

/// The setting `name` designates, if any: a functional first, then a
/// parameter. Names that designate neither may still be aliases.
pub fn lookup_setting(name: &str) -> (r: Option<Setting>)
    ensures
        r == spec_setting_named(name@),
{
    match FunctionalId::from_name(name) {
        Some(id) => Some(Setting::Weight(id)),
        None => match ParameterId::from_name(name) {
            Some(p) => Some(Setting::Parameter(p)),
            None => None,
        },
    }
}

} // verus!
