use vstd::prelude::*;
use vstd::string::*;

use crate::functional_id::{spec_functional_code, FunctionalId};

verus! {

/// Code of the character `c`, with the ASCII lower-case letters raised to
/// upper case.
pub open spec fn folded(c: char) -> u32 {
    if 97 <= (c as u32) <= 122 {
        ((c as u32) - 32) as u32
    } else {
        c as u32
    }
}

/// `a` and `b` spell the same name when ASCII letters are compared without
/// regard to case.
pub open spec fn same_name(a: Seq<char>, b: Seq<char>) -> bool {
    &&& a.len() == b.len()
    &&& forall|i: int| 0 <= i < a.len() ==> #[trigger] folded(a[i]) == folded(b[i])
}

fn fold(c: char) -> (r: u32)
    ensures
        r == folded(c),
{
    let x = c as u32;
    if 97 <= x && x <= 122 {
        x - 32
    } else {
        x
    }
}

/// Whether `a` and `b` are the same name up to the case of ASCII letters.
pub fn eq_ignore_ascii_case(a: &str, b: &str) -> (r: bool)
    ensures
        r == same_name(a@, b@),
{
    let n = a.unicode_len();
    if n != b.unicode_len() {
        return false;
    }
    let mut i: usize = 0;
    while i < n
        invariant
            n == a@.len(),
            n == b@.len(),
            i <= n,
            forall|k: int| 0 <= k < i ==> #[trigger] folded(a@[k]) == folded(b@[k]),
        decreases n - i,
    {
        if fold(a.get_char(i)) != fold(b.get_char(i)) {
            return false;
        }
        i = i + 1;
    }
    true
}

/// Name of a functional in the settings: its identifier without the `XC_`
/// prefix.
pub open spec fn spec_functional_name(id: FunctionalId) -> Seq<char> {
    match id {
        FunctionalId::XC_SLATERX => "SLATERX"@,
        FunctionalId::XC_PW86X => "PW86X"@,
        FunctionalId::XC_VWN3C => "VWN3C"@,
        FunctionalId::XC_VWN5C => "VWN5C"@,
        FunctionalId::XC_PBEC => "PBEC"@,
        FunctionalId::XC_PBEX => "PBEX"@,
        FunctionalId::XC_BECKEX => "BECKEX"@,
        FunctionalId::XC_BECKECORRX => "BECKECORRX"@,
        FunctionalId::XC_BECKESRX => "BECKESRX"@,
        FunctionalId::XC_BECKECAMX => "BECKECAMX"@,
        FunctionalId::XC_BRX => "BRX"@,
        FunctionalId::XC_BRC => "BRC"@,
        FunctionalId::XC_BRXC => "BRXC"@,
        FunctionalId::XC_LDAERFX => "LDAERFX"@,
        FunctionalId::XC_LDAERFC => "LDAERFC"@,
        FunctionalId::XC_LDAERFC_JT => "LDAERFC_JT"@,
        FunctionalId::XC_LYPC => "LYPC"@,
        FunctionalId::XC_OPTX => "OPTX"@,
        FunctionalId::XC_OPTXCORR => "OPTXCORR"@,
        FunctionalId::XC_REVPBEX => "REVPBEX"@,
        FunctionalId::XC_RPBEX => "RPBEX"@,
        FunctionalId::XC_SPBEC => "SPBEC"@,
        FunctionalId::XC_VWN_PBEC => "VWN_PBEC"@,
        FunctionalId::XC_KTX => "KTX"@,
        FunctionalId::XC_TFK => "TFK"@,
        FunctionalId::XC_TW => "TW"@,
        FunctionalId::XC_PW91X => "PW91X"@,
        FunctionalId::XC_PW91K => "PW91K"@,
        FunctionalId::XC_PW92C => "PW92C"@,
        FunctionalId::XC_M05X => "M05X"@,
        FunctionalId::XC_M05X2X => "M05X2X"@,
        FunctionalId::XC_M06X => "M06X"@,
        FunctionalId::XC_M06X2X => "M06X2X"@,
        FunctionalId::XC_M06LX => "M06LX"@,
        FunctionalId::XC_M06HFX => "M06HFX"@,
        FunctionalId::XC_M05X2C => "M05X2C"@,
        FunctionalId::XC_M05C => "M05C"@,
        FunctionalId::XC_M06C => "M06C"@,
        FunctionalId::XC_M06HFC => "M06HFC"@,
        FunctionalId::XC_M06LC => "M06LC"@,
        FunctionalId::XC_M06X2C => "M06X2C"@,
        FunctionalId::XC_TPSSC => "TPSSC"@,
        FunctionalId::XC_TPSSX => "TPSSX"@,
        FunctionalId::XC_REVTPSSC => "REVTPSSC"@,
        FunctionalId::XC_REVTPSSX => "REVTPSSX"@,
        FunctionalId::XC_SCANC => "SCANC"@,
        FunctionalId::XC_SCANX => "SCANX"@,
        FunctionalId::XC_RSCANC => "RSCANC"@,
        FunctionalId::XC_RSCANX => "RSCANX"@,
        FunctionalId::XC_RPPSCANC => "RPPSCANC"@,
        FunctionalId::XC_RPPSCANX => "RPPSCANX"@,
        FunctionalId::XC_R2SCANC => "R2SCANC"@,
        FunctionalId::XC_R2SCANX => "R2SCANX"@,
        FunctionalId::XC_R4SCANC => "R4SCANC"@,
        FunctionalId::XC_R4SCANX => "R4SCANX"@,
        FunctionalId::XC_PZ81C => "PZ81C"@,
        FunctionalId::XC_P86C => "P86C"@,
        FunctionalId::XC_P86CORRC => "P86CORRC"@,
        FunctionalId::XC_BTK => "BTK"@,
        FunctionalId::XC_VWK => "VWK"@,
        FunctionalId::XC_B97X => "B97X"@,
        FunctionalId::XC_B97C => "B97C"@,
        FunctionalId::XC_B97_1X => "B97_1X"@,
        FunctionalId::XC_B97_1C => "B97_1C"@,
        FunctionalId::XC_B97_2X => "B97_2X"@,
        FunctionalId::XC_B97_2C => "B97_2C"@,
        FunctionalId::XC_CSC => "CSC"@,
        FunctionalId::XC_APBEC => "APBEC"@,
        FunctionalId::XC_APBEX => "APBEX"@,
        FunctionalId::XC_ZVPBESOLC => "ZVPBESOLC"@,
        FunctionalId::XC_BLOCX => "BLOCX"@,
        FunctionalId::XC_PBEINTC => "PBEINTC"@,
        FunctionalId::XC_PBEINTX => "PBEINTX"@,
        FunctionalId::XC_PBELOCC => "PBELOCC"@,
        FunctionalId::XC_PBESOLX => "PBESOLX"@,
        FunctionalId::XC_TPSSLOCC => "TPSSLOCC"@,
        FunctionalId::XC_ZVPBEINTC => "ZVPBEINTC"@,
        FunctionalId::XC_PW91C => "PW91C"@,
    }
}

impl FunctionalId {
    /// Name of this functional in the settings.
    pub fn name(self) -> (r: &'static str)
        ensures
            r@ == spec_functional_name(self),
    {
        match self {
            FunctionalId::XC_SLATERX => "SLATERX",
            FunctionalId::XC_PW86X => "PW86X",
            FunctionalId::XC_VWN3C => "VWN3C",
            FunctionalId::XC_VWN5C => "VWN5C",
            FunctionalId::XC_PBEC => "PBEC",
            FunctionalId::XC_PBEX => "PBEX",
            FunctionalId::XC_BECKEX => "BECKEX",
            FunctionalId::XC_BECKECORRX => "BECKECORRX",
            FunctionalId::XC_BECKESRX => "BECKESRX",
            FunctionalId::XC_BECKECAMX => "BECKECAMX",
            FunctionalId::XC_BRX => "BRX",
            FunctionalId::XC_BRC => "BRC",
            FunctionalId::XC_BRXC => "BRXC",
            FunctionalId::XC_LDAERFX => "LDAERFX",
            FunctionalId::XC_LDAERFC => "LDAERFC",
            FunctionalId::XC_LDAERFC_JT => "LDAERFC_JT",
            FunctionalId::XC_LYPC => "LYPC",
            FunctionalId::XC_OPTX => "OPTX",
            FunctionalId::XC_OPTXCORR => "OPTXCORR",
            FunctionalId::XC_REVPBEX => "REVPBEX",
            FunctionalId::XC_RPBEX => "RPBEX",
            FunctionalId::XC_SPBEC => "SPBEC",
            FunctionalId::XC_VWN_PBEC => "VWN_PBEC",
            FunctionalId::XC_KTX => "KTX",
            FunctionalId::XC_TFK => "TFK",
            FunctionalId::XC_TW => "TW",
            FunctionalId::XC_PW91X => "PW91X",
            FunctionalId::XC_PW91K => "PW91K",
            FunctionalId::XC_PW92C => "PW92C",
            FunctionalId::XC_M05X => "M05X",
            FunctionalId::XC_M05X2X => "M05X2X",
            FunctionalId::XC_M06X => "M06X",
            FunctionalId::XC_M06X2X => "M06X2X",
            FunctionalId::XC_M06LX => "M06LX",
            FunctionalId::XC_M06HFX => "M06HFX",
            FunctionalId::XC_M05X2C => "M05X2C",
            FunctionalId::XC_M05C => "M05C",
            FunctionalId::XC_M06C => "M06C",
            FunctionalId::XC_M06HFC => "M06HFC",
            FunctionalId::XC_M06LC => "M06LC",
            FunctionalId::XC_M06X2C => "M06X2C",
            FunctionalId::XC_TPSSC => "TPSSC",
            FunctionalId::XC_TPSSX => "TPSSX",
            FunctionalId::XC_REVTPSSC => "REVTPSSC",
            FunctionalId::XC_REVTPSSX => "REVTPSSX",
            FunctionalId::XC_SCANC => "SCANC",
            FunctionalId::XC_SCANX => "SCANX",
            FunctionalId::XC_RSCANC => "RSCANC",
            FunctionalId::XC_RSCANX => "RSCANX",
            FunctionalId::XC_RPPSCANC => "RPPSCANC",
            FunctionalId::XC_RPPSCANX => "RPPSCANX",
            FunctionalId::XC_R2SCANC => "R2SCANC",
            FunctionalId::XC_R2SCANX => "R2SCANX",
            FunctionalId::XC_R4SCANC => "R4SCANC",
            FunctionalId::XC_R4SCANX => "R4SCANX",
            FunctionalId::XC_PZ81C => "PZ81C",
            FunctionalId::XC_P86C => "P86C",
            FunctionalId::XC_P86CORRC => "P86CORRC",
            FunctionalId::XC_BTK => "BTK",
            FunctionalId::XC_VWK => "VWK",
            FunctionalId::XC_B97X => "B97X",
            FunctionalId::XC_B97C => "B97C",
            FunctionalId::XC_B97_1X => "B97_1X",
            FunctionalId::XC_B97_1C => "B97_1C",
            FunctionalId::XC_B97_2X => "B97_2X",
            FunctionalId::XC_B97_2C => "B97_2C",
            FunctionalId::XC_CSC => "CSC",
            FunctionalId::XC_APBEC => "APBEC",
            FunctionalId::XC_APBEX => "APBEX",
            FunctionalId::XC_ZVPBESOLC => "ZVPBESOLC",
            FunctionalId::XC_BLOCX => "BLOCX",
            FunctionalId::XC_PBEINTC => "PBEINTC",
            FunctionalId::XC_PBEINTX => "PBEINTX",
            FunctionalId::XC_PBELOCC => "PBELOCC",
            FunctionalId::XC_PBESOLX => "PBESOLX",
            FunctionalId::XC_TPSSLOCC => "TPSSLOCC",
            FunctionalId::XC_ZVPBEINTC => "ZVPBEINTC",
            FunctionalId::XC_PW91C => "PW91C",
        }
    }
}

/// Different functionals have different catalogue positions, all below 78.
pub proof fn lemma_functional_code_injective(a: FunctionalId, b: FunctionalId)
    ensures
        spec_functional_code(a) < 78,
        spec_functional_code(a) == spec_functional_code(b) ==> a == b,
{
}

/// The first functional in catalogue order whose name is `name`, if any.
pub open spec fn spec_functional_named(name: Seq<char>) -> Option<FunctionalId> {
    if exists|id: FunctionalId| #[trigger] same_name(name, spec_functional_name(id)) {
        Some(
            choose|id: FunctionalId|
                #[trigger] same_name(name, spec_functional_name(id)) && forall|o: FunctionalId|
                    spec_functional_code(o) < spec_functional_code(id) ==> !same_name(
                        name,
                        #[trigger] spec_functional_name(o),
                    ),
        )
    } else {
        None
    }
}

impl FunctionalId {
    /// The functional whose name is `name`, ASCII letters compared without
    /// regard to case.
    pub fn from_name(name: &str) -> (r: Option<FunctionalId>)
        ensures
            r == spec_functional_named(name@),
    {
        let mut code: u32 = 0;
        while code < 78
            invariant
                code <= 78,
                forall|o: FunctionalId|
                    spec_functional_code(o) < code ==> !same_name(
                        name@,
                        #[trigger] spec_functional_name(o),
                    ),
            decreases 78 - code,
        {
            if let Some(id) = FunctionalId::from_code(code) {
                if eq_ignore_ascii_case(name, id.name()) {
                    proof {
                        lemma_first_named(name@, id);
                    }
                    return Some(id);
                }
                proof {
                    assert forall|o: FunctionalId| spec_functional_code(o) < code + 1 implies !same_name(
                        name@,
                        #[trigger] spec_functional_name(o),
                    ) by {
                        lemma_functional_code_injective(o, id);
                    }
                }
            }
            code = code + 1;
        }
        proof {
            assert forall|o: FunctionalId| !#[trigger] same_name(name@, spec_functional_name(o)) by {
                lemma_functional_code_injective(o, o);
            }
        }
        None
    }
}

/// A named functional with no earlier named functional is the one
/// `spec_functional_named` picks.
pub proof fn lemma_first_named(name: Seq<char>, id: FunctionalId)
    requires
        same_name(name, spec_functional_name(id)),
        forall|o: FunctionalId|
            spec_functional_code(o) < spec_functional_code(id) ==> !same_name(
                name,
                #[trigger] spec_functional_name(o),
            ),
    ensures
        spec_functional_named(name) == Some(id),
{
    let c = choose|c: FunctionalId|
        #[trigger] same_name(name, spec_functional_name(c)) && forall|o: FunctionalId|
            spec_functional_code(o) < spec_functional_code(c) ==> !same_name(
                name,
                #[trigger] spec_functional_name(o),
            );
    assert(same_name(name, spec_functional_name(id)));
    lemma_functional_code_injective(c, id);
    lemma_functional_code_injective(id, c);
    if spec_functional_code(c) < spec_functional_code(id) {
        assert(!same_name(name, spec_functional_name(c)));
    }
    if spec_functional_code(id) < spec_functional_code(c) {
        assert(!same_name(name, spec_functional_name(id)));
    }
}

} // verus!
