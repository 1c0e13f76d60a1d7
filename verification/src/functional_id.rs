use vstd::prelude::*;

verus! {

/// Identifier of one exchange-correlation functional of the catalogue, in
/// catalogue order (its code is its position, see `spec_functional_code`).
#[allow(non_camel_case_types)]
#[derive(Clone, Copy, Debug, PartialEq, Eq, Structural)]
pub enum FunctionalId {
    XC_SLATERX,
    XC_PW86X,
    XC_VWN3C,
    XC_VWN5C,
    XC_PBEC,
    XC_PBEX,
    XC_BECKEX,
    XC_BECKECORRX,
    XC_BECKESRX,
    XC_BECKECAMX,
    XC_BRX,
    XC_BRC,
    XC_BRXC,
    XC_LDAERFX,
    XC_LDAERFC,
    XC_LDAERFC_JT,
    XC_LYPC,
    XC_OPTX,
    XC_OPTXCORR,
    XC_REVPBEX,
    XC_RPBEX,
    XC_SPBEC,
    XC_VWN_PBEC,
    XC_KTX,
    XC_TFK,
    XC_TW,
    XC_PW91X,
    XC_PW91K,
    XC_PW92C,
    XC_M05X,
    XC_M05X2X,
    XC_M06X,
    XC_M06X2X,
    XC_M06LX,
    XC_M06HFX,
    XC_M05X2C,
    XC_M05C,
    XC_M06C,
    XC_M06HFC,
    XC_M06LC,
    XC_M06X2C,
    XC_TPSSC,
    XC_TPSSX,
    XC_REVTPSSC,
    XC_REVTPSSX,
    XC_SCANC,
    XC_SCANX,
    XC_RSCANC,
    XC_RSCANX,
    XC_RPPSCANC,
    XC_RPPSCANX,
    XC_R2SCANC,
    XC_R2SCANX,
    XC_R4SCANC,
    XC_R4SCANX,
    XC_PZ81C,
    XC_P86C,
    XC_P86CORRC,
    XC_BTK,
    XC_VWK,
    XC_B97X,
    XC_B97C,
    XC_B97_1X,
    XC_B97_1C,
    XC_B97_2X,
    XC_B97_2C,
    XC_CSC,
    XC_APBEC,
    XC_APBEX,
    XC_ZVPBESOLC,
    XC_BLOCX,
    XC_PBEINTC,
    XC_PBEINTX,
    XC_PBELOCC,
    XC_PBESOLX,
    XC_TPSSLOCC,
    XC_ZVPBEINTC,
    XC_PW91C,
}

/// Position of `id` in the catalogue.
pub open spec fn spec_functional_code(id: FunctionalId) -> u32 {
    match id {
        FunctionalId::XC_SLATERX => 0,
        FunctionalId::XC_PW86X => 1,
        FunctionalId::XC_VWN3C => 2,
        FunctionalId::XC_VWN5C => 3,
        FunctionalId::XC_PBEC => 4,
        FunctionalId::XC_PBEX => 5,
        FunctionalId::XC_BECKEX => 6,
        FunctionalId::XC_BECKECORRX => 7,
        FunctionalId::XC_BECKESRX => 8,
        FunctionalId::XC_BECKECAMX => 9,
        FunctionalId::XC_BRX => 10,
        FunctionalId::XC_BRC => 11,
        FunctionalId::XC_BRXC => 12,
        FunctionalId::XC_LDAERFX => 13,
        FunctionalId::XC_LDAERFC => 14,
        FunctionalId::XC_LDAERFC_JT => 15,
        FunctionalId::XC_LYPC => 16,
        FunctionalId::XC_OPTX => 17,
        FunctionalId::XC_OPTXCORR => 18,
        FunctionalId::XC_REVPBEX => 19,
        FunctionalId::XC_RPBEX => 20,
        FunctionalId::XC_SPBEC => 21,
        FunctionalId::XC_VWN_PBEC => 22,
        FunctionalId::XC_KTX => 23,
        FunctionalId::XC_TFK => 24,
        FunctionalId::XC_TW => 25,
        FunctionalId::XC_PW91X => 26,
        FunctionalId::XC_PW91K => 27,
        FunctionalId::XC_PW92C => 28,
        FunctionalId::XC_M05X => 29,
        FunctionalId::XC_M05X2X => 30,
        FunctionalId::XC_M06X => 31,
        FunctionalId::XC_M06X2X => 32,
        FunctionalId::XC_M06LX => 33,
        FunctionalId::XC_M06HFX => 34,
        FunctionalId::XC_M05X2C => 35,
        FunctionalId::XC_M05C => 36,
        FunctionalId::XC_M06C => 37,
        FunctionalId::XC_M06HFC => 38,
        FunctionalId::XC_M06LC => 39,
        FunctionalId::XC_M06X2C => 40,
        FunctionalId::XC_TPSSC => 41,
        FunctionalId::XC_TPSSX => 42,
        FunctionalId::XC_REVTPSSC => 43,
        FunctionalId::XC_REVTPSSX => 44,
        FunctionalId::XC_SCANC => 45,
        FunctionalId::XC_SCANX => 46,
        FunctionalId::XC_RSCANC => 47,
        FunctionalId::XC_RSCANX => 48,
        FunctionalId::XC_RPPSCANC => 49,
        FunctionalId::XC_RPPSCANX => 50,
        FunctionalId::XC_R2SCANC => 51,
        FunctionalId::XC_R2SCANX => 52,
        FunctionalId::XC_R4SCANC => 53,
        FunctionalId::XC_R4SCANX => 54,
        FunctionalId::XC_PZ81C => 55,
        FunctionalId::XC_P86C => 56,
        FunctionalId::XC_P86CORRC => 57,
        FunctionalId::XC_BTK => 58,
        FunctionalId::XC_VWK => 59,
        FunctionalId::XC_B97X => 60,
        FunctionalId::XC_B97C => 61,
        FunctionalId::XC_B97_1X => 62,
        FunctionalId::XC_B97_1C => 63,
        FunctionalId::XC_B97_2X => 64,
        FunctionalId::XC_B97_2C => 65,
        FunctionalId::XC_CSC => 66,
        FunctionalId::XC_APBEC => 67,
        FunctionalId::XC_APBEX => 68,
        FunctionalId::XC_ZVPBESOLC => 69,
        FunctionalId::XC_BLOCX => 70,
        FunctionalId::XC_PBEINTC => 71,
        FunctionalId::XC_PBEINTX => 72,
        FunctionalId::XC_PBELOCC => 73,
        FunctionalId::XC_PBESOLX => 74,
        FunctionalId::XC_TPSSLOCC => 75,
        FunctionalId::XC_ZVPBEINTC => 76,
        FunctionalId::XC_PW91C => 77,
    }
}

/// Dependency flags of the functional `id`: `1` density, `2` gradient,
/// `4` Laplacian, `8` kinetic energy density, `16` paramagnetic current.
pub open spec fn spec_functional_depends(id: FunctionalId) -> u32 {
    match id {
        FunctionalId::XC_SLATERX => 1,
        FunctionalId::XC_PW86X => 3,
        FunctionalId::XC_VWN3C => 1,
        FunctionalId::XC_VWN5C => 1,
        FunctionalId::XC_PBEC => 3,
        FunctionalId::XC_PBEX => 3,
        FunctionalId::XC_BECKEX => 3,
        FunctionalId::XC_BECKECORRX => 3,
        FunctionalId::XC_BECKESRX => 3,
        FunctionalId::XC_BECKECAMX => 3,
        FunctionalId::XC_BRX => 31,
        FunctionalId::XC_BRC => 31,
        FunctionalId::XC_BRXC => 31,
        FunctionalId::XC_LDAERFX => 1,
        FunctionalId::XC_LDAERFC => 1,
        FunctionalId::XC_LDAERFC_JT => 1,
        FunctionalId::XC_LYPC => 3,
        FunctionalId::XC_OPTX => 3,
        FunctionalId::XC_OPTXCORR => 3,
        FunctionalId::XC_REVPBEX => 3,
        FunctionalId::XC_RPBEX => 3,
        FunctionalId::XC_SPBEC => 3,
        FunctionalId::XC_VWN_PBEC => 3,
        FunctionalId::XC_KTX => 3,
        FunctionalId::XC_TFK => 1,
        FunctionalId::XC_TW => 3,
        FunctionalId::XC_PW91X => 3,
        FunctionalId::XC_PW91K => 3,
        FunctionalId::XC_PW92C => 1,
        FunctionalId::XC_M05X => 11,
        FunctionalId::XC_M05X2X => 11,
        FunctionalId::XC_M06X => 11,
        FunctionalId::XC_M06X2X => 11,
        FunctionalId::XC_M06LX => 11,
        FunctionalId::XC_M06HFX => 11,
        FunctionalId::XC_M05X2C => 11,
        FunctionalId::XC_M05C => 11,
        FunctionalId::XC_M06C => 11,
        FunctionalId::XC_M06HFC => 11,
        FunctionalId::XC_M06LC => 11,
        FunctionalId::XC_M06X2C => 11,
        FunctionalId::XC_TPSSC => 11,
        FunctionalId::XC_TPSSX => 11,
        FunctionalId::XC_REVTPSSC => 11,
        FunctionalId::XC_REVTPSSX => 11,
        FunctionalId::XC_SCANC => 11,
        FunctionalId::XC_SCANX => 11,
        FunctionalId::XC_RSCANC => 11,
        FunctionalId::XC_RSCANX => 11,
        FunctionalId::XC_RPPSCANC => 11,
        FunctionalId::XC_RPPSCANX => 11,
        FunctionalId::XC_R2SCANC => 11,
        FunctionalId::XC_R2SCANX => 11,
        FunctionalId::XC_R4SCANC => 11,
        FunctionalId::XC_R4SCANX => 11,
        FunctionalId::XC_PZ81C => 1,
        FunctionalId::XC_P86C => 3,
        FunctionalId::XC_P86CORRC => 3,
        FunctionalId::XC_BTK => 3,
        FunctionalId::XC_VWK => 3,
        FunctionalId::XC_B97X => 3,
        FunctionalId::XC_B97C => 3,
        FunctionalId::XC_B97_1X => 3,
        FunctionalId::XC_B97_1C => 3,
        FunctionalId::XC_B97_2X => 3,
        FunctionalId::XC_B97_2C => 3,
        FunctionalId::XC_CSC => 31,
        FunctionalId::XC_APBEC => 3,
        FunctionalId::XC_APBEX => 3,
        FunctionalId::XC_ZVPBESOLC => 3,
        FunctionalId::XC_BLOCX => 11,
        FunctionalId::XC_PBEINTC => 3,
        FunctionalId::XC_PBEINTX => 3,
        FunctionalId::XC_PBELOCC => 3,
        FunctionalId::XC_PBESOLX => 3,
        FunctionalId::XC_TPSSLOCC => 11,
        FunctionalId::XC_ZVPBEINTC => 3,
        FunctionalId::XC_PW91C => 3,
    }
}

impl FunctionalId {
    /// Position of this functional in the catalogue.
    pub fn code(self) -> (r: u32)
        ensures
            r == spec_functional_code(self),
            r < 78,
    {
        match self {
            FunctionalId::XC_SLATERX => 0,
            FunctionalId::XC_PW86X => 1,
            FunctionalId::XC_VWN3C => 2,
            FunctionalId::XC_VWN5C => 3,
            FunctionalId::XC_PBEC => 4,
            FunctionalId::XC_PBEX => 5,
            FunctionalId::XC_BECKEX => 6,
            FunctionalId::XC_BECKECORRX => 7,
            FunctionalId::XC_BECKESRX => 8,
            FunctionalId::XC_BECKECAMX => 9,
            FunctionalId::XC_BRX => 10,
            FunctionalId::XC_BRC => 11,
            FunctionalId::XC_BRXC => 12,
            FunctionalId::XC_LDAERFX => 13,
            FunctionalId::XC_LDAERFC => 14,
            FunctionalId::XC_LDAERFC_JT => 15,
            FunctionalId::XC_LYPC => 16,
            FunctionalId::XC_OPTX => 17,
            FunctionalId::XC_OPTXCORR => 18,
            FunctionalId::XC_REVPBEX => 19,
            FunctionalId::XC_RPBEX => 20,
            FunctionalId::XC_SPBEC => 21,
            FunctionalId::XC_VWN_PBEC => 22,
            FunctionalId::XC_KTX => 23,
            FunctionalId::XC_TFK => 24,
            FunctionalId::XC_TW => 25,
            FunctionalId::XC_PW91X => 26,
            FunctionalId::XC_PW91K => 27,
            FunctionalId::XC_PW92C => 28,
            FunctionalId::XC_M05X => 29,
            FunctionalId::XC_M05X2X => 30,
            FunctionalId::XC_M06X => 31,
            FunctionalId::XC_M06X2X => 32,
            FunctionalId::XC_M06LX => 33,
            FunctionalId::XC_M06HFX => 34,
            FunctionalId::XC_M05X2C => 35,
            FunctionalId::XC_M05C => 36,
            FunctionalId::XC_M06C => 37,
            FunctionalId::XC_M06HFC => 38,
            FunctionalId::XC_M06LC => 39,
            FunctionalId::XC_M06X2C => 40,
            FunctionalId::XC_TPSSC => 41,
            FunctionalId::XC_TPSSX => 42,
            FunctionalId::XC_REVTPSSC => 43,
            FunctionalId::XC_REVTPSSX => 44,
            FunctionalId::XC_SCANC => 45,
            FunctionalId::XC_SCANX => 46,
            FunctionalId::XC_RSCANC => 47,
            FunctionalId::XC_RSCANX => 48,
            FunctionalId::XC_RPPSCANC => 49,
            FunctionalId::XC_RPPSCANX => 50,
            FunctionalId::XC_R2SCANC => 51,
            FunctionalId::XC_R2SCANX => 52,
            FunctionalId::XC_R4SCANC => 53,
            FunctionalId::XC_R4SCANX => 54,
            FunctionalId::XC_PZ81C => 55,
            FunctionalId::XC_P86C => 56,
            FunctionalId::XC_P86CORRC => 57,
            FunctionalId::XC_BTK => 58,
            FunctionalId::XC_VWK => 59,
            FunctionalId::XC_B97X => 60,
            FunctionalId::XC_B97C => 61,
            FunctionalId::XC_B97_1X => 62,
            FunctionalId::XC_B97_1C => 63,
            FunctionalId::XC_B97_2X => 64,
            FunctionalId::XC_B97_2C => 65,
            FunctionalId::XC_CSC => 66,
            FunctionalId::XC_APBEC => 67,
            FunctionalId::XC_APBEX => 68,
            FunctionalId::XC_ZVPBESOLC => 69,
            FunctionalId::XC_BLOCX => 70,
            FunctionalId::XC_PBEINTC => 71,
            FunctionalId::XC_PBEINTX => 72,
            FunctionalId::XC_PBELOCC => 73,
            FunctionalId::XC_PBESOLX => 74,
            FunctionalId::XC_TPSSLOCC => 75,
            FunctionalId::XC_ZVPBEINTC => 76,
            FunctionalId::XC_PW91C => 77,
        }
    }

    /// The functional whose catalogue position is `code`, if there is one.
    pub fn from_code(code: u32) -> (r: Option<FunctionalId>)
        ensures
            r matches Some(id) ==> spec_functional_code(id) == code,
            r is None <==> code >= 78,
    {
        match code {
            0 => Some(FunctionalId::XC_SLATERX),
            1 => Some(FunctionalId::XC_PW86X),
            2 => Some(FunctionalId::XC_VWN3C),
            3 => Some(FunctionalId::XC_VWN5C),
            4 => Some(FunctionalId::XC_PBEC),
            5 => Some(FunctionalId::XC_PBEX),
            6 => Some(FunctionalId::XC_BECKEX),
            7 => Some(FunctionalId::XC_BECKECORRX),
            8 => Some(FunctionalId::XC_BECKESRX),
            9 => Some(FunctionalId::XC_BECKECAMX),
            10 => Some(FunctionalId::XC_BRX),
            11 => Some(FunctionalId::XC_BRC),
            12 => Some(FunctionalId::XC_BRXC),
            13 => Some(FunctionalId::XC_LDAERFX),
            14 => Some(FunctionalId::XC_LDAERFC),
            15 => Some(FunctionalId::XC_LDAERFC_JT),
            16 => Some(FunctionalId::XC_LYPC),
            17 => Some(FunctionalId::XC_OPTX),
            18 => Some(FunctionalId::XC_OPTXCORR),
            19 => Some(FunctionalId::XC_REVPBEX),
            20 => Some(FunctionalId::XC_RPBEX),
            21 => Some(FunctionalId::XC_SPBEC),
            22 => Some(FunctionalId::XC_VWN_PBEC),
            23 => Some(FunctionalId::XC_KTX),
            24 => Some(FunctionalId::XC_TFK),
            25 => Some(FunctionalId::XC_TW),
            26 => Some(FunctionalId::XC_PW91X),
            27 => Some(FunctionalId::XC_PW91K),
            28 => Some(FunctionalId::XC_PW92C),
            29 => Some(FunctionalId::XC_M05X),
            30 => Some(FunctionalId::XC_M05X2X),
            31 => Some(FunctionalId::XC_M06X),
            32 => Some(FunctionalId::XC_M06X2X),
            33 => Some(FunctionalId::XC_M06LX),
            34 => Some(FunctionalId::XC_M06HFX),
            35 => Some(FunctionalId::XC_M05X2C),
            36 => Some(FunctionalId::XC_M05C),
            37 => Some(FunctionalId::XC_M06C),
            38 => Some(FunctionalId::XC_M06HFC),
            39 => Some(FunctionalId::XC_M06LC),
            40 => Some(FunctionalId::XC_M06X2C),
            41 => Some(FunctionalId::XC_TPSSC),
            42 => Some(FunctionalId::XC_TPSSX),
            43 => Some(FunctionalId::XC_REVTPSSC),
            44 => Some(FunctionalId::XC_REVTPSSX),
            45 => Some(FunctionalId::XC_SCANC),
            46 => Some(FunctionalId::XC_SCANX),
            47 => Some(FunctionalId::XC_RSCANC),
            48 => Some(FunctionalId::XC_RSCANX),
            49 => Some(FunctionalId::XC_RPPSCANC),
            50 => Some(FunctionalId::XC_RPPSCANX),
            51 => Some(FunctionalId::XC_R2SCANC),
            52 => Some(FunctionalId::XC_R2SCANX),
            53 => Some(FunctionalId::XC_R4SCANC),
            54 => Some(FunctionalId::XC_R4SCANX),
            55 => Some(FunctionalId::XC_PZ81C),
            56 => Some(FunctionalId::XC_P86C),
            57 => Some(FunctionalId::XC_P86CORRC),
            58 => Some(FunctionalId::XC_BTK),
            59 => Some(FunctionalId::XC_VWK),
            60 => Some(FunctionalId::XC_B97X),
            61 => Some(FunctionalId::XC_B97C),
            62 => Some(FunctionalId::XC_B97_1X),
            63 => Some(FunctionalId::XC_B97_1C),
            64 => Some(FunctionalId::XC_B97_2X),
            65 => Some(FunctionalId::XC_B97_2C),
            66 => Some(FunctionalId::XC_CSC),
            67 => Some(FunctionalId::XC_APBEC),
            68 => Some(FunctionalId::XC_APBEX),
            69 => Some(FunctionalId::XC_ZVPBESOLC),
            70 => Some(FunctionalId::XC_BLOCX),
            71 => Some(FunctionalId::XC_PBEINTC),
            72 => Some(FunctionalId::XC_PBEINTX),
            73 => Some(FunctionalId::XC_PBELOCC),
            74 => Some(FunctionalId::XC_PBESOLX),
            75 => Some(FunctionalId::XC_TPSSLOCC),
            76 => Some(FunctionalId::XC_ZVPBEINTC),
            77 => Some(FunctionalId::XC_PW91C),
            _ => None,
        }
    }

    /// Dependency flags of this functional.
    pub fn depends_bits(self) -> (r: u32)
        ensures
            r == spec_functional_depends(self),
    {
        match self {
            FunctionalId::XC_SLATERX => 1,
            FunctionalId::XC_PW86X => 3,
            FunctionalId::XC_VWN3C => 1,
            FunctionalId::XC_VWN5C => 1,
            FunctionalId::XC_PBEC => 3,
            FunctionalId::XC_PBEX => 3,
            FunctionalId::XC_BECKEX => 3,
            FunctionalId::XC_BECKECORRX => 3,
            FunctionalId::XC_BECKESRX => 3,
            FunctionalId::XC_BECKECAMX => 3,
            FunctionalId::XC_BRX => 31,
            FunctionalId::XC_BRC => 31,
            FunctionalId::XC_BRXC => 31,
            FunctionalId::XC_LDAERFX => 1,
            FunctionalId::XC_LDAERFC => 1,
            FunctionalId::XC_LDAERFC_JT => 1,
            FunctionalId::XC_LYPC => 3,
            FunctionalId::XC_OPTX => 3,
            FunctionalId::XC_OPTXCORR => 3,
            FunctionalId::XC_REVPBEX => 3,
            FunctionalId::XC_RPBEX => 3,
            FunctionalId::XC_SPBEC => 3,
            FunctionalId::XC_VWN_PBEC => 3,
            FunctionalId::XC_KTX => 3,
            FunctionalId::XC_TFK => 1,
            FunctionalId::XC_TW => 3,
            FunctionalId::XC_PW91X => 3,
            FunctionalId::XC_PW91K => 3,
            FunctionalId::XC_PW92C => 1,
            FunctionalId::XC_M05X => 11,
            FunctionalId::XC_M05X2X => 11,
            FunctionalId::XC_M06X => 11,
            FunctionalId::XC_M06X2X => 11,
            FunctionalId::XC_M06LX => 11,
            FunctionalId::XC_M06HFX => 11,
            FunctionalId::XC_M05X2C => 11,
            FunctionalId::XC_M05C => 11,
            FunctionalId::XC_M06C => 11,
            FunctionalId::XC_M06HFC => 11,
            FunctionalId::XC_M06LC => 11,
            FunctionalId::XC_M06X2C => 11,
            FunctionalId::XC_TPSSC => 11,
            FunctionalId::XC_TPSSX => 11,
            FunctionalId::XC_REVTPSSC => 11,
            FunctionalId::XC_REVTPSSX => 11,
            FunctionalId::XC_SCANC => 11,
            FunctionalId::XC_SCANX => 11,
            FunctionalId::XC_RSCANC => 11,
            FunctionalId::XC_RSCANX => 11,
            FunctionalId::XC_RPPSCANC => 11,
            FunctionalId::XC_RPPSCANX => 11,
            FunctionalId::XC_R2SCANC => 11,
            FunctionalId::XC_R2SCANX => 11,
            FunctionalId::XC_R4SCANC => 11,
            FunctionalId::XC_R4SCANX => 11,
            FunctionalId::XC_PZ81C => 1,
            FunctionalId::XC_P86C => 3,
            FunctionalId::XC_P86CORRC => 3,
            FunctionalId::XC_BTK => 3,
            FunctionalId::XC_VWK => 3,
            FunctionalId::XC_B97X => 3,
            FunctionalId::XC_B97C => 3,
            FunctionalId::XC_B97_1X => 3,
            FunctionalId::XC_B97_1C => 3,
            FunctionalId::XC_B97_2X => 3,
            FunctionalId::XC_B97_2C => 3,
            FunctionalId::XC_CSC => 31,
            FunctionalId::XC_APBEC => 3,
            FunctionalId::XC_APBEX => 3,
            FunctionalId::XC_ZVPBESOLC => 3,
            FunctionalId::XC_BLOCX => 11,
            FunctionalId::XC_PBEINTC => 3,
            FunctionalId::XC_PBEINTX => 3,
            FunctionalId::XC_PBELOCC => 3,
            FunctionalId::XC_PBESOLX => 3,
            FunctionalId::XC_TPSSLOCC => 11,
            FunctionalId::XC_ZVPBEINTC => 3,
            FunctionalId::XC_PW91C => 3,
        }
    }
}

} // verus!
