//! The driver's fixed-layout wire form of a detected target.
//!
//! On the wire a target is a modulation pair (technology code, baud-rate
//! code) next to a C-style union of per-technology payloads, discriminated
//! by the technology code.  This module models that union as a product
//! holding every arm: reading an arm of the product corresponds to reading
//! the union's storage as that arm, and the decoder inspects only the arm
//! that the technology code selects.  Length fields are raw 64-bit counts,
//! unchecked until decoding.

use vstd::prelude::*;
use vstd::array::spec_array_fill_for_copy_type;

verus! {

/// Wire arm for ISO/IEC 14443-A.
#[derive(Debug, PartialEq, Eq, Clone, Copy)]
pub struct WireIso14443a {
    /// Answer To reQuest type A.
    pub atqa: [u8; 2],
    /// Select AcKnowledge.
    pub sak: u8,
    /// Raw count of UID bytes in use.
    pub uid_len: u64,
    /// Unique IDentifier.
    pub uid: [u8; 10],
    /// Raw count of ATS bytes in use.
    pub ats_len: u64,
    /// Answer To Select.
    pub ats: [u8; 254],
}

/// Wire arm for FeLiCa.
#[derive(Debug, PartialEq, Eq, Clone, Copy)]
pub struct WireFelica {
    /// Raw length of the whole polling response.
    pub len: u64,
    /// Response code of the polling response.
    pub res_code: u8,
    /// NFCID2.
    pub id: [u8; 8],
    /// Pad bytes of the polling response.
    pub pad: [u8; 8],
    /// System code.
    pub sys_code: [u8; 2],
}

/// Wire arm for ISO/IEC 14443-B.
#[derive(Debug, PartialEq, Eq, Clone, Copy)]
pub struct WireIso14443b {
    /// PUPI contained in the ATQB.
    pub pupi: [u8; 4],
    /// Application data contained in the ATQB.
    pub application_data: [u8; 4],
    /// Protocol info contained in the ATQB.
    pub protocol_info: [u8; 3],
    /// Card identifier attributed by the PCD to the PICC.
    pub card_identifier: u8,
}

/// Wire arm for ISO/IEC 14443-B'.
#[derive(Debug, PartialEq, Eq, Clone, Copy)]
pub struct WireIso14443bi {
    /// Four least significant bytes of the tag's serial number.
    pub div: [u8; 4],
    /// Software version and type of the REPGEN answer.
    pub ver_log: u8,
    /// Config byte.
    pub config: u8,
    /// Raw count of ATR bytes in use.
    pub atr_len: u64,
    /// ATR, if any.
    pub atr: [u8; 33],
}

/// Wire arm for ISO/IEC 14443-2B ST SRx.
#[derive(Debug, PartialEq, Eq, Clone, Copy)]
pub struct WireIso14443b2sr {
    /// Unique IDentifier.
    pub uid: [u8; 8],
}

/// Wire arm for ISO/IEC 14443-2B ASK CTx.
#[derive(Debug, PartialEq, Eq, Clone, Copy)]
pub struct WireIso14443b2ct {
    /// Unique IDentifier.
    pub uid: [u8; 4],
    /// Product code.
    pub prod_code: u8,
    /// Fabrication code.
    pub fab_code: u8,
}

/// Wire arm for Innovision Jewel.
#[derive(Debug, PartialEq, Eq, Clone, Copy)]
pub struct WireJewel {
    /// Answer to the SENS request.
    pub sens_res: [u8; 2],
    /// Tag identifier.
    pub id: [u8; 4],
}

/// Wire arm for the Data Exchange Protocol.
#[derive(Debug, PartialEq, Eq, Clone, Copy)]
pub struct WireDep {
    /// NFCID3.
    pub nfcid3: [u8; 10],
    /// Device IDentifier.
    pub did: u8,
    /// Supported send-bit rates.
    pub bs: u8,
    /// Supported receive-bit rates.
    pub br: u8,
    /// Timeout value.
    pub to: u8,
    /// Protocol parameters.
    pub pp: u8,
    /// General bytes.
    pub gb: [u8; 48],
    /// Raw count of general bytes in use.
    pub gb_len: u64,
    /// Raw D.E.P. mode code.
    pub dep_mode: u32,
}

/// Wire arm for the Thinfilm NFC barcode.
#[derive(Debug, PartialEq, Eq, Clone, Copy)]
pub struct WireBarcode {
    /// Raw count of payload bytes in use.
    pub data_len: u64,
    /// Barcode payload.
    pub data: [u8; 32],
}

/// Wire arm for HID iClass.
#[derive(Debug, PartialEq, Eq, Clone, Copy)]
pub struct WireIso14443biClass {
    /// Unique IDentifier.
    pub uid: [u8; 8],
}

/// The wire union's storage, read as every arm at once.
///
/// The decoder inspects only the arm that the wire target's technology code
/// selects; the bytes of the other arms are carried but never read.
#[derive(Debug, PartialEq, Eq, Clone, Copy)]
pub struct WireTargetInfo {
    /// The storage read as the ISO/IEC 14443-A arm.
    pub iso14443a: WireIso14443a,
    /// The storage read as the FeLiCa arm.
    pub felica: WireFelica,
    /// The storage read as the ISO/IEC 14443-B arm.
    pub iso14443b: WireIso14443b,
    /// The storage read as the ISO/IEC 14443-B' arm.
    pub iso14443bi: WireIso14443bi,
    /// The storage read as the ISO/IEC 14443-2B ST SRx arm.
    pub iso14443b2sr: WireIso14443b2sr,
    /// The storage read as the ISO/IEC 14443-2B ASK CTx arm.
    pub iso14443b2ct: WireIso14443b2ct,
    /// The storage read as the Jewel arm.
    pub jewel: WireJewel,
    /// The storage read as the D.E.P. arm.
    pub dep: WireDep,
    /// The storage read as the barcode arm.
    pub barcode: WireBarcode,
    /// The storage read as the HID iClass arm.
    pub iso14443biclass: WireIso14443biClass,
}

impl WireTargetInfo {
    /// The all-zero wire storage.
    pub open spec fn zero_spec() -> WireTargetInfo {
        WireTargetInfo {
            iso14443a: WireIso14443a {
                atqa: spec_array_fill_for_copy_type(0u8),
                sak: 0,
                uid_len: 0,
                uid: spec_array_fill_for_copy_type(0u8),
                ats_len: 0,
                ats: spec_array_fill_for_copy_type(0u8),
            },
            felica: WireFelica {
                len: 0,
                res_code: 0,
                id: spec_array_fill_for_copy_type(0u8),
                pad: spec_array_fill_for_copy_type(0u8),
                sys_code: spec_array_fill_for_copy_type(0u8),
            },
            iso14443b: WireIso14443b {
                pupi: spec_array_fill_for_copy_type(0u8),
                application_data: spec_array_fill_for_copy_type(0u8),
                protocol_info: spec_array_fill_for_copy_type(0u8),
                card_identifier: 0,
            },
            iso14443bi: WireIso14443bi {
                div: spec_array_fill_for_copy_type(0u8),
                ver_log: 0,
                config: 0,
                atr_len: 0,
                atr: spec_array_fill_for_copy_type(0u8),
            },
            iso14443b2sr: WireIso14443b2sr { uid: spec_array_fill_for_copy_type(0u8) },
            iso14443b2ct: WireIso14443b2ct {
                uid: spec_array_fill_for_copy_type(0u8),
                prod_code: 0,
                fab_code: 0,
            },
            jewel: WireJewel {
                sens_res: spec_array_fill_for_copy_type(0u8),
                id: spec_array_fill_for_copy_type(0u8),
            },
            dep: WireDep {
                nfcid3: spec_array_fill_for_copy_type(0u8),
                did: 0,
                bs: 0,
                br: 0,
                to: 0,
                pp: 0,
                gb: spec_array_fill_for_copy_type(0u8),
                gb_len: 0,
                dep_mode: 0,
            },
            barcode: WireBarcode {
                data_len: 0,
                data: spec_array_fill_for_copy_type(0u8),
            },
            iso14443biclass: WireIso14443biClass { uid: spec_array_fill_for_copy_type(0u8) },
        }
    }

    /// Builds the all-zero wire storage.
    pub fn zero() -> (r: WireTargetInfo)
        ensures
            r == WireTargetInfo::zero_spec(),
    {
        WireTargetInfo {
            iso14443a: WireIso14443a {
                atqa: [0u8; 2],
                sak: 0,
                uid_len: 0,
                uid: [0u8; 10],
                ats_len: 0,
                ats: [0u8; 254],
            },
            felica: WireFelica {
                len: 0,
                res_code: 0,
                id: [0u8; 8],
                pad: [0u8; 8],
                sys_code: [0u8; 2],
            },
            iso14443b: WireIso14443b {
                pupi: [0u8; 4],
                application_data: [0u8; 4],
                protocol_info: [0u8; 3],
                card_identifier: 0,
            },
            iso14443bi: WireIso14443bi {
                div: [0u8; 4],
                ver_log: 0,
                config: 0,
                atr_len: 0,
                atr: [0u8; 33],
            },
            iso14443b2sr: WireIso14443b2sr { uid: [0u8; 8] },
            iso14443b2ct: WireIso14443b2ct { uid: [0u8; 4], prod_code: 0, fab_code: 0 },
            jewel: WireJewel { sens_res: [0u8; 2], id: [0u8; 4] },
            dep: WireDep {
                nfcid3: [0u8; 10],
                did: 0,
                bs: 0,
                br: 0,
                to: 0,
                pp: 0,
                gb: [0u8; 48],
                gb_len: 0,
                dep_mode: 0,
            },
            barcode: WireBarcode { data_len: 0, data: [0u8; 32] },
            iso14443biclass: WireIso14443biClass { uid: [0u8; 8] },
        }
    }
}

/// A target as the driver reports and accepts it: the union storage plus
/// the modulation pair that discriminates it.
#[derive(Debug, PartialEq, Eq, Clone, Copy)]
pub struct WireTarget {
    /// The union storage.
    pub info: WireTargetInfo,
    /// The technology code of the modulation field.
    pub modulation_type: u32,
    /// The baud-rate code of the modulation field.
    pub baud_rate: u32,
}

} // verus!
