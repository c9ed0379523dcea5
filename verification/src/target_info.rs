//! Per-technology activation metadata of a detected tag.
//!
//! Each struct mirrors one arm of the driver's fixed-layout wire union:
//! fixed-capacity byte arrays with, where the wire form has one, a separate
//! length field.  The well-formedness predicate of each struct bounds every
//! length field by the capacity of its paired buffer; decoding rejects wire
//! values that violate it, so every value of these types that the library
//! hands out is well formed.

use vstd::prelude::*;
use vstd::array::spec_array_fill_for_copy_type;
use crate::types::DepMode;

verus! {

/// ISO/IEC 14443-A (MIFARE) tag information.
#[derive(Debug, PartialEq, Eq, Clone, Copy)]
pub struct Iso14443a {
    /// Answer To reQuest type A.
    pub atqa: [u8; 2],
    /// Select AcKnowledge.
    pub sak: u8,
    /// Unique IDentifier.
    pub uid: [u8; 10],
    /// Number of UID bytes in use.
    pub uid_len: usize,
    /// Answer To Select.
    pub ats: [u8; 254],
    /// Number of ATS bytes in use.
    pub ats_len: usize,
}

impl Iso14443a {
    /// Every length field fits its paired buffer.
    pub open spec fn wf(self) -> bool {
        self.uid_len <= 10 && self.ats_len <= 254
    }
}

/// FeLiCa tag information.
#[derive(Debug, PartialEq, Eq, Clone, Copy)]
pub struct Felica {
    /// Length of the whole polling response; it counts more than one field,
    /// so it has no single paired buffer.
    pub len: usize,
    /// Response code of the polling response.
    pub res_code: u8,
    /// NFCID2.
    pub id: [u8; 8],
    /// Pad bytes of the polling response.
    pub pad: [u8; 8],
    /// System code, when the polling request asked for it.
    pub sys_code: [u8; 2],
}

/// ISO/IEC 14443-B tag information.
#[derive(Debug, PartialEq, Eq, Clone, Copy)]
pub struct Iso14443b {
    /// PUPI contained in the ATQB (see ISO/IEC 14443-3).
    pub pupi: [u8; 4],
    /// Application data contained in the ATQB.
    pub application_data: [u8; 4],
    /// Protocol info contained in the ATQB.
    pub protocol_info: [u8; 3],
    /// Card identifier attributed by the PCD to the PICC.
    pub card_identifier: u8,
}

/// ISO/IEC 14443-B' tag information.
#[derive(Debug, PartialEq, Eq, Clone, Copy)]
pub struct Iso14443bi {
    /// Four least significant bytes of the tag's serial number.
    pub div: [u8; 4],
    /// Software version and type of the REPGEN answer.
    pub ver_log: u8,
    /// Config byte, present with a long REPGEN answer.
    pub config: u8,
    /// ATR, if any.
    pub atr: [u8; 33],
    /// Number of ATR bytes in use.
    pub atr_len: usize,
}

impl Iso14443bi {
    /// The length field fits its paired buffer.
    pub open spec fn wf(self) -> bool {
        self.atr_len <= 33
    }
}

/// ISO/IEC 14443-2B ST SRx tag information.
#[derive(Debug, PartialEq, Eq, Clone, Copy)]
pub struct Iso14443b2sr {
    /// Unique IDentifier.
    pub uid: [u8; 8],
}

/// ISO/IEC 14443-2B ASK CTx tag information.
#[derive(Debug, PartialEq, Eq, Clone, Copy)]
pub struct Iso14443b2ct {
    /// Unique IDentifier.
    pub uid: [u8; 4],
    /// Product code.
    pub prod_code: u8,
    /// Fabrication code.
    pub fab_code: u8,
}

/// Innovision Jewel tag information.
#[derive(Debug, PartialEq, Eq, Clone, Copy)]
pub struct Jewel {
    /// Answer to the SENS request.
    pub sens_res: [u8; 2],
    /// Tag identifier.
    pub id: [u8; 4],
}

/// Data Exchange Protocol peer information (ISO/IEC 18092).
#[derive(Debug, PartialEq, Eq, Clone, Copy)]
pub struct Dep {
    /// NFCID3.
    pub nfcid3: [u8; 10],
    /// Device IDentifier.
    pub did: u8,
    /// Supported send-bit rates.
    pub bs: u8,
    /// Supported receive-bit rates.
    pub br: u8,
    /// Timeout value.
    pub to: u8,
    /// Protocol parameters.
    pub pp: u8,
    /// General bytes.
    pub gb: [u8; 48],
    /// Number of general bytes in use.
    pub gb_len: usize,
    /// Negotiated D.E.P. mode.
    pub dep_mode: DepMode,
}

impl Dep {
    /// The length field fits its paired buffer.
    pub open spec fn wf(self) -> bool {
        self.gb_len <= 48
    }
}

/// Thinfilm NFC barcode information.
#[derive(Debug, PartialEq, Eq, Clone, Copy)]
pub struct Barcode {
    /// Barcode payload.
    pub data: [u8; 32],
    /// Number of payload bytes in use.
    pub data_len: usize,
}

impl Barcode {
    /// The length field fits its paired buffer.
    pub open spec fn wf(self) -> bool {
        self.data_len <= 32
    }
}

/// HID iClass (ISO/IEC 14443-B mode) tag information.
#[derive(Debug, PartialEq, Eq, Clone, Copy)]
pub struct Iso14443biClass {
    /// Unique IDentifier.
    pub uid: [u8; 8],
}

/// Technology-specific activation metadata: one variant per technology the
/// driver can report.
#[derive(Debug, PartialEq, Eq, Clone, Copy)]
pub enum TargetInfo {
    /// ISO/IEC 14443-A.
    Iso14443a(Iso14443a),
    /// FeLiCa.
    Felica(Felica),
    /// ISO/IEC 14443-B.
    Iso14443b(Iso14443b),
    /// ISO/IEC 14443-B'.
    Iso14443bi(Iso14443bi),
    /// ISO/IEC 14443-2B ST SRx.
    Iso14443b2sr(Iso14443b2sr),
    /// ISO/IEC 14443-2B ASK CTx.
    Iso14443b2ct(Iso14443b2ct),
    /// Innovision Jewel.
    Jewel(Jewel),
    /// Data Exchange Protocol.
    Dep(Dep),
    /// Thinfilm NFC barcode.
    Barcode(Barcode),
    /// HID iClass.
    Iso14443biClass(Iso14443biClass),
}

impl TargetInfo {
    /// Every length field of the carried metadata fits its paired buffer.
    pub open spec fn wf(self) -> bool {
        match self {
            TargetInfo::Iso14443a(info) => info.wf(),
            TargetInfo::Felica(_) => true,
            TargetInfo::Iso14443b(_) => true,
            TargetInfo::Iso14443bi(info) => info.wf(),
            TargetInfo::Iso14443b2sr(_) => true,
            TargetInfo::Iso14443b2ct(_) => true,
            TargetInfo::Jewel(_) => true,
            TargetInfo::Dep(info) => info.wf(),
            TargetInfo::Barcode(info) => info.wf(),
            TargetInfo::Iso14443biClass(_) => true,
        }
    }

    /// The zero-filled ISO/IEC 14443-A scratch value.
    pub open spec fn zero_iso14443a() -> TargetInfo {
        TargetInfo::Iso14443a(
            Iso14443a {
                atqa: spec_array_fill_for_copy_type(0u8),
                sak: 0,
                uid: spec_array_fill_for_copy_type(0u8),
                uid_len: 0,
                ats: spec_array_fill_for_copy_type(0u8),
                ats_len: 0,
            },
        )
    }

    /// A zero-filled ISO/IEC 14443-A value, used as a scratch target that a
    /// later decoding call fills in.
    pub fn new_iso14443a() -> (r: TargetInfo)
        ensures
            r == TargetInfo::zero_iso14443a(),
            r.wf(),
    {
        TargetInfo::Iso14443a(
            Iso14443a {
                atqa: [0u8; 2],
                sak: 0,
                uid: [0u8; 10],
                uid_len: 0,
                ats: [0u8; 254],
                ats_len: 0,
            },
        )
    }

    /// The zero-filled FeLiCa scratch value.
    pub open spec fn zero_felica() -> TargetInfo {
        TargetInfo::Felica(
            Felica { len: 0, res_code: 0, id: spec_array_fill_for_copy_type(0u8), pad: spec_array_fill_for_copy_type(0u8), sys_code: spec_array_fill_for_copy_type(0u8) },
        )
    }

    /// A zero-filled FeLiCa value.
    pub fn new_felica() -> (r: TargetInfo)
        ensures
            r == TargetInfo::zero_felica(),
            r.wf(),
    {
        TargetInfo::Felica(
            Felica { len: 0, res_code: 0, id: [0u8; 8], pad: [0u8; 8], sys_code: [0u8; 2] },
        )
    }

    /// The zero-filled ISO/IEC 14443-B scratch value.
    pub open spec fn zero_iso14443b() -> TargetInfo {
        TargetInfo::Iso14443b(
            Iso14443b {
                pupi: spec_array_fill_for_copy_type(0u8),
                application_data: spec_array_fill_for_copy_type(0u8),
                protocol_info: spec_array_fill_for_copy_type(0u8),
                card_identifier: 0,
            },
        )
    }

    /// A zero-filled ISO/IEC 14443-B value.
    pub fn new_iso14443b() -> (r: TargetInfo)
        ensures
            r == TargetInfo::zero_iso14443b(),
            r.wf(),
    {
        TargetInfo::Iso14443b(
            Iso14443b {
                pupi: [0u8; 4],
                application_data: [0u8; 4],
                protocol_info: [0u8; 3],
                card_identifier: 0,
            },
        )
    }

    /// The zero-filled ISO/IEC 14443-B' scratch value.
    pub open spec fn zero_iso14443bi() -> TargetInfo {
        TargetInfo::Iso14443bi(
            Iso14443bi { div: spec_array_fill_for_copy_type(0u8), ver_log: 0, config: 0, atr: spec_array_fill_for_copy_type(0u8), atr_len: 0 },
        )
    }

    /// A zero-filled ISO/IEC 14443-B' value.
    pub fn new_iso14443bi() -> (r: TargetInfo)
        ensures
            r == TargetInfo::zero_iso14443bi(),
            r.wf(),
    {
        TargetInfo::Iso14443bi(
            Iso14443bi { div: [0u8; 4], ver_log: 0, config: 0, atr: [0u8; 33], atr_len: 0 },
        )
    }

    /// The zero-filled ISO/IEC 14443-2B ST SRx scratch value.
    pub open spec fn zero_iso14443b2sr() -> TargetInfo {
        TargetInfo::Iso14443b2sr(Iso14443b2sr { uid: spec_array_fill_for_copy_type(0u8) })
    }

    /// A zero-filled ISO/IEC 14443-2B ST SRx value.
    pub fn new_iso14443b2sr() -> (r: TargetInfo)
        ensures
            r == TargetInfo::zero_iso14443b2sr(),
            r.wf(),
    {
        TargetInfo::Iso14443b2sr(Iso14443b2sr { uid: [0u8; 8] })
    }

    /// The zero-filled ISO/IEC 14443-2B ASK CTx scratch value.
    pub open spec fn zero_iso14443b2ct() -> TargetInfo {
        TargetInfo::Iso14443b2ct(Iso14443b2ct { uid: spec_array_fill_for_copy_type(0u8), prod_code: 0, fab_code: 0 })
    }

    /// A zero-filled ISO/IEC 14443-2B ASK CTx value.
    pub fn new_iso14443b2ct() -> (r: TargetInfo)
        ensures
            r == TargetInfo::zero_iso14443b2ct(),
            r.wf(),
    {
        TargetInfo::Iso14443b2ct(Iso14443b2ct { uid: [0u8; 4], prod_code: 0, fab_code: 0 })
    }

    /// The zero-filled Jewel scratch value.
    pub open spec fn zero_jewel() -> TargetInfo {
        TargetInfo::Jewel(Jewel { sens_res: spec_array_fill_for_copy_type(0u8), id: spec_array_fill_for_copy_type(0u8) })
    }

    /// A zero-filled Jewel value.
    pub fn new_jewel() -> (r: TargetInfo)
        ensures
            r == TargetInfo::zero_jewel(),
            r.wf(),
    {
        TargetInfo::Jewel(Jewel { sens_res: [0u8; 2], id: [0u8; 4] })
    }

    /// The zero-filled D.E.P. scratch value.
    pub open spec fn zero_dep() -> TargetInfo {
        TargetInfo::Dep(
            Dep {
                nfcid3: spec_array_fill_for_copy_type(0u8),
                did: 0,
                bs: 0,
                br: 0,
                to: 0,
                pp: 0,
                gb: spec_array_fill_for_copy_type(0u8),
                gb_len: 0,
                dep_mode: DepMode::Undefined,
            },
        )
    }

    /// A zero-filled D.E.P. value.
    pub fn new_dep() -> (r: TargetInfo)
        ensures
            r == TargetInfo::zero_dep(),
            r.wf(),
    {
        TargetInfo::Dep(
            Dep {
                nfcid3: [0u8; 10],
                did: 0,
                bs: 0,
                br: 0,
                to: 0,
                pp: 0,
                gb: [0u8; 48],
                gb_len: 0,
                dep_mode: DepMode::Undefined,
            },
        )
    }

    /// The zero-filled barcode scratch value.
    pub open spec fn zero_barcode() -> TargetInfo {
        TargetInfo::Barcode(Barcode { data: spec_array_fill_for_copy_type(0u8), data_len: 0 })
    }

    /// A zero-filled barcode value.
    pub fn new_barcode() -> (r: TargetInfo)
        ensures
            r == TargetInfo::zero_barcode(),
            r.wf(),
    {
        TargetInfo::Barcode(Barcode { data: [0u8; 32], data_len: 0 })
    }

    /// The zero-filled HID iClass scratch value.
    pub open spec fn zero_iso14443biclass() -> TargetInfo {
        TargetInfo::Iso14443biClass(Iso14443biClass { uid: spec_array_fill_for_copy_type(0u8) })
    }

    /// A zero-filled HID iClass value.
    pub fn new_iso14443biclass() -> (r: TargetInfo)
        ensures
            r == TargetInfo::zero_iso14443biclass(),
            r.wf(),
    {
        TargetInfo::Iso14443biClass(Iso14443biClass { uid: [0u8; 8] })
    }
}

} // verus!
