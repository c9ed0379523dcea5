//! Value types exchanged with the native driver.
//!
//! Each enumeration mirrors one of the driver's C enumerations; the paired
//! conversion functions fix the numeric wire codes once, with round-trip
//! lemmas where the codes permit them.

use vstd::prelude::*;

verus! {

/// Role of a session: answering as a tag, or driving as a reader.
#[derive(Debug, PartialEq, Eq, Structural, Clone, Copy)]
pub enum Mode {
    /// The session emulates a tag and answers a remote initiator.
    Target,
    /// The session acts as a reader and activates nearby tags.
    Initiator,
}

impl Mode {
    /// The driver's code for this mode.
    pub open spec fn as_code(self) -> u32 {
        match self {
            Mode::Target => 0,
            Mode::Initiator => 1,
        }
    }

    /// Encodes this mode as the driver's numeric code.
    pub fn to_code(self) -> (r: u32)
        ensures
            r == self.as_code(),
    {
        match self {
            Mode::Target => 0,
            Mode::Initiator => 1,
        }
    }
}

/// Link speed of a contactless exchange.
#[derive(Debug, PartialEq, Eq, Structural, Clone, Copy)]
pub enum BaudRate {
    /// 106 kbps.
    Baud106,
    /// 212 kbps.
    Baud212,
    /// 424 kbps.
    Baud424,
    /// 847 kbps.
    Baud847,
    /// No negotiated speed.
    Undefined,
}

/// The baud rate that a driver code denotes.
pub open spec fn baud_rate_of_code(code: u32) -> BaudRate {
    if code == 1 {
        BaudRate::Baud106
    } else if code == 2 {
        BaudRate::Baud212
    } else if code == 3 {
        BaudRate::Baud424
    } else if code == 4 {
        BaudRate::Baud847
    } else {
        BaudRate::Undefined
    }
}

impl BaudRate {
    /// The driver's code for this baud rate.
    pub open spec fn as_code(self) -> u32 {
        match self {
            BaudRate::Baud106 => 1,
            BaudRate::Baud212 => 2,
            BaudRate::Baud424 => 3,
            BaudRate::Baud847 => 4,
            BaudRate::Undefined => 0,
        }
    }

    /// Encodes this baud rate as the driver's numeric code.
    pub fn to_code(self) -> (r: u32)
        ensures
            r == self.as_code(),
    {
        match self {
            BaudRate::Baud106 => 1,
            BaudRate::Baud212 => 2,
            BaudRate::Baud424 => 3,
            BaudRate::Baud847 => 4,
            BaudRate::Undefined => 0,
        }
    }

    /// Decodes a driver code; codes outside the known set give `Undefined`.
    pub fn from_code(code: u32) -> (r: BaudRate)
        ensures
            r == baud_rate_of_code(code),
    {
        if code == 1 {
            BaudRate::Baud106
        } else if code == 2 {
            BaudRate::Baud212
        } else if code == 3 {
            BaudRate::Baud424
        } else if code == 4 {
            BaudRate::Baud847
        } else {
            BaudRate::Undefined
        }
    }
}

/// Decoding inverts encoding for every baud rate.
pub proof fn lemma_baud_rate_code_round_trip(b: BaudRate)
    ensures
        baud_rate_of_code(b.as_code()) == b,
{
}

/// Contactless technology family of a tag.
#[derive(Debug, PartialEq, Eq, Structural, Clone, Copy)]
pub enum ModulationType {
    /// ISO/IEC 14443-A.
    Iso14443a,
    /// Innovision Jewel / Topaz.
    Jewel,
    /// ISO/IEC 14443-B.
    Iso14443b,
    /// Pre-ISO/IEC 14443-B, also called type B'.
    Iso14443bi,
    /// ISO/IEC 14443-2B ST SRx.
    Iso14443b2sr,
    /// ISO/IEC 14443-2B ASK CTx.
    Iso14443b2ct,
    /// FeliCa.
    Felica,
    /// Data Exchange Protocol (ISO/IEC 18092).
    Dep,
    /// Thinfilm NFC barcode.
    Barcode,
    /// HID iClass in ISO/IEC 14443-B mode.
    Iso14443biClass,
    /// No recognized technology.
    Undefined,
}

/// The modulation type that a driver code denotes.
pub open spec fn modulation_type_of_code(code: u32) -> ModulationType {
    if code == 1 {
        ModulationType::Iso14443a
    } else if code == 2 {
        ModulationType::Jewel
    } else if code == 3 {
        ModulationType::Iso14443b
    } else if code == 4 {
        ModulationType::Iso14443bi
    } else if code == 5 {
        ModulationType::Iso14443b2sr
    } else if code == 6 {
        ModulationType::Iso14443b2ct
    } else if code == 7 {
        ModulationType::Felica
    } else if code == 8 {
        ModulationType::Dep
    } else if code == 9 {
        ModulationType::Barcode
    } else if code == 10 {
        ModulationType::Iso14443biClass
    } else {
        ModulationType::Undefined
    }
}

impl ModulationType {
    /// The driver's code for this modulation type; `Undefined` has none and
    /// encodes as zero.
    pub open spec fn as_code(self) -> u32 {
        match self {
            ModulationType::Iso14443a => 1,
            ModulationType::Jewel => 2,
            ModulationType::Iso14443b => 3,
            ModulationType::Iso14443bi => 4,
            ModulationType::Iso14443b2sr => 5,
            ModulationType::Iso14443b2ct => 6,
            ModulationType::Felica => 7,
            ModulationType::Dep => 8,
            ModulationType::Barcode => 9,
            ModulationType::Iso14443biClass => 10,
            ModulationType::Undefined => 0,
        }
    }

    /// Encodes this modulation type as the driver's numeric code.
    pub fn to_code(self) -> (r: u32)
        ensures
            r == self.as_code(),
    {
        match self {
            ModulationType::Iso14443a => 1,
            ModulationType::Jewel => 2,
            ModulationType::Iso14443b => 3,
            ModulationType::Iso14443bi => 4,
            ModulationType::Iso14443b2sr => 5,
            ModulationType::Iso14443b2ct => 6,
            ModulationType::Felica => 7,
            ModulationType::Dep => 8,
            ModulationType::Barcode => 9,
            ModulationType::Iso14443biClass => 10,
            ModulationType::Undefined => 0,
        }
    }

    /// Decodes a driver code; codes outside the known set give `Undefined`.
    pub fn from_code(code: u32) -> (r: ModulationType)
        ensures
            r == modulation_type_of_code(code),
    {
        if code == 1 {
            ModulationType::Iso14443a
        } else if code == 2 {
            ModulationType::Jewel
        } else if code == 3 {
            ModulationType::Iso14443b
        } else if code == 4 {
            ModulationType::Iso14443bi
        } else if code == 5 {
            ModulationType::Iso14443b2sr
        } else if code == 6 {
            ModulationType::Iso14443b2ct
        } else if code == 7 {
            ModulationType::Felica
        } else if code == 8 {
            ModulationType::Dep
        } else if code == 9 {
            ModulationType::Barcode
        } else if code == 10 {
            ModulationType::Iso14443biClass
        } else {
            ModulationType::Undefined
        }
    }
}

/// Decoding inverts encoding for every modulation type.
pub proof fn lemma_modulation_type_code_round_trip(mt: ModulationType)
    ensures
        modulation_type_of_code(mt.as_code()) == mt,
{
}

/// A technology family together with its negotiated link speed.
#[derive(Debug, PartialEq, Eq, Structural, Clone, Copy)]
pub struct Modulation {
    /// The technology family.
    pub modulation_type: ModulationType,
    /// The negotiated link speed.
    pub baud_rate: BaudRate,
}

impl Modulation {
    /// Encodes both halves of the modulation as the driver's numeric codes:
    /// the technology code first, the baud-rate code second.
    pub fn to_codes(&self) -> (r: (u32, u32))
        ensures
            r.0 == self.modulation_type.as_code(),
            r.1 == self.baud_rate.as_code(),
    {
        (self.modulation_type.to_code(), self.baud_rate.to_code())
    }

    /// Decodes a driver modulation pair; unknown codes give the `Undefined`
    /// member of each half.
    pub fn from_codes(modulation_type_code: u32, baud_rate_code: u32) -> (r: Modulation)
        ensures
            r.modulation_type == modulation_type_of_code(modulation_type_code),
            r.baud_rate == baud_rate_of_code(baud_rate_code),
    {
        Modulation {
            modulation_type: ModulationType::from_code(modulation_type_code),
            baud_rate: BaudRate::from_code(baud_rate_code),
        }
    }
}

/// Decoding inverts encoding for every modulation pair: both the
/// technology and the baud rate survive the trip through their codes.
pub proof fn lemma_modulation_codes_round_trip(m: Modulation)
    ensures
        modulation_type_of_code(m.modulation_type.as_code()) == m.modulation_type,
        baud_rate_of_code(m.baud_rate.as_code()) == m.baud_rate,
{
    lemma_modulation_type_code_round_trip(m.modulation_type);
    lemma_baud_rate_code_round_trip(m.baud_rate);
}

/// Mode of a Data Exchange Protocol link.
#[derive(Debug, PartialEq, Eq, Structural, Clone, Copy)]
pub enum DepMode {
    /// No negotiated mode.
    Undefined,
    /// Passive mode: the initiator supplies the RF field.
    Passive,
    /// Active mode: both peers generate their own field.
    Active,
}

/// The D.E.P. mode that a driver code denotes.
pub open spec fn dep_mode_of_code(code: u32) -> DepMode {
    if code == 1 {
        DepMode::Passive
    } else if code == 2 {
        DepMode::Active
    } else {
        DepMode::Undefined
    }
}

impl DepMode {
    /// The driver's code for this mode.
    pub open spec fn as_code(self) -> u32 {
        match self {
            DepMode::Undefined => 0,
            DepMode::Passive => 1,
            DepMode::Active => 2,
        }
    }

    /// Encodes this mode as the driver's numeric code.
    pub fn to_code(self) -> (r: u32)
        ensures
            r == self.as_code(),
    {
        match self {
            DepMode::Undefined => 0,
            DepMode::Passive => 1,
            DepMode::Active => 2,
        }
    }

    /// Decodes a driver code; codes outside the known set give `Undefined`.
    pub fn from_code(code: u32) -> (r: DepMode)
        ensures
            r == dep_mode_of_code(code),
    {
        if code == 1 {
            DepMode::Passive
        } else if code == 2 {
            DepMode::Active
        } else {
            DepMode::Undefined
        }
    }
}

/// Decoding inverts encoding for every D.E.P. mode.
pub proof fn lemma_dep_mode_code_round_trip(d: DepMode)
    ensures
        dep_mode_of_code(d.as_code()) == d,
{
}

/// Enumerated configuration keys of a reader session.
#[derive(Debug, PartialEq, Eq, Structural, Clone, Copy)]
pub enum Property {
    /// Default command-processing timeout.
    TimeoutCommand,
    /// Timeout for the ATR request.
    TimeoutAtr,
    /// Timeout for each communication with a tag.
    TimeoutCom,
    /// Let the device handle CRC bytes.
    HandleCrc,
    /// Let the device handle parity bits.
    HandleParity,
    /// Activate the RF field.
    ActivateField,
    /// Activate the crypto-1 cipher.
    ActivateCrypto1,
    /// Retry selection forever instead of failing fast.
    InfiniteSelect,
    /// Accept frames with invalid CRC or parity.
    AcceptInvalidFrames,
    /// Accept more than one frame per receive.
    AcceptMultipleFrames,
    /// Switch to ISO/IEC 14443-4 automatically where the tag supports it.
    AutoIso144434,
    /// Let the device frame and unframe ISO/IEC 14443-4 exchanges.
    EasyFraming,
    /// Force the ISO/IEC 14443-A technology.
    ForceIso14443A,
    /// Force the ISO/IEC 14443-B technology.
    ForceIso14443B,
    /// Force the 106 kbps speed.
    ForceSpeed106,
}

impl Property {
    /// The driver's code for this property key.
    pub open spec fn as_code(self) -> u32 {
        match self {
            Property::TimeoutCommand => 0,
            Property::TimeoutAtr => 1,
            Property::TimeoutCom => 2,
            Property::HandleCrc => 3,
            Property::HandleParity => 4,
            Property::ActivateField => 5,
            Property::ActivateCrypto1 => 6,
            Property::InfiniteSelect => 7,
            Property::AcceptInvalidFrames => 8,
            Property::AcceptMultipleFrames => 9,
            Property::AutoIso144434 => 10,
            Property::EasyFraming => 11,
            Property::ForceIso14443A => 12,
            Property::ForceIso14443B => 13,
            Property::ForceSpeed106 => 14,
        }
    }

    /// Encodes this property key as the driver's numeric code.
    pub fn to_code(self) -> (r: u32)
        ensures
            r == self.as_code(),
    {
        match self {
            Property::TimeoutCommand => 0,
            Property::TimeoutAtr => 1,
            Property::TimeoutCom => 2,
            Property::HandleCrc => 3,
            Property::HandleParity => 4,
            Property::ActivateField => 5,
            Property::ActivateCrypto1 => 6,
            Property::InfiniteSelect => 7,
            Property::AcceptInvalidFrames => 8,
            Property::AcceptMultipleFrames => 9,
            Property::AutoIso144434 => 10,
            Property::EasyFraming => 11,
            Property::ForceIso14443A => 12,
            Property::ForceIso14443B => 13,
            Property::ForceSpeed106 => 14,
        }
    }
}

/// Caller-chosen bound on how long a blocking driver call may wait.
///
/// The `Duration` variant is in whole milliseconds; that is also the unit
/// the driver expects, so the encoding is exact up to the driver's signed
/// 32-bit range and saturates there.
#[derive(Debug, PartialEq, Eq, Structural, Clone, Copy)]
pub enum Timeout {
    /// Wait without bound until the operation completes or fails.
    NoTimeout,
    /// Use the driver's default timeout.
    Default,
    /// Wait at most this many milliseconds.
    Duration(u64),
}

/// The timeout that a driver code denotes: negative is the default, zero is
/// no timeout, positive is a duration in milliseconds.
pub open spec fn timeout_of_code(code: i32) -> Timeout {
    if code < 0 {
        Timeout::Default
    } else if code == 0 {
        Timeout::NoTimeout
    } else {
        Timeout::Duration(code as u64)
    }
}

impl Timeout {
    /// The driver's code for this timeout, with durations saturated at the
    /// signed 32-bit limit.
    pub open spec fn as_code(self) -> i32 {
        match self {
            Timeout::NoTimeout => 0i32,
            Timeout::Default => -1i32,
            Timeout::Duration(ms) => if ms > i32::MAX {
                i32::MAX
            } else {
                ms as i32
            },
        }
    }

    /// Encodes this timeout as the driver's numeric code.
    pub fn to_code(self) -> (r: i32)
        ensures
            r == self.as_code(),
    {
        match self {
            Timeout::NoTimeout => 0,
            Timeout::Default => -1,
            Timeout::Duration(ms) => if ms > i32::MAX as u64 {
                i32::MAX
            } else {
                ms as i32
            },
        }
    }

    /// Decodes a driver code back into a timeout.
    pub fn from_code(code: i32) -> (r: Timeout)
        ensures
            r == timeout_of_code(code),
    {
        if code < 0 {
            Timeout::Default
        } else if code == 0 {
            Timeout::NoTimeout
        } else {
            Timeout::Duration(code as u64)
        }
    }
}

/// Decoding inverts encoding for every timeout whose duration, if any, is
/// positive and within the driver's signed 32-bit range.  A zero duration
/// encodes as the `None` timeout and an over-range duration saturates, so
/// those two cases are left out.
pub proof fn lemma_timeout_code_round_trip(t: Timeout)
    requires
        t matches Timeout::Duration(ms) ==> 1 <= ms <= i32::MAX,
    ensures
        timeout_of_code(t.as_code()) == t,
{
}

} // verus!
