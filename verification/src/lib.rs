//! Host-side driver abstraction for contactless proximity-card readers.
//!
//! The crate models the session, transceive and target-marshalling layer of
//! an NFC reader library: the error taxonomy of the native driver, the value
//! types exchanged with it (modulation, baud rate, timeout, property keys),
//! the marshalling of the driver's tagged wire union into a safe discriminated
//! target descriptor, and the buffer-sizing discipline of every receive-style
//! operation.

use vstd::prelude::*;

pub mod error;
pub mod registry;
pub mod session;
pub mod target;
pub mod target_info;
pub mod types;
pub mod wire;

pub use error::Error;
pub use registry::DriverRegistry;
pub use target::Target;
pub use types::BaudRate;
pub use types::DepMode;
pub use types::Mode;
pub use types::Modulation;
pub use types::ModulationType;
pub use types::Property;
pub use types::Timeout;

verus! {

/// Shorthand for every fallible operation of this library.
pub type Result<T> = core::result::Result<T, Error>;

/// Where the historical bytes of an ISO/IEC 14443-A ATS begin: one byte
/// for the format byte itself, plus one for each interface byte (TA, TB,
/// TC) that the format byte announces.
pub open spec fn ats_historical_bytes_offset(format_byte: u8) -> nat {
    1 + (if format_byte & 0x10 != 0 {
        1nat
    } else {
        0nat
    }) + (if format_byte & 0x20 != 0 {
        1nat
    } else {
        0nat
    }) + (if format_byte & 0x40 != 0 {
        1nat
    } else {
        0nat
    })
}

/// Locates the historical bytes inside an ISO/IEC 14443-A ATS: the bytes
/// after the format byte and the interface bytes it announces.  Returns
/// nothing when the ATS is empty or ends before any historical byte.
pub fn iso14443a_locate_historical_bytes(ats: &[u8]) -> (r: Option<&[u8]>)
    ensures
        ats@.len() == 0 ==> r is None,
        ats@.len() > 0 ==> {
            let offset = ats_historical_bytes_offset(ats@[0]);
            &&& ats@.len() > offset ==> (r matches Some(h) && h@ == ats@.subrange(
                offset as int,
                ats@.len() as int,
            ))
            &&& ats@.len() <= offset ==> r is None
        },
{
    if ats.len() != 0 {
        let format_byte = *vstd::slice::slice_index_get(ats, 0);
        let mut offset: usize = 1;
        if format_byte & 0x10 != 0 {
            // TA is present
            offset = offset + 1;
        }
        if format_byte & 0x20 != 0 {
            // TB is present
            offset = offset + 1;
        }
        if format_byte & 0x40 != 0 {
            // TC is present
            offset = offset + 1;
        }
        if ats.len() > offset {
            return Some(vstd::slice::slice_subrange(ats, offset, ats.len()));
        }
    }
    None
}

} // verus!
