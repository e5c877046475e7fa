//! Transport-result interpretation for the Linux SCSI generic (SG) ioctl.
//!
//! The ioctl itself is issued by unverified code around the library; that
//! code fills a request from [`SgioRequest`], performs one blocking call, and
//! hands the raw outcome (masked status, residual, sense bytes, data buffer)
//! to [`interpret_sgio_result`], which decides between success with a
//! truncated buffer and a structured error.

use vstd::prelude::*;
use crate::error::MMCError;

verus! {

/// Data-transfer direction of an SG request.
#[derive(Clone, Copy, Debug, PartialEq, Eq, Structural)]
pub enum DxferDirection {
    /// No data transfer (for example TEST UNIT READY).
    NoData,
    /// Host to device (a SCSI WRITE).
    ToDev,
    /// Device to host (a SCSI READ).
    FromDev,
    ToFromDev,
    Unknown,
}

impl DxferDirection {
    /// The SG interface constant of this direction.
    pub open spec fn spec_code(self) -> int {
        match self {
            DxferDirection::NoData => -1,
            DxferDirection::ToDev => -2,
            DxferDirection::FromDev => -3,
            DxferDirection::ToFromDev => -4,
            DxferDirection::Unknown => -5,
        }
    }

    /// The SG interface constant of this direction.
    pub fn code(self) -> (r: i32)
        ensures
            r == self.spec_code(),
    {
        match self {
            DxferDirection::NoData => -1,
            DxferDirection::ToDev => -2,
            DxferDirection::FromDev => -3,
            DxferDirection::ToFromDev => -4,
            DxferDirection::Unknown => -5,
        }
    }
}

/// Interface id of an SG request: the character 'S'.
pub const SGIO_INTERFACE_ID: i32 = 83;

/// Fixed command timeout in milliseconds; there is no retry at this layer.
pub const SGIO_TIMEOUT_MS: u32 = 10000;

/// Fixed length of the sense buffer handed to the kernel.
pub const SENSE_BUFFER_LEN: usize = 64;

/// Masked SCSI status reporting success.
pub const STATUS_GOOD: u8 = 0;

/// Masked SCSI status reporting success with the condition met.
pub const STATUS_CONDITION_GOOD: u8 = 2;

/// The plain-value content of one SG ioctl request: direction, CDB bytes,
/// and how many response bytes to allocate. Unverified code adds the
/// pointers, the interface id, the fixed sense-buffer length and the fixed
/// timeout when it builds the kernel header.
pub struct SgioRequest {
    pub direction: DxferDirection,
    pub cdb: Vec<u8>,
    pub data_len: usize,
}

impl SgioRequest {
    /// Builds a request value carrying the CDB and buffer size for one call.
    pub fn new(direction: DxferDirection, cdb: Vec<u8>, data_len: usize) -> (r: SgioRequest)
        ensures
            r.direction == direction,
            r.cdb@ == cdb@,
            r.data_len == data_len,
    {
        SgioRequest { direction, cdb, data_len }
    }
}

/// Failure of one transport execution, with full structured context.
#[derive(Clone, Copy, Debug, PartialEq, Eq)]
pub enum TransportError {
    /// The device reported an error whose sense triple the taxonomy matched.
    Mmc(MMCError),
    /// The device reported sense data that no rule of the taxonomy matched;
    /// the raw status and triple are carried, never discarded.
    UnmatchedSense { status: u8, sense_key: u8, asc: u8, ascq: u8 },
    /// The device reported a failure status but wrote no sense data.
    BadStatus(u8),
    /// The device reported success but a residual outside `0..allocated`.
    InvalidResidual { allocated: usize, residual: i32 },
}

/// A masked status byte that means the command succeeded.
pub open spec fn spec_success_status(masked_status: u8) -> bool {
    masked_status == STATUS_GOOD || masked_status == STATUS_CONDITION_GOOD
}

/// Sense key extracted from a sense buffer: low nibble of byte 2.
pub open spec fn spec_sense_key(sense: Seq<u8>) -> u8 {
    sense[2] & 0x0f
}

/// Decides the outcome of one SG ioctl that itself returned without an OS
/// error. On a success status with a residual in `0..allocated`, the data
/// buffer truncated to `allocated - residual` bytes is returned; a residual
/// outside that range is a data-integrity error. On a failure status the
/// sense bytes, when written, are classified; an unmatched triple and absent
/// sense data each surface as their own error.
pub fn interpret_sgio_result(
    data: Vec<u8>,
    masked_status: u8,
    residual: i32,
    sense: &[u8],
    sense_written: u8,
) -> (r: Result<Vec<u8>, TransportError>)
    requires
        sense@.len() >= 14,
    ensures
        spec_success_status(masked_status) && 0 <= residual < data@.len() ==> (r matches Ok(b)
            && b@ == data@.subrange(0, data@.len() - residual)),
        spec_success_status(masked_status) && !(0 <= residual < data@.len()) ==> r == Err::<
            Vec<u8>,
            TransportError,
        >(TransportError::InvalidResidual { allocated: data@.len() as usize, residual }),
        !spec_success_status(masked_status) && sense_written > 0 ==> r == (
        match MMCError::spec_from_codes(spec_sense_key(sense@), sense@[12], sense@[13]) {
            Some(e) => Err::<Vec<u8>, TransportError>(TransportError::Mmc(e)),
            None => Err::<Vec<u8>, TransportError>(
                TransportError::UnmatchedSense {
                    status: masked_status,
                    sense_key: spec_sense_key(sense@),
                    asc: sense@[12],
                    ascq: sense@[13],
                },
            ),
        }),
        !spec_success_status(masked_status) && sense_written == 0 ==> r == Err::<
            Vec<u8>,
            TransportError,
        >(TransportError::BadStatus(masked_status)),
{
    if masked_status == STATUS_GOOD || masked_status == STATUS_CONDITION_GOOD {
        let allocated = data.len();
        if residual >= 0 && (residual as usize) < allocated {
            let mut data = data;
            data.truncate(allocated - residual as usize);
            Ok(data)
        } else {
            Err(TransportError::InvalidResidual { allocated, residual })
        }
    } else if sense_written > 0 {
        let sense_key = sense[2] & 0x0f;
        let asc = sense[12];
        let ascq = sense[13];
        match MMCError::from_codes(sense_key, asc, ascq) {
            Some(e) => Err(TransportError::Mmc(e)),
            None => Err(
                TransportError::UnmatchedSense { status: masked_status, sense_key, asc, ascq },
            ),
        }
    } else {
        Err(TransportError::BadStatus(masked_status))
    }
}

} // verus!
