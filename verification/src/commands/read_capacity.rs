//! READ CAPACITY (operation code 0x25): reports the last Logical Block
//! Address of the medium and the block length in bytes.

use vstd::prelude::*;
use crate::addressing::{BlockAddressError, Lba, LBA_MIN, LBA_MAX};
use crate::cdb::{Cdb, Control};
use crate::util::{be32, be32_signed, spec_be32, spec_be32_signed};

verus! {

/// Operation code of READ CAPACITY.
pub const READ_CAPACITY_OP_CODE: u8 = 0x25;

/// Exact length of a READ CAPACITY response.
pub const READ_CAPACITY_RESPONSE_LEN: usize = 8;

/// A malformed READ CAPACITY response.
#[derive(Clone, Copy, Debug, PartialEq, Eq, Structural)]
pub enum Error {
    /// Fewer bytes than the eight-byte response.
    IncompleteResponse(usize),
    /// The reported address lies outside the valid LBA interval.
    InvalidLba(BlockAddressError),
}

/// The READ CAPACITY command: a 10-byte CDB with only the operation code and
/// the control byte set.
#[derive(Clone, Copy, Debug)]
pub struct ReadCapacity {
    pub control: Control,
}

impl ReadCapacity {
    /// A READ CAPACITY command.
    pub fn new(control: Control) -> (r: ReadCapacity)
        ensures
            r.control == control,
    {
        ReadCapacity { control }
    }
}

impl Cdb for ReadCapacity {
    open spec fn wf(&self) -> bool {
        true
    }

    open spec fn spec_cdb(&self) -> Seq<u8> {
        seq![READ_CAPACITY_OP_CODE, 0u8, 0u8, 0u8, 0u8, 0u8, 0u8, 0u8, 0u8, self.control.0]
    }

    open spec fn spec_allocation_len(&self) -> usize {
        READ_CAPACITY_RESPONSE_LEN
    }

    fn as_cdb(&self) -> (r: Vec<u8>) {
        let mut bytes: Vec<u8> = Vec::new();
        bytes.push(READ_CAPACITY_OP_CODE);
        let mut i: usize = 0;
        while i < 8
            invariant
                i <= 8,
                bytes@.len() == i + 1,
                bytes@[0] == READ_CAPACITY_OP_CODE,
                forall|j: int| 1 <= j <= i ==> bytes@[j] == 0u8,
            decreases 8 - i,
        {
            bytes.push(0);
            i = i + 1;
        }
        bytes.push(self.control.raw());
        proof {
            assert(bytes@ =~= self.spec_cdb());
        }
        bytes
    }

    fn allocation_len(&self) -> (r: usize) {
        READ_CAPACITY_RESPONSE_LEN
    }
}

/// A decoded READ CAPACITY response.
#[derive(Clone, Copy, Debug, PartialEq, Eq, Structural)]
pub struct ReadCapacityResponse {
    /// The last addressable logical block of the medium.
    pub lba: Lba,
    /// Bytes per logical block; 2048 for virtually all discs.
    pub block_length_bytes: u32,
}

impl ReadCapacityResponse {
    /// Decodes a READ CAPACITY response: a big-endian LBA, validated against
    /// the MMC-6 interval, then a big-endian block length.
    pub fn try_from(value: Vec<u8>) -> (r: Result<ReadCapacityResponse, Error>)
        ensures
            value@.len() < 8 <==> r == Err::<ReadCapacityResponse, Error>(
                Error::IncompleteResponse(value@.len() as usize),
            ),
            value@.len() >= 8 ==> ({
                let lba = spec_be32_signed(value@[0], value@[1], value@[2], value@[3]);
                if LBA_MIN <= lba <= LBA_MAX {
                    r == Ok::<ReadCapacityResponse, Error>(
                        (ReadCapacityResponse {
                            lba: Lba(lba as i32),
                            block_length_bytes: (spec_be32(
                                value@[4],
                                value@[5],
                                value@[6],
                                value@[7],
                            ) as u32),
                        }),
                    )
                } else {
                    r == Err::<ReadCapacityResponse, Error>(
                        Error::InvalidLba(BlockAddressError::OutOfRange),
                    )
                }
            }),
    {
        let res_len = value.len();
        if res_len < READ_CAPACITY_RESPONSE_LEN {
            return Err(Error::IncompleteResponse(res_len));
        }
        let lba_raw = be32_signed(value[0], value[1], value[2], value[3]);
        let lba = match Lba::try_from(lba_raw) {
            Ok(lba) => lba,
            Err(e) => {
                return Err(Error::InvalidLba(e));
            },
        };
        let block_length_bytes = be32(value[4], value[5], value[6], value[7]);
        Ok(ReadCapacityResponse { lba, block_length_bytes })
    }
}

} // verus!
