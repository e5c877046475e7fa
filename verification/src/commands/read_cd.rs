//! READ CD (operation code 0xBE): reads sectors by Logical Block Address
//! with a caller-selected expected sector type, main-channel field selection,
//! C2 error information and sub-channel selection. Includes the sequential
//! sector-streaming planner that splits a large read into bounded calls.

use vstd::prelude::*;
use crate::addressing::{Lba, LBA_MIN, LBA_MAX};
use crate::cdb::{Cdb, Control};
use crate::util::{be24, be24_bytes, be32_signed, be32_signed_bytes, spec_be24, spec_be32_signed, spec_i32_as_u32};

verus! {

/// Operation code of READ CD.
pub const READ_CD_OP_CODE: u8 = 0xBE;

/// Bytes of user data per CD-DA sector, the largest per-sector payload.
pub const CDDA_USER_DATA_SIZE: usize = 2352;

/// Bytes of user data per Mode 1 sector.
pub const MODE1_USER_DATA_SIZE: usize = 2048;

/// Bytes of user data per formless Mode 2 sector.
pub const MODE2_FORMLESS_USER_DATA_SIZE: usize = 2336;

/// Bytes of user data per Mode 2 Form 1 sector.
pub const MODE2_FORM1_USER_DATA_SIZE: usize = 2048;

/// Bytes of user data per Mode 2 Form 2 sector.
pub const MODE2_FORM2_USER_DATA_SIZE: usize = 2324;

/// Largest transfer length the 24-bit CDB field can carry.
pub const MAX_TRANSFER_LENGTH: u32 = 0xFFFFFF;

/// Sectors per streaming call: 27 CD-DA sectors are just under 64 KiB, a
/// common controller buffer limit.
pub const MAX_SECTORS_PER_READ: u32 = 27;

/// Rejected field values of a READ CD command or CDB.
#[derive(Clone, Copy, Debug, PartialEq, Eq, Structural)]
pub enum Error {
    /// A CDB whose first byte is not the READ CD operation code.
    IncorrectOpCode(u8),
    InvalidSectorType(u8),
    InvalidTransferLength(u32),
    /// A CDB whose address bytes decode outside the valid LBA interval.
    InvalidLba(i32),
    InvalidC2ErrorCode(u8),
    InvalidSubChannelSelection(u8),
}

/// Expected sector type of the blocks to read.
#[derive(Clone, Copy, Debug, PartialEq, Eq, Structural)]
pub enum SectorType {
    AllTypes,
    CdDa,
    Mode1,
    Mode2Formless,
    Mode2Form1,
    Mode2Form2,
}

impl SectorType {
    /// The three-bit field value of this sector type.
    pub open spec fn spec_as_u8(self) -> u8 {
        match self {
            SectorType::AllTypes => 0,
            SectorType::CdDa => 1,
            SectorType::Mode1 => 2,
            SectorType::Mode2Formless => 3,
            SectorType::Mode2Form1 => 4,
            SectorType::Mode2Form2 => 5,
        }
    }

    /// Encodes this sector type as its three-bit field value.
    pub fn as_u8(self) -> (r: u8)
        ensures
            r == self.spec_as_u8(),
    {
        match self {
            SectorType::AllTypes => 0,
            SectorType::CdDa => 1,
            SectorType::Mode1 => 2,
            SectorType::Mode2Formless => 3,
            SectorType::Mode2Form1 => 4,
            SectorType::Mode2Form2 => 5,
        }
    }

    /// Decodes a three-bit field value; exactly the values 0 through 5 name
    /// a sector type.
    pub fn try_from_u8(v: u8) -> (r: Result<SectorType, Error>)
        ensures
            v <= 5 ==> (r matches Ok(t) && t.spec_as_u8() == v),
            v > 5 ==> r == Err::<SectorType, Error>(Error::InvalidSectorType(v)),
    {
        match v {
            0 => Ok(SectorType::AllTypes),
            1 => Ok(SectorType::CdDa),
            2 => Ok(SectorType::Mode1),
            3 => Ok(SectorType::Mode2Formless),
            4 => Ok(SectorType::Mode2Form1),
            5 => Ok(SectorType::Mode2Form2),
            _ => Err(Error::InvalidSectorType(v)),
        }
    }

    /// Bytes of user data per sector of this type. `AllTypes` allocates for
    /// the largest possible sector.
    pub open spec fn spec_user_data_size(self) -> usize {
        match self {
            SectorType::AllTypes => CDDA_USER_DATA_SIZE,
            SectorType::CdDa => CDDA_USER_DATA_SIZE,
            SectorType::Mode1 => MODE1_USER_DATA_SIZE,
            SectorType::Mode2Formless => MODE2_FORMLESS_USER_DATA_SIZE,
            SectorType::Mode2Form1 => MODE2_FORM1_USER_DATA_SIZE,
            SectorType::Mode2Form2 => MODE2_FORM2_USER_DATA_SIZE,
        }
    }

    /// Bytes of user data per sector of this type.
    pub fn user_data_size(self) -> (r: usize)
        ensures
            r == self.spec_user_data_size(),
    {
        match self {
            SectorType::AllTypes => CDDA_USER_DATA_SIZE,
            SectorType::CdDa => CDDA_USER_DATA_SIZE,
            SectorType::Mode1 => MODE1_USER_DATA_SIZE,
            SectorType::Mode2Formless => MODE2_FORMLESS_USER_DATA_SIZE,
            SectorType::Mode2Form1 => MODE2_FORM1_USER_DATA_SIZE,
            SectorType::Mode2Form2 => MODE2_FORM2_USER_DATA_SIZE,
        }
    }
}

/// Selection of main-channel fields to return per sector.
#[derive(Clone, Copy, Debug, PartialEq, Eq, Structural)]
pub struct MainChannelFlags {
    pub sync: bool,
    pub subheader: bool,
    pub header: bool,
    pub user_data: bool,
    pub edc_ecc: bool,
}

impl MainChannelFlags {
    /// The empty selection.
    pub open spec fn spec_empty() -> MainChannelFlags {
        MainChannelFlags {
            sync: false,
            subheader: false,
            header: false,
            user_data: false,
            edc_ecc: false,
        }
    }

    /// The flag byte these selections pack into (bits 7 through 3).
    pub open spec fn spec_bits(self) -> u8 {
        ((if self.sync {
            0x80u8
        } else {
            0u8
        }) + (if self.subheader {
            0x40u8
        } else {
            0u8
        }) + (if self.header {
            0x20u8
        } else {
            0u8
        }) + (if self.user_data {
            0x10u8
        } else {
            0u8
        }) + (if self.edc_ecc {
            0x08u8
        } else {
            0u8
        })) as u8
    }

    /// Packs the selections into their flag byte.
    pub fn bits(self) -> (r: u8)
        ensures
            r == self.spec_bits(),
    {
        let mut r: u8 = 0;
        if self.sync {
            r = r + 0x80;
        }
        if self.subheader {
            r = r + 0x40;
        }
        if self.header {
            r = r + 0x20;
        }
        if self.user_data {
            r = r + 0x10;
        }
        if self.edc_ecc {
            r = r + 0x08;
        }
        r
    }

    /// No main-channel field selected.
    pub fn empty() -> (r: MainChannelFlags)
        ensures
            r == (MainChannelFlags {
                sync: false,
                subheader: false,
                header: false,
                user_data: false,
                edc_ecc: false,
            }),
    {
        MainChannelFlags { sync: false, subheader: false, header: false, user_data: false, edc_ecc: false }
    }

    /// Only the user-data field selected.
    pub fn user_data_only() -> (r: MainChannelFlags)
        ensures
            r == (MainChannelFlags {
                sync: false,
                subheader: false,
                header: false,
                user_data: true,
                edc_ecc: false,
            }),
    {
        MainChannelFlags { sync: false, subheader: false, header: false, user_data: true, edc_ecc: false }
    }
}

/// Requested form of C2 error information.
#[derive(Clone, Copy, Debug, PartialEq, Eq, Structural)]
pub enum C2ErrorCode {
    /// No C2 error information.
    NoErrorInfo,
    /// One error bit per main-channel byte: 294 bytes of C2 error bits
    /// appended to the data stream.
    ErrorBits,
    /// A block error byte (the logical OR of the 294 C2 bytes), a pad byte,
    /// then the 294 bytes of C2 error bits.
    BlockErrorByte,
}

impl C2ErrorCode {
    /// The two-bit field value of this selection.
    pub open spec fn spec_as_u8(self) -> u8 {
        match self {
            C2ErrorCode::NoErrorInfo => 0,
            C2ErrorCode::ErrorBits => 1,
            C2ErrorCode::BlockErrorByte => 2,
        }
    }

    /// Encodes this selection as its two-bit field value.
    pub fn as_u8(self) -> (r: u8)
        ensures
            r == self.spec_as_u8(),
    {
        match self {
            C2ErrorCode::NoErrorInfo => 0,
            C2ErrorCode::ErrorBits => 1,
            C2ErrorCode::BlockErrorByte => 2,
        }
    }

    /// Decodes a two-bit field value; exactly 0, 1 and 2 name a selection.
    pub fn try_from_u8(v: u8) -> (r: Result<C2ErrorCode, Error>)
        ensures
            v <= 2 ==> (r matches Ok(t) && t.spec_as_u8() == v),
            v > 2 ==> r == Err::<C2ErrorCode, Error>(Error::InvalidC2ErrorCode(v)),
    {
        match v {
            0 => Ok(C2ErrorCode::NoErrorInfo),
            1 => Ok(C2ErrorCode::ErrorBits),
            2 => Ok(C2ErrorCode::BlockErrorByte),
            _ => Err(Error::InvalidC2ErrorCode(v)),
        }
    }
}

/// Requested sub-channel data.
#[derive(Clone, Copy, Debug, PartialEq, Eq, Structural)]
pub enum SubChannelSelection {
    NoSubChannel,
    QSubChannel,
    RWSubChannel,
}

impl SubChannelSelection {
    /// The three-bit field value of this selection.
    pub open spec fn spec_as_u8(self) -> u8 {
        match self {
            SubChannelSelection::NoSubChannel => 0,
            SubChannelSelection::QSubChannel => 2,
            SubChannelSelection::RWSubChannel => 4,
        }
    }

    /// Encodes this selection as its three-bit field value.
    pub fn as_u8(self) -> (r: u8)
        ensures
            r == self.spec_as_u8(),
    {
        match self {
            SubChannelSelection::NoSubChannel => 0,
            SubChannelSelection::QSubChannel => 2,
            SubChannelSelection::RWSubChannel => 4,
        }
    }

    /// Decodes a three-bit field value; exactly 0, 2 and 4 name a selection.
    pub fn try_from_u8(v: u8) -> (r: Result<SubChannelSelection, Error>)
        ensures
            v == 0 ==> r == Ok::<SubChannelSelection, Error>(SubChannelSelection::NoSubChannel),
            v == 2 ==> r == Ok::<SubChannelSelection, Error>(SubChannelSelection::QSubChannel),
            v == 4 ==> r == Ok::<SubChannelSelection, Error>(SubChannelSelection::RWSubChannel),
            v != 0 && v != 2 && v != 4 ==> r == Err::<SubChannelSelection, Error>(
                Error::InvalidSubChannelSelection(v),
            ),
    {
        match v {
            0 => Ok(SubChannelSelection::NoSubChannel),
            2 => Ok(SubChannelSelection::QSubChannel),
            4 => Ok(SubChannelSelection::RWSubChannel),
            _ => Err(Error::InvalidSubChannelSelection(v)),
        }
    }
}

/// The READ CD command: a 12-byte CDB.
#[derive(Clone, Copy, Debug, PartialEq, Eq, Structural)]
pub struct ReadCD {
    pub sector_type: SectorType,
    /// Digital audio play: report errors by the audio error model.
    pub dap: bool,
    pub starting_lba: Lba,
    /// Number of sectors to transfer; a 24-bit field.
    pub transfer_length: u32,
    pub main_channel: MainChannelFlags,
    pub c2_error_info: C2ErrorCode,
    pub sub_channel: SubChannelSelection,
    pub control: Control,
}

impl ReadCD {
    /// A command with no field selected: all sector types accepted, zero
    /// sectors from LBA 0, nothing returned per sector.
    pub fn new() -> (r: ReadCD)
        ensures
            r.sector_type == SectorType::AllTypes,
            r.dap == false,
            r.starting_lba == Lba(0),
            r.transfer_length == 0,
            r.main_channel == MainChannelFlags::spec_empty(),
            r.c2_error_info == C2ErrorCode::NoErrorInfo,
            r.sub_channel == SubChannelSelection::NoSubChannel,
            r.control == Control(0),
            r.wf(),
    {
        ReadCD {
            sector_type: SectorType::AllTypes,
            dap: false,
            starting_lba: Lba(0),
            transfer_length: 0,
            main_channel: MainChannelFlags::empty(),
            c2_error_info: C2ErrorCode::NoErrorInfo,
            sub_channel: SubChannelSelection::NoSubChannel,
            control: Control(0),
        }
    }
}

impl Cdb for ReadCD {
    /// The command is well-formed when its LBA is valid, the transfer length
    /// fits the 24-bit field, and the allocation it implies fits the machine.
    open spec fn wf(&self) -> bool {
        &&& self.starting_lba.valid()
        &&& self.transfer_length <= MAX_TRANSFER_LENGTH
        &&& self.transfer_length * self.sector_type.spec_user_data_size() <= usize::MAX
    }

    open spec fn spec_cdb(&self) -> Seq<u8> {
        seq![
            READ_CD_OP_CODE,
            ((self.sector_type.spec_as_u8() * 4) + (if self.dap {
                2u8
            } else {
                0u8
            })) as u8,
        ] + spec_lba_bytes(self.starting_lba.0) + spec_len_bytes(self.transfer_length) + seq![
            ((self.main_channel.spec_bits() + self.c2_error_info.spec_as_u8() * 2) as u8),
            self.sub_channel.spec_as_u8(),
            self.control.0,
        ]
    }

    open spec fn spec_allocation_len(&self) -> usize {
        (self.transfer_length * self.sector_type.spec_user_data_size()) as usize
    }

    fn as_cdb(&self) -> (r: Vec<u8>) {
        let mut bytes: Vec<u8> = Vec::new();
        bytes.push(READ_CD_OP_CODE);
        bytes.push(self.sector_type.as_u8() * 4 + (if self.dap {
            2
        } else {
            0
        }));
        let (l0, l1, l2, l3) = be32_signed_bytes(self.starting_lba.0);
        bytes.push(l0);
        bytes.push(l1);
        bytes.push(l2);
        bytes.push(l3);
        let (t0, t1, t2) = be24_bytes(self.transfer_length);
        bytes.push(t0);
        bytes.push(t1);
        bytes.push(t2);
        bytes.push(self.main_channel.bits() + self.c2_error_info.as_u8() * 2);
        bytes.push(self.sub_channel.as_u8());
        bytes.push(self.control.raw());
        proof {
            assert(bytes@ =~= self.spec_cdb());
        }
        bytes
    }

    fn allocation_len(&self) -> (r: usize) {
        self.transfer_length as usize * self.sector_type.user_data_size()
    }
}

/// The four big-endian bytes of the two's-complement encoding of an LBA:
/// bytes 2 through 5 of the CDB.
pub open spec fn spec_lba_bytes(v: i32) -> Seq<u8> {
    seq![
        (spec_i32_as_u32(v) / 0x1000000) as u8,
        ((spec_i32_as_u32(v) / 0x10000) % 0x100) as u8,
        ((spec_i32_as_u32(v) / 0x100) % 0x100) as u8,
        (spec_i32_as_u32(v) % 0x100) as u8,
    ]
}

/// The three big-endian bytes of a 24-bit transfer length: bytes 6 through 8
/// of the CDB.
pub open spec fn spec_len_bytes(v: u32) -> Seq<u8> {
    seq![(v / 0x10000) as u8, ((v / 0x100) % 0x100) as u8, (v % 0x100) as u8]
}

impl ReadCD {
    /// Sets the number of sectors to transfer, validating the 24-bit field:
    /// values above 16777215 are rejected and leave the command unchanged.
    pub fn set_transfer_length(&mut self, transfer_length: u32) -> (r: Result<(), Error>)
        ensures
            transfer_length <= MAX_TRANSFER_LENGTH ==> (r is Ok && *final(self) == (ReadCD {
                transfer_length,
                ..*old(self)
            })),
            transfer_length > MAX_TRANSFER_LENGTH ==> r == Err::<(), Error>(
                Error::InvalidTransferLength(transfer_length),
            ) && *final(self) == *old(self),
    {
        if transfer_length > MAX_TRANSFER_LENGTH {
            return Err(Error::InvalidTransferLength(transfer_length));
        }
        self.transfer_length = transfer_length;
        Ok(())
    }

    /// Decodes a 12-byte READ CD CDB back into its typed command. The
    /// operation code, sector type, LBA, C2 selection and sub-channel
    /// selection must each be valid; unknown main-channel bits are dropped.
    pub fn try_from(bytes: &[u8]) -> (r: Result<ReadCD, Error>)
        requires
            bytes@.len() == 12,
        ensures
            bytes@[0] != READ_CD_OP_CODE ==> r == Err::<ReadCD, Error>(
                Error::IncorrectOpCode(bytes@[0]),
            ),
            bytes@[0] == READ_CD_OP_CODE && bytes@[1] >> 2 > 5 ==> r == Err::<ReadCD, Error>(
                Error::InvalidSectorType((bytes@[1] >> 2) as u8),
            ),
            bytes@[0] == READ_CD_OP_CODE && bytes@[1] >> 2 <= 5 && !(LBA_MIN <= spec_be32_signed(
                bytes@[2],
                bytes@[3],
                bytes@[4],
                bytes@[5],
            ) <= LBA_MAX) ==> r == Err::<ReadCD, Error>(
                Error::InvalidLba(
                    (spec_be32_signed(bytes@[2], bytes@[3], bytes@[4], bytes@[5]) as i32),
                ),
            ),
            bytes@[0] == READ_CD_OP_CODE && bytes@[1] >> 2 <= 5 && LBA_MIN <= spec_be32_signed(
                bytes@[2],
                bytes@[3],
                bytes@[4],
                bytes@[5],
            ) <= LBA_MAX && (bytes@[9] & 6) >> 1 > 2 ==> r == Err::<ReadCD, Error>(
                Error::InvalidC2ErrorCode(((bytes@[9] & 6) >> 1) as u8),
            ),
            bytes@[0] == READ_CD_OP_CODE && bytes@[1] >> 2 <= 5 && LBA_MIN <= spec_be32_signed(
                bytes@[2],
                bytes@[3],
                bytes@[4],
                bytes@[5],
            ) <= LBA_MAX && (bytes@[9] & 6) >> 1 <= 2 && !(bytes@[10] & 7 == 0 || bytes@[10] & 7
                == 2 || bytes@[10] & 7 == 4) ==> r == Err::<ReadCD, Error>(
                Error::InvalidSubChannelSelection((bytes@[10] & 7) as u8),
            ),
            bytes@[0] == READ_CD_OP_CODE && bytes@[1] >> 2 <= 5 && LBA_MIN <= spec_be32_signed(
                bytes@[2],
                bytes@[3],
                bytes@[4],
                bytes@[5],
            ) <= LBA_MAX && (bytes@[9] & 6) >> 1 <= 2 && (bytes@[10] & 7 == 0 || bytes@[10] & 7
                == 2 || bytes@[10] & 7 == 4) ==> (r matches Ok(cmd) && {
                &&& cmd.sector_type.spec_as_u8() == bytes@[1] >> 2
                &&& cmd.dap == ((bytes@[1] >> 1) & 1 == 1)
                &&& cmd.starting_lba == Lba(
                    (spec_be32_signed(bytes@[2], bytes@[3], bytes@[4], bytes@[5]) as i32),
                )
                &&& cmd.transfer_length == spec_be24(bytes@[6], bytes@[7], bytes@[8])
                &&& cmd.main_channel == (MainChannelFlags {
                    sync: bytes@[9] & 0x80 != 0,
                    subheader: bytes@[9] & 0x40 != 0,
                    header: bytes@[9] & 0x20 != 0,
                    user_data: bytes@[9] & 0x10 != 0,
                    edc_ecc: bytes@[9] & 0x08 != 0,
                })
                &&& cmd.c2_error_info.spec_as_u8() == (bytes@[9] & 6) >> 1
                &&& cmd.sub_channel.spec_as_u8() == bytes@[10] & 7
                &&& cmd.control == Control(bytes@[11])
            }),
    {
        if bytes[0] != READ_CD_OP_CODE {
            return Err(Error::IncorrectOpCode(bytes[0]));
        }
        let sector_type = match SectorType::try_from_u8(bytes[1] >> 2) {
            Ok(t) => t,
            Err(e) => {
                return Err(e);
            },
        };
        let dap = (bytes[1] >> 1) & 1 == 1;
        let lba_raw = be32_signed(bytes[2], bytes[3], bytes[4], bytes[5]);
        let starting_lba = match Lba::try_from(lba_raw) {
            Ok(lba) => lba,
            Err(_) => {
                return Err(Error::InvalidLba(lba_raw));
            },
        };
        let transfer_length = be24(bytes[6], bytes[7], bytes[8]);
        let main_channel = MainChannelFlags {
            sync: bytes[9] & 0x80 != 0,
            subheader: bytes[9] & 0x40 != 0,
            header: bytes[9] & 0x20 != 0,
            user_data: bytes[9] & 0x10 != 0,
            edc_ecc: bytes[9] & 0x08 != 0,
        };
        let c2_error_info = match C2ErrorCode::try_from_u8((bytes[9] & 6) >> 1) {
            Ok(c) => c,
            Err(e) => {
                return Err(e);
            },
        };
        let sub_channel = match SubChannelSelection::try_from_u8(bytes[10] & 7) {
            Ok(s) => s,
            Err(e) => {
                return Err(e);
            },
        };
        let control = Control(bytes[11]);
        Ok(
            ReadCD {
                sector_type,
                dap,
                starting_lba,
                transfer_length,
                main_channel,
                c2_error_info,
                sub_channel,
                control,
            },
        )
    }
}

/// Law: the CDB a well-formed READ CD command encodes decodes back to the
/// command exactly. Each decoded field below is the expression the decoder's
/// contract recovers from the bytes, so decoding an encoded command passes
/// every validation and returns the original field values.
pub proof fn lemma_read_cd_cdb_round_trip(cmd: ReadCD)
    requires
        cmd.wf(),
    ensures
        ({
            let b = cmd.spec_cdb();
            &&& b.len() == 12
            &&& b[0] == READ_CD_OP_CODE
            &&& b[1] >> 2 == cmd.sector_type.spec_as_u8()
            &&& ((b[1] >> 1) & 1 == 1) == cmd.dap
            &&& spec_be32_signed(b[2], b[3], b[4], b[5]) == cmd.starting_lba.0
            &&& spec_be24(b[6], b[7], b[8]) == cmd.transfer_length
            &&& (b[9] & 0x80 != 0) == cmd.main_channel.sync
            &&& (b[9] & 0x40 != 0) == cmd.main_channel.subheader
            &&& (b[9] & 0x20 != 0) == cmd.main_channel.header
            &&& (b[9] & 0x10 != 0) == cmd.main_channel.user_data
            &&& (b[9] & 0x08 != 0) == cmd.main_channel.edc_ecc
            &&& (b[9] & 6) >> 1 == cmd.c2_error_info.spec_as_u8()
            &&& b[10] & 7 == cmd.sub_channel.spec_as_u8()
            &&& b[11] == cmd.control.0
        }),
{
    let b = cmd.spec_cdb();
    let st = cmd.sector_type.spec_as_u8();
    let d: u8 = if cmd.dap {
        2
    } else {
        0
    };
    let b1: u8 = (st * 4 + d) as u8;
    assert(b[1] == b1);
    assert(b1 >> 2 == st && ((b1 >> 1) & 1 == 1) == (d == 2)) by (bit_vector)
        requires
            st <= 5 && (d == 0 || d == 2) && b1 == (st * 4 + d) as u8,
    ;
    crate::util::lemma_be32_signed_recompose(cmd.starting_lba.0);
    let v = cmd.transfer_length;
    let t0: u8 = (v / 0x10000) as u8;
    let t1: u8 = ((v / 0x100) % 0x100) as u8;
    let t2: u8 = (v % 0x100) as u8;
    assert(b[6] == t0 && b[7] == t1 && b[8] == t2);
    assert((t0 as u32) * 0x10000 + (t1 as u32) * 0x100 + (t2 as u32) == v) by (bit_vector)
        requires
            v < 0x1000000u32 && t0 == (v / 0x10000) as u8 && t1 == ((v / 0x100) % 0x100) as u8
                && t2 == (v % 0x100) as u8,
    ;
    let m = cmd.main_channel.spec_bits();
    let c2 = cmd.c2_error_info.spec_as_u8();
    let s80: u8 = if cmd.main_channel.sync {
        0x80
    } else {
        0
    };
    let s40: u8 = if cmd.main_channel.subheader {
        0x40
    } else {
        0
    };
    let s20: u8 = if cmd.main_channel.header {
        0x20
    } else {
        0
    };
    let s10: u8 = if cmd.main_channel.user_data {
        0x10
    } else {
        0
    };
    let s08: u8 = if cmd.main_channel.edc_ecc {
        0x08
    } else {
        0
    };
    let b9: u8 = (m + c2 * 2) as u8;
    assert(b[9] == b9);
    assert((b9 & 0x80 == s80) && (b9 & 0x40 == s40) && (b9 & 0x20 == s20) && (b9 & 0x10 == s10)
        && (b9 & 0x08 == s08) && ((b9 & 6) >> 1 == c2)) by (bit_vector)
        requires
            (s80 == 0 || s80 == 0x80) && (s40 == 0 || s40 == 0x40) && (s20 == 0 || s20 == 0x20)
                && (s10 == 0 || s10 == 0x10) && (s08 == 0 || s08 == 0x08) && c2 <= 2 && b9 == (s80
                + s40 + s20 + s10 + s08 + c2 * 2) as u8,
    ;
    let sub = cmd.sub_channel.spec_as_u8();
    assert(b[10] == sub);
    assert(sub & 7 == sub) by (bit_vector)
        requires
            sub == 0 || sub == 2 || sub == 4,
    ;
}

/// Sequentially plans a large read as repeated bounded READ CD commands:
/// each command reads at most 27 sectors, the starting address advances by
/// the sectors planned, and the sequence ends when the requested total is
/// exhausted. Forward-only and non-restartable; a caller that sees a failed
/// execution stops asking for commands.
pub struct SectorReader {
    /// LBA the next command starts at.
    pub next_lba: i32,
    /// Sectors still to plan.
    pub remaining: u32,
}

impl SectorReader {
    /// All sectors still to read lie inside the valid LBA interval.
    pub open spec fn valid(self) -> bool {
        LBA_MIN <= self.next_lba && self.next_lba + self.remaining <= LBA_MAX + 1
    }

    /// Plans a read of `sectors` sectors starting at `start`.
    pub fn new(start: Lba, sectors: u32) -> (r: SectorReader)
        requires
            start.valid(),
            start.0 + sectors <= LBA_MAX + 1,
        ensures
            r.valid(),
            r.next_lba == start.0,
            r.remaining == sectors,
    {
        SectorReader { next_lba: start.0, remaining: sectors }
    }

    /// The next command of the sequence: `None` when the request is
    /// exhausted, otherwise a READ CD of all sector types returning user
    /// data for the smaller of the remaining total and the 27-sector cap,
    /// starting where the previous command ended.
    pub fn next_command(&mut self) -> (r: Option<ReadCD>)
        requires
            old(self).valid(),
        ensures
            final(self).valid(),
            old(self).remaining == 0 ==> r is None && *final(self) == *old(self),
            old(self).remaining > 0 ==> {
                let n = if old(self).remaining < MAX_SECTORS_PER_READ {
                    old(self).remaining
                } else {
                    MAX_SECTORS_PER_READ
                };
                &&& r matches Some(cmd)
                &&& cmd.wf()
                &&& cmd.starting_lba == Lba(old(self).next_lba)
                &&& cmd.transfer_length == n
                &&& cmd.sector_type == SectorType::AllTypes
                &&& cmd.main_channel == (MainChannelFlags {
                    sync: false,
                    subheader: false,
                    header: false,
                    user_data: true,
                    edc_ecc: false,
                })
                &&& final(self).next_lba == old(self).next_lba + n
                &&& final(self).remaining == old(self).remaining - n
            },
    {
        if self.remaining == 0 {
            return None;
        }
        let n = if self.remaining < MAX_SECTORS_PER_READ {
            self.remaining
        } else {
            MAX_SECTORS_PER_READ
        };
        let mut cmd = ReadCD::new();
        cmd.starting_lba = Lba(self.next_lba);
        cmd.transfer_length = n;
        cmd.main_channel = MainChannelFlags::user_data_only();
        self.next_lba = self.next_lba + n as i32;
        self.remaining = self.remaining - n;
        Some(cmd)
    }
}

} // verus!
