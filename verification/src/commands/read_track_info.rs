//! READ TRACK INFORMATION (operation code 0x52): reports the layout and
//! state of one logical track, addressed by LBA, logical track number or
//! session number.

use vstd::prelude::*;
use crate::cdb::{Cdb, Control};
use crate::util::{
    be16, be32, be32_signed, be16_bytes, be32_bytes, spec_be16, spec_be32, spec_be32_signed,
};

verus! {

/// Operation code of READ TRACK INFORMATION.
pub const READ_TRACK_INFO_OP_CODE: u8 = 0x52;

/// Response bytes the command allocates.
pub const READ_TRACK_INFO_ALLOCATION_LEN: u16 = 50;

/// Bytes of the response the decoder reads: the fixed fields end with the
/// last layer-jump address at byte 48.
pub const MIN_TRACK_INFO_RESPONSE_LEN: usize = 48;

/// A malformed READ TRACK INFORMATION response.
#[derive(Clone, Copy, Debug, PartialEq, Eq, Structural)]
pub enum Error {
    /// A data-mode nibble that names no CD data mode.
    InvalidDataMode(u8),
    /// Fewer bytes than the fixed fields of the response.
    IncompleteResponse(usize),
}

/// How the address number of the command is to be read.
#[derive(Clone, Copy, Debug, PartialEq, Eq, Structural)]
pub enum AddressType {
    /// A Logical Block Address.
    Lba,
    /// A logical track number.
    Ltn,
    /// A session number.
    SessionNum,
}

impl AddressType {
    /// The two-bit field value of this address type.
    pub open spec fn spec_as_u8(self) -> u8 {
        match self {
            AddressType::Lba => 0,
            AddressType::Ltn => 1,
            AddressType::SessionNum => 2,
        }
    }

    /// Encodes this address type as its two-bit field value.
    pub fn as_u8(self) -> (r: u8)
        ensures
            r == self.spec_as_u8(),
    {
        match self {
            AddressType::Lba => 0,
            AddressType::Ltn => 1,
            AddressType::SessionNum => 2,
        }
    }
}

/// The READ TRACK INFORMATION command: a 10-byte CDB.
#[derive(Clone, Copy, Debug)]
pub struct ReadTrackInfo {
    /// Report the incomplete track whose number the address names.
    pub open_track: bool,
    pub address_type: AddressType,
    pub address_number: u32,
    pub allocation_length: u16,
    pub control: Control,
}

impl ReadTrackInfo {
    /// A command asking for the track the address names, allocating the
    /// standard 50-byte response.
    pub fn new(open_track: bool, address_type: AddressType, address_number: u32, control: Control)
        -> (r: ReadTrackInfo)
        ensures
            r.open_track == open_track,
            r.address_type == address_type,
            r.address_number == address_number,
            r.allocation_length == READ_TRACK_INFO_ALLOCATION_LEN,
            r.control == control,
    {
        ReadTrackInfo {
            open_track,
            address_type,
            address_number,
            allocation_length: 50,
            control,
        }
    }
}

impl Cdb for ReadTrackInfo {
    open spec fn wf(&self) -> bool {
        true
    }

    open spec fn spec_cdb(&self) -> Seq<u8> {
        seq![
            READ_TRACK_INFO_OP_CODE,
            (((if self.open_track {
                4u8
            } else {
                0u8
            }) + self.address_type.spec_as_u8()) as u8),
            (self.address_number / 0x1000000) as u8,
            ((self.address_number / 0x10000) % 0x100) as u8,
            ((self.address_number / 0x100) % 0x100) as u8,
            (self.address_number % 0x100) as u8,
            0u8,
            (self.allocation_length / 256) as u8,
            (self.allocation_length % 256) as u8,
            self.control.0,
        ]
    }

    open spec fn spec_allocation_len(&self) -> usize {
        self.allocation_length as usize
    }

    fn as_cdb(&self) -> (r: Vec<u8>) {
        let mut bytes: Vec<u8> = Vec::new();
        bytes.push(READ_TRACK_INFO_OP_CODE);
        bytes.push((if self.open_track {
            4
        } else {
            0
        }) + self.address_type.as_u8());
        let (a0, a1, a2, a3) = be32_bytes(self.address_number);
        bytes.push(a0);
        bytes.push(a1);
        bytes.push(a2);
        bytes.push(a3);
        bytes.push(0);
        let (l0, l1) = be16_bytes(self.allocation_length);
        bytes.push(l0);
        bytes.push(l1);
        bytes.push(self.control.raw());
        proof {
            assert(bytes@ =~= self.spec_cdb());
        }
        bytes
    }

    fn allocation_len(&self) -> (r: usize) {
        self.allocation_length as usize
    }
}

/// Layer-jump recording status of the track.
#[derive(Clone, Copy, Debug, PartialEq, Eq, Structural)]
pub enum LayerJumpRecordingStatus {
    NoJumps,
    Unspecified,
    Manual,
    RegularInterval,
}

impl LayerJumpRecordingStatus {
    /// The status named by the low two bits of a value; total.
    pub open spec fn spec_from(value: u8) -> LayerJumpRecordingStatus {
        if value & 3 == 0 {
            LayerJumpRecordingStatus::NoJumps
        } else if value & 3 == 1 {
            LayerJumpRecordingStatus::Unspecified
        } else if value & 3 == 2 {
            LayerJumpRecordingStatus::Manual
        } else {
            LayerJumpRecordingStatus::RegularInterval
        }
    }

    /// Decodes the low two bits of a layer-jump-recording-status field.
    pub fn from(value: u8) -> (r: LayerJumpRecordingStatus)
        ensures
            r == LayerJumpRecordingStatus::spec_from(value),
    {
        let v = value & 3;
        if v == 0 {
            LayerJumpRecordingStatus::NoJumps
        } else if v == 1 {
            LayerJumpRecordingStatus::Unspecified
        } else if v == 2 {
            LayerJumpRecordingStatus::Manual
        } else {
            LayerJumpRecordingStatus::RegularInterval
        }
    }
}

/// The CD data mode of the track.
#[derive(Clone, Copy, Debug, PartialEq, Eq, Structural)]
pub enum DataMode {
    /// Mode 1.
    Mode1,
    /// Mode 2, plain or CD-ROM XA.
    Mode2,
    /// Data block type unknown: no track descriptor block.
    Unknown,
}

impl DataMode {
    /// The nibble value of this data mode.
    pub open spec fn spec_as_u8(self) -> u8 {
        match self {
            DataMode::Mode1 => 0x1,
            DataMode::Mode2 => 0x2,
            DataMode::Unknown => 0xf,
        }
    }

    /// Decodes a data-mode nibble; exactly 0x1, 0x2 and 0xF name a mode.
    pub fn try_from_u8(v: u8) -> (r: Result<DataMode, Error>)
        ensures
            v == 0x1 ==> r == Ok::<DataMode, Error>(DataMode::Mode1),
            v == 0x2 ==> r == Ok::<DataMode, Error>(DataMode::Mode2),
            v == 0xf ==> r == Ok::<DataMode, Error>(DataMode::Unknown),
            v != 0x1 && v != 0x2 && v != 0xf ==> r == Err::<DataMode, Error>(
                Error::InvalidDataMode(v),
            ),
    {
        match v {
            0x1 => Ok(DataMode::Mode1),
            0x2 => Ok(DataMode::Mode2),
            0xf => Ok(DataMode::Unknown),
            _ => Err(Error::InvalidDataMode(v)),
        }
    }
}

/// The fixed fields of a READ TRACK INFORMATION response. The track and
/// session numbers each join a least-significant byte near the start of the
/// response with a most-significant byte near its end.
#[derive(Clone, Copy, Debug, PartialEq, Eq, Structural)]
pub struct ReadTrackInfoResponse {
    pub logical_track_number: u16,
    pub session_number: u16,
    pub ljrs: LayerJumpRecordingStatus,
    pub damage: bool,
    pub copy: bool,
    pub track_mode: u8,
    pub rt: bool,
    pub blank: bool,
    pub packet_inc: bool,
    pub fp: bool,
    pub data_mode: DataMode,
    pub lra_v: bool,
    pub nwa_v: bool,
    pub logical_track_start_addr: i32,
    pub next_writable_addr: i32,
    pub free_blocks: u32,
    pub fixed_packet_size: u32,
    pub logical_track_size: u32,
    pub last_recorded_addr: i32,
    pub read_compatibility_lba: i32,
    pub next_layer_jump_addr: i32,
    pub last_layer_jump_addr: i32,
}

impl ReadTrackInfoResponse {
    /// Decodes a READ TRACK INFORMATION response bit-exactly from its
    /// documented offsets.
    pub fn try_from(value: Vec<u8>) -> (r: Result<ReadTrackInfoResponse, Error>)
        ensures
            value@.len() < 48 <==> r == Err::<ReadTrackInfoResponse, Error>(
                Error::IncompleteResponse(value@.len() as usize),
            ),
            value@.len() >= 48 && !(value@[6] & 0x0f == 0x1 || value@[6] & 0x0f == 0x2 || value@[6]
                & 0x0f == 0xf) <==> r == Err::<ReadTrackInfoResponse, Error>(
                Error::InvalidDataMode((value@[6] & 0x0f) as u8),
            ),
            value@.len() >= 48 && (value@[6] & 0x0f == 0x1 || value@[6] & 0x0f == 0x2 || value@[6]
                & 0x0f == 0xf) ==> (r matches Ok(resp) && {
                &&& resp.logical_track_number == spec_be16(value@[32], value@[2])
                &&& resp.session_number == spec_be16(value@[33], value@[3])
                &&& resp.ljrs == LayerJumpRecordingStatus::spec_from((value@[5] & 0xc0) >> 6)
                &&& resp.damage == (value@[5] & 0x20 != 0)
                &&& resp.copy == (value@[5] & 0x10 != 0)
                &&& resp.track_mode == value@[5] & 0x0f
                &&& resp.rt == (value@[6] & 0x80 != 0)
                &&& resp.blank == (value@[6] & 0x40 != 0)
                &&& resp.packet_inc == (value@[6] & 0x20 != 0)
                &&& resp.fp == (value@[6] & 0x10 != 0)
                &&& resp.data_mode.spec_as_u8() == value@[6] & 0x0f
                &&& resp.lra_v == (value@[7] & 0x02 != 0)
                &&& resp.nwa_v == (value@[7] & 0x01 != 0)
                &&& resp.logical_track_start_addr == spec_be32_signed(
                    value@[8],
                    value@[9],
                    value@[10],
                    value@[11],
                )
                &&& resp.next_writable_addr == spec_be32_signed(
                    value@[12],
                    value@[13],
                    value@[14],
                    value@[15],
                )
                &&& resp.free_blocks == spec_be32(value@[16], value@[17], value@[18], value@[19])
                &&& resp.fixed_packet_size == spec_be32(
                    value@[20],
                    value@[21],
                    value@[22],
                    value@[23],
                )
                &&& resp.logical_track_size == spec_be32(
                    value@[24],
                    value@[25],
                    value@[26],
                    value@[27],
                )
                &&& resp.last_recorded_addr == spec_be32_signed(
                    value@[28],
                    value@[29],
                    value@[30],
                    value@[31],
                )
                &&& resp.read_compatibility_lba == spec_be32_signed(
                    value@[36],
                    value@[37],
                    value@[38],
                    value@[39],
                )
                &&& resp.next_layer_jump_addr == spec_be32_signed(
                    value@[40],
                    value@[41],
                    value@[42],
                    value@[43],
                )
                &&& resp.last_layer_jump_addr == spec_be32_signed(
                    value@[44],
                    value@[45],
                    value@[46],
                    value@[47],
                )
            }),
    {
        let data_len = value.len();
        if data_len < MIN_TRACK_INFO_RESPONSE_LEN {
            return Err(Error::IncompleteResponse(data_len));
        }
        let data_mode = match DataMode::try_from_u8(value[6] & 0x0f) {
            Ok(m) => m,
            Err(e) => {
                return Err(e);
            },
        };
        Ok(
            ReadTrackInfoResponse {
                logical_track_number: be16(value[32], value[2]),
                session_number: be16(value[33], value[3]),
                ljrs: LayerJumpRecordingStatus::from((value[5] & 0xc0) >> 6),
                damage: value[5] & 0x20 != 0,
                copy: value[5] & 0x10 != 0,
                track_mode: value[5] & 0x0f,
                rt: value[6] & 0x80 != 0,
                blank: value[6] & 0x40 != 0,
                packet_inc: value[6] & 0x20 != 0,
                fp: value[6] & 0x10 != 0,
                data_mode,
                lra_v: value[7] & 0x02 != 0,
                nwa_v: value[7] & 0x01 != 0,
                logical_track_start_addr: be32_signed(value[8], value[9], value[10], value[11]),
                next_writable_addr: be32_signed(value[12], value[13], value[14], value[15]),
                free_blocks: be32(value[16], value[17], value[18], value[19]),
                fixed_packet_size: be32(value[20], value[21], value[22], value[23]),
                logical_track_size: be32(value[24], value[25], value[26], value[27]),
                last_recorded_addr: be32_signed(value[28], value[29], value[30], value[31]),
                read_compatibility_lba: be32_signed(value[36], value[37], value[38], value[39]),
                next_layer_jump_addr: be32_signed(value[40], value[41], value[42], value[43]),
                last_layer_jump_addr: be32_signed(value[44], value[45], value[46], value[47]),
            },
        )
    }
}

} // verus!
