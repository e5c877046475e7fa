//! READ TOC/PMA/ATIP (operation code 0x43): reads the table of contents.
//! The formatted-TOC command is generic over the address representation: the
//! same CDB and response layout carry either Logical Block Addresses or MSF
//! time addresses, selected by one flag bit, so the address capability is an
//! interface with exactly two implementations.

use vstd::prelude::*;
use core::marker::PhantomData;
use crate::addressing::{BlockAddressError, Lba, Msf, LBA_MIN, LBA_MAX};
use crate::cdb::{Cdb, Control};
use crate::util::{be16, be16_bytes, be32_signed, spec_be16, spec_be32_signed};

verus! {

/// Operation code of READ TOC/PMA/ATIP.
pub const READ_TOC_OP_CODE: u8 = 0x43;

/// A malformed READ TOC response.
#[derive(Clone, Copy, Debug, PartialEq, Eq, Structural)]
pub enum Error {
    /// A track's start address was out of range for the representation.
    InvalidAddress(BlockAddressError),
    /// An ADR nibble that names no Q sub-channel mode.
    InvalidAdr(u8),
    /// Fewer bytes than the four-byte TOC header.
    IncompleteHeader(usize),
}

/// An address representation a TOC can be read in: it decodes a track's
/// four raw address bytes and says whether the CDB's MSF flag must be set.
pub trait TOCAddr: Sized {
    /// Whether the CDB asks the drive for MSF addresses.
    spec fn spec_msf_flag() -> bool;

    /// The address decoded from four raw response bytes, or the rejection.
    spec fn spec_from_be_bytes(bytes: Seq<u8>) -> Result<Self, BlockAddressError>;

    /// The MSF flag bit of this representation.
    fn msf_flag() -> (r: bool)
        ensures
            r == Self::spec_msf_flag(),
    ;

    /// Decodes a track's four raw address bytes.
    fn from_be_bytes(bytes: &[u8]) -> (r: Result<Self, BlockAddressError>)
        requires
            bytes@.len() == 4,
        ensures
            r == Self::spec_from_be_bytes(bytes@),
    ;
}

impl TOCAddr for Lba {
    open spec fn spec_msf_flag() -> bool {
        false
    }

    open spec fn spec_from_be_bytes(bytes: Seq<u8>) -> Result<Lba, BlockAddressError> {
        let v = spec_be32_signed(bytes[0], bytes[1], bytes[2], bytes[3]);
        if LBA_MIN <= v <= LBA_MAX {
            Ok(Lba(v as i32))
        } else {
            Err(BlockAddressError::OutOfRange)
        }
    }

    fn msf_flag() -> (r: bool) {
        false
    }

    fn from_be_bytes(bytes: &[u8]) -> (r: Result<Lba, BlockAddressError>) {
        Lba::try_from(be32_signed(bytes[0], bytes[1], bytes[2], bytes[3]))
    }
}

impl TOCAddr for Msf {
    open spec fn spec_msf_flag() -> bool {
        true
    }

    open spec fn spec_from_be_bytes(bytes: Seq<u8>) -> Result<Msf, BlockAddressError> {
        if bytes[1] <= 99 && bytes[2] <= 59 && bytes[3] <= 74 {
            Ok(Msf(bytes[1], bytes[2], bytes[3]))
        } else {
            Err(BlockAddressError::OutOfRange)
        }
    }

    fn msf_flag() -> (r: bool) {
        true
    }

    fn from_be_bytes(bytes: &[u8]) -> (r: Result<Msf, BlockAddressError>) {
        Msf::new(bytes[1], bytes[2], bytes[3])
    }
}

/// The format field of a READ TOC command: which structure the drive shall
/// return.
#[derive(Clone, Copy, Debug, PartialEq, Eq, Structural)]
pub enum Format {
    FormattedTOC,
    MultiSessionInfo,
    RawTOC,
    Pma,
    Atip,
    CDText,
}

impl Format {
    /// The four-bit field value of this format.
    pub open spec fn spec_as_u8(self) -> u8 {
        match self {
            Format::FormattedTOC => 0,
            Format::MultiSessionInfo => 1,
            Format::RawTOC => 2,
            Format::Pma => 3,
            Format::Atip => 4,
            Format::CDText => 5,
        }
    }

    /// Encodes this format as its four-bit field value.
    pub fn as_u8(self) -> (r: u8)
        ensures
            r == self.spec_as_u8(),
    {
        match self {
            Format::FormattedTOC => 0,
            Format::MultiSessionInfo => 1,
            Format::RawTOC => 2,
            Format::Pma => 3,
            Format::Atip => 4,
            Format::CDText => 5,
        }
    }
}

/// A READ TOC command variant: a fixed format field beside the MSF flag of
/// its address representation.
pub trait TOCCommand: Cdb {
    /// The format field this command fixes.
    spec fn spec_format() -> Format;

    /// The MSF flag this command sets.
    spec fn spec_toc_msf_flag() -> bool;
}

/// The formatted-TOC command: a 10-byte CDB asking for the track list from
/// a starting track, generic over the address representation.
#[derive(Debug)]
pub struct FormattedTOC<Addr: TOCAddr> {
    /// First track the returned list starts at.
    pub track: u8,
    pub allocation_len: u16,
    pub control: Control,
    pub _addr: PhantomData<Addr>,
}

impl<Addr: TOCAddr> FormattedTOC<Addr> {
    /// A formatted-TOC command starting at `track`.
    pub fn new(track: u8, allocation_len: u16, control: Control) -> (r: FormattedTOC<Addr>)
        ensures
            r.track == track,
            r.allocation_len == allocation_len,
            r.control == control,
    {
        FormattedTOC { track, allocation_len, control, _addr: PhantomData }
    }
}

impl<Addr: TOCAddr> Cdb for FormattedTOC<Addr> {
    open spec fn wf(&self) -> bool {
        true
    }

    open spec fn spec_cdb(&self) -> Seq<u8> {
        seq![
            READ_TOC_OP_CODE,
            if Addr::spec_msf_flag() {
                2u8
            } else {
                0u8
            },
            Format::FormattedTOC.spec_as_u8(),
            0u8,
            0u8,
            0u8,
            self.track,
            (self.allocation_len / 256) as u8,
            (self.allocation_len % 256) as u8,
            self.control.0,
        ]
    }

    open spec fn spec_allocation_len(&self) -> usize {
        self.allocation_len as usize
    }

    fn as_cdb(&self) -> (r: Vec<u8>) {
        let mut bytes: Vec<u8> = Vec::new();
        bytes.push(READ_TOC_OP_CODE);
        bytes.push(if Addr::msf_flag() {
            2
        } else {
            0
        });
        bytes.push(Format::FormattedTOC.as_u8());
        bytes.push(0);
        bytes.push(0);
        bytes.push(0);
        bytes.push(self.track);
        let (a0, a1) = be16_bytes(self.allocation_len);
        bytes.push(a0);
        bytes.push(a1);
        bytes.push(self.control.raw());
        proof {
            assert(bytes@ =~= self.spec_cdb());
        }
        bytes
    }

    fn allocation_len(&self) -> (r: usize) {
        self.allocation_len as usize
    }
}

impl<Addr: TOCAddr> TOCCommand for FormattedTOC<Addr> {
    open spec fn spec_format() -> Format {
        Format::FormattedTOC
    }

    open spec fn spec_toc_msf_flag() -> bool {
        Addr::spec_msf_flag()
    }
}

/// The type of information in the Q sub-channel of the block a TOC entry
/// was found in.
#[derive(Clone, Copy, Debug, PartialEq, Eq, Structural)]
pub enum Adr {
    Mode1Q,
    Mode2Q,
    Mode3Q,
}

impl Adr {
    /// The nibble value of this mode.
    pub open spec fn spec_as_u8(self) -> u8 {
        match self {
            Adr::Mode1Q => 1,
            Adr::Mode2Q => 2,
            Adr::Mode3Q => 3,
        }
    }
}

/// The four control bits of a TOC entry, describing the track's attributes.
#[derive(Clone, Copy, Debug, PartialEq, Eq, Structural)]
pub struct TrackControl {
    /// Audio track with four channels instead of two.
    pub four_channels: bool,
    /// Data track rather than audio.
    pub is_data: bool,
    /// Digital copy permitted.
    pub copy_permitted: bool,
    /// Pre-emphasis for an audio track; incremental recording for data.
    pub preemphasis_or_incremental: bool,
}

impl TrackControl {
    /// The control bits packed in the low nibble of a value.
    pub open spec fn spec_from_bits(v: u8) -> TrackControl {
        TrackControl {
            four_channels: v & 0x08 != 0,
            is_data: v & 0x04 != 0,
            copy_permitted: v & 0x02 != 0,
            preemphasis_or_incremental: v & 0x01 != 0,
        }
    }

    /// Unpacks the control bits of a value's low nibble.
    pub fn from_bits(v: u8) -> (r: TrackControl)
        ensures
            r == TrackControl::spec_from_bits(v),
    {
        TrackControl {
            four_channels: v & 0x08 != 0,
            is_data: v & 0x04 != 0,
            copy_permitted: v & 0x02 != 0,
            preemphasis_or_incremental: v & 0x01 != 0,
        }
    }
}

/// One entry of the formatted TOC: track attributes and start address.
#[derive(Clone, Copy, Debug, PartialEq, Eq)]
pub struct TrackDescriptor<Addr: TOCAddr> {
    pub adr: Adr,
    pub control: TrackControl,
    pub number: u8,
    pub start_addr: Addr,
}

/// The descriptor encoded by one eight-byte TOC entry, or its rejection:
/// an unknown ADR nibble or an out-of-range start address.
pub open spec fn spec_parse_entry<Addr: TOCAddr>(e: Seq<u8>) -> Result<
    TrackDescriptor<Addr>,
    Error,
> {
    let adr_bits = (e[1] & 0xf0) >> 4;
    let adr = if adr_bits == 1 {
        Some(Adr::Mode1Q)
    } else if adr_bits == 2 {
        Some(Adr::Mode2Q)
    } else if adr_bits == 3 {
        Some(Adr::Mode3Q)
    } else {
        None
    };
    match adr {
        Some(adr) => match Addr::spec_from_be_bytes(e.subrange(4, 8)) {
            Ok(a) => Ok(
                TrackDescriptor {
                    adr,
                    control: TrackControl::spec_from_bits((e[1] & 0x0f) as u8),
                    number: e[2],
                    start_addr: a,
                },
            ),
            Err(er) => Err(Error::InvalidAddress(er)),
        },
        None => Err(Error::InvalidAdr(adr_bits as u8)),
    }
}

/// Decodes one eight-byte TOC entry.
fn parse_entry<Addr: TOCAddr>(e: &[u8]) -> (r: Result<TrackDescriptor<Addr>, Error>)
    requires
        e@.len() == 8,
    ensures
        r == spec_parse_entry::<Addr>(e@),
{
    let adr_bits = (e[1] & 0xf0) >> 4;
    let adr = if adr_bits == 1 {
        Adr::Mode1Q
    } else if adr_bits == 2 {
        Adr::Mode2Q
    } else if adr_bits == 3 {
        Adr::Mode3Q
    } else {
        return Err(Error::InvalidAdr(adr_bits));
    };
    match Addr::from_be_bytes(vstd::slice::slice_subrange(e, 4, 8)) {
        Ok(a) => Ok(
            TrackDescriptor {
                adr,
                control: TrackControl::from_bits(e[1] & 0x0f),
                number: e[2],
                start_addr: a,
            },
        ),
        Err(er) => Err(Error::InvalidAddress(er)),
    }
}

/// The descriptors encoded by the bytes after the TOC header: one per whole
/// eight-byte entry, a trailing partial entry ignored; the first bad entry
/// rejects the list.
pub open spec fn spec_parse_entries<Addr: TOCAddr>(bytes: Seq<u8>) -> Result<
    Seq<TrackDescriptor<Addr>>,
    Error,
>
    decreases bytes.len(),
{
    if bytes.len() < 8 {
        Ok(Seq::empty())
    } else {
        match spec_parse_entry::<Addr>(bytes.subrange(0, 8)) {
            Ok(d) => match spec_parse_entries::<Addr>(bytes.skip(8)) {
                Ok(rest) => Ok(seq![d] + rest),
                Err(e) => Err(e),
            },
            Err(e) => Err(e),
        }
    }
}

/// A decoded formatted TOC.
#[derive(Clone, Debug, PartialEq, Eq)]
pub struct Toc<Addr: TOCAddr> {
    /// The TOC data length reported in the header.
    pub length: u16,
    pub first_track_num: u8,
    pub last_track_num: u8,
    pub track_descriptors: Vec<TrackDescriptor<Addr>>,
}

impl<Addr: TOCAddr> Toc<Addr> {
    /// Decodes a formatted-TOC response: the four-byte header must be
    /// present; every whole eight-byte entry after it must decode, and the
    /// first bad entry rejects the response.
    #[verifier::loop_isolation(false)]
    pub fn try_from(value: Vec<u8>) -> (r: Result<Toc<Addr>, Error>)
        ensures
            value@.len() < 4 <==> r == Err::<Toc<Addr>, Error>(
                Error::IncompleteHeader(value@.len() as usize),
            ),
            value@.len() >= 4 ==> (match spec_parse_entries::<Addr>(value@.skip(4)) {
                Ok(entries) => r matches Ok(t) && t.length == spec_be16(value@[0], value@[1])
                    && t.first_track_num == value@[2] && t.last_track_num == value@[3]
                    && t.track_descriptors@ == entries,
                Err(e) => r == Err::<Toc<Addr>, Error>(e),
            }),
    {
        if value.len() < 4 {
            return Err(Error::IncompleteHeader(value.len()));
        }
        let length = be16(value[0], value[1]);
        let first_track_num = value[2];
        let last_track_num = value[3];
        let ghost entry_bytes = value@.skip(4);
        let mut track_descriptors: Vec<TrackDescriptor<Addr>> = Vec::new();
        let mut i: usize = 4;
        proof {
            assert(entry_bytes.skip(0) =~= entry_bytes);
        }
        while value.len() - i >= 8
            invariant
                4 <= i <= value@.len(),
                spec_parse_entries::<Addr>(entry_bytes) == (
                match spec_parse_entries::<Addr>(entry_bytes.skip(i - 4)) {
                    Ok(rest) => Ok::<Seq<TrackDescriptor<Addr>>, Error>(
                        track_descriptors@ + rest,
                    ),
                    Err(e) => Err::<Seq<TrackDescriptor<Addr>>, Error>(e),
                }),
            decreases value@.len() - i,
        {
            let ghost tail = entry_bytes.skip(i - 4);
            let entry = vstd::slice::slice_subrange(value.as_slice(), i, i + 8);
            proof {
                assert(entry@ =~= tail.subrange(0, 8));
                assert(tail.skip(8) =~= entry_bytes.skip(i - 4 + 8));
            }
            match parse_entry::<Addr>(entry) {
                Ok(d) => {
                    proof {
                        let rec = spec_parse_entries::<Addr>(entry_bytes.skip(i - 4 + 8));
                        if rec is Ok {
                            assert(track_descriptors@.push(d) + rec->Ok_0 =~= track_descriptors@
                                + (seq![d] + rec->Ok_0));
                        }
                    }
                    track_descriptors.push(d);
                },
                Err(e) => {
                    return Err(e);
                },
            }
            i = i + 8;
        }
        proof {
            assert(spec_parse_entries::<Addr>(entry_bytes.skip(i - 4)) == Ok::<
                Seq<TrackDescriptor<Addr>>,
                Error,
            >(Seq::empty()));
            assert(track_descriptors@ + Seq::<TrackDescriptor<Addr>>::empty()
                =~= track_descriptors@);
        }
        Ok(Toc { length, first_track_num, last_track_num, track_descriptors })
    }
}

} // verus!
