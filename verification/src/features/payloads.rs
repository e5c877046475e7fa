//! The payload of each known feature descriptor, decoded from its data
//! bytes into named bit and integer fields as the MMC-6 feature tables lay
//! them out.

use vstd::prelude::*;
use crate::features::types::{
    BdVersions, CdRwSubtypes, DataBlockTypes, LoadingMechanism, PhysicalInterfaceStandard,
    ProfileDescriptor,
};
use crate::util::{
    be16, be24, be32, be32_signed, spec_be16, spec_be24, spec_be32, spec_be32_signed,
    spec_trim_trailing_spaces, trim_trailing_spaces,
};

verus! {

/// A list of all profiles supported by the drive.
///
/// Feature code 0x0000.
#[derive(Clone, Debug, PartialEq, Eq)]
pub struct ProfileList {
    /// All profile descriptors, in the drive's order of preferred operation.
    pub profile_descriptors: Vec<ProfileDescriptor>,
}

impl ProfileList {
    /// The profile descriptors encoded by the payload: one per whole
    /// four-byte block, a trailing partial block ignored.
    pub open spec fn spec_descriptors(d: Seq<u8>) -> Seq<ProfileDescriptor>
        decreases d.len(),
    {
        if d.len() < 4 {
            Seq::empty()
        } else {
            seq![ProfileDescriptor::spec_parse(d)] + ProfileList::spec_descriptors(d.skip(4))
        }
    }

    /// Decodes the profile-list payload.
    pub fn parse(d: &[u8]) -> (r: ProfileList)
        ensures
            r.profile_descriptors@ == ProfileList::spec_descriptors(d@),
    {
        let mut descriptors: Vec<ProfileDescriptor> = Vec::new();
        let mut i: usize = 0;
        proof {
            assert(d@.skip(0) =~= d@);
        }
        while d.len() - i >= 4
            invariant
                i <= d@.len(),
                ProfileList::spec_descriptors(d@) =~= descriptors@ + ProfileList::spec_descriptors(
                    d@.skip(i as int),
                ),
            decreases d@.len() - i,
        {
            let block = vstd::slice::slice_subrange(d, i, i + 4);
            let pd = ProfileDescriptor::parse(block);
            proof {
                assert(d@.skip(i as int)[0] == d@[i as int]);
                assert(d@.skip(i as int)[1] == d@[i as int + 1]);
                assert(d@.skip(i as int)[2] == d@[i as int + 2]);
                assert(ProfileDescriptor::spec_parse(block@) == ProfileDescriptor::spec_parse(
                    d@.skip(i as int),
                ));
                assert(d@.skip(i as int).skip(4) =~= d@.skip(i as int + 4));
            }
            descriptors.push(pd);
            i = i + 4;
        }
        proof {
            assert(ProfileList::spec_descriptors(d@.skip(i as int)) =~= Seq::<
                ProfileDescriptor,
            >::empty());
            assert(descriptors@ + Seq::<ProfileDescriptor>::empty() =~= descriptors@);
        }
        ProfileList { profile_descriptors: descriptors }
    }
}

/// The link sizes trailing a sequential-recording payload: the count in
/// byte 3 names how many follow byte 4; a count that overruns the payload
/// yields none.
pub open spec fn spec_link_sizes(d: Seq<u8>) -> Seq<u8> {
    if 4 + d[3] <= d.len() {
        d.subrange(4, 4 + d[3])
    } else {
        Seq::empty()
    }
}

/// Reads the link sizes trailing a sequential-recording payload.
fn parse_link_sizes(d: &[u8]) -> (r: Vec<u8>)
    requires
        d@.len() >= 4,
    ensures
        r@ == spec_link_sizes(d@),
{
    let n = d[3] as usize;
    if 4 + n <= d.len() {
        vstd::slice::slice_to_vec(vstd::slice::slice_subrange(d, 4, 4 + n))
    } else {
        Vec::new()
    }
}

/// Write support for sequential recording.
///
/// Feature code 0x0021.
#[derive(Clone, Debug, PartialEq, Eq)]
pub struct IncrementalStreamingWritable {
    pub data_block_types_supported: DataBlockTypes,
    pub trio: bool,
    pub arsv: bool,
    pub buf: bool,
    pub link_sizes: Vec<u8>,
}

impl IncrementalStreamingWritable {
    /// Decodes the incremental-streaming payload: the data-block-type set,
    /// three flag bits, and the declared number of link sizes.
    pub fn parse(d: &[u8]) -> (r: IncrementalStreamingWritable)
        requires
            d@.len() >= 4,
        ensures
            r.data_block_types_supported == DataBlockTypes(spec_be16(d@[0], d@[1]) as u16),
            r.trio == (d@[2] & 0x04 != 0),
            r.arsv == (d@[2] & 0x02 != 0),
            r.buf == (d@[2] & 0x01 != 0),
            r.link_sizes@ == spec_link_sizes(d@),
    {
        IncrementalStreamingWritable {
            data_block_types_supported: DataBlockTypes(be16(d[0], d[1])),
            trio: d[2] & 0x04 != 0,
            arsv: d[2] & 0x02 != 0,
            buf: d[2] & 0x01 != 0,
            link_sizes: parse_link_sizes(d),
        }
    }
}

/// The ability to record in layer-jump mode.
///
/// Feature code 0x0033.
#[derive(Clone, Debug, PartialEq, Eq)]
pub struct LayerJumpRecording {
    pub link_sizes: Vec<u8>,
}

impl LayerJumpRecording {
    /// Decodes the layer-jump payload: the declared number of link sizes.
    pub fn parse(d: &[u8]) -> (r: LayerJumpRecording)
        requires
            d@.len() >= 4,
        ensures
            r.link_sizes@ == spec_link_sizes(d@),
    {
        LayerJumpRecording { link_sizes: parse_link_sizes(d) }
    }
}

/// The drive has a unique identifier.
///
/// Feature code 0x0108.
#[derive(Clone, Debug, PartialEq, Eq)]
pub struct DriveSerialNumber {
    /// The serial-number bytes, trailing space padding removed.
    pub serial_number: Vec<u8>,
}

impl DriveSerialNumber {
    /// Decodes the serial-number payload.
    pub fn parse(d: &[u8]) -> (r: DriveSerialNumber)
        ensures
            r.serial_number@ == spec_trim_trailing_spaces(d@),
    {
        DriveSerialNumber { serial_number: trim_trailing_spaces(d) }
    }
}

/// The ability to read and/or write disc control blocks.
///
/// Feature code 0x010A.
#[derive(Clone, Debug, PartialEq, Eq)]
pub struct DiscControlBlocks {
    pub supported_dcb_entries: Vec<u32>,
}

impl DiscControlBlocks {
    /// The entries encoded by the payload: one 32-bit big-endian value per
    /// whole four-byte block, a trailing partial block ignored.
    pub open spec fn spec_entries(d: Seq<u8>) -> Seq<u32>
        decreases d.len(),
    {
        if d.len() < 4 {
            Seq::empty()
        } else {
            seq![(spec_be32(d[0], d[1], d[2], d[3]) as u32)] + DiscControlBlocks::spec_entries(
                d.skip(4),
            )
        }
    }

    /// Decodes the disc-control-block payload.
    pub fn parse(d: &[u8]) -> (r: DiscControlBlocks)
        ensures
            r.supported_dcb_entries@ == DiscControlBlocks::spec_entries(d@),
    {
        let mut entries: Vec<u32> = Vec::new();
        let mut i: usize = 0;
        proof {
            assert(d@.skip(0) =~= d@);
        }
        while d.len() - i >= 4
            invariant
                i <= d@.len(),
                DiscControlBlocks::spec_entries(d@) =~= entries@ + DiscControlBlocks::spec_entries(
                    d@.skip(i as int),
                ),
            decreases d@.len() - i,
        {
            let e = be32(d[i], d[i + 1], d[i + 2], d[i + 3]);
            proof {
                assert(d@.skip(i as int)[0] == d@[i as int]);
                assert(d@.skip(i as int)[1] == d@[i as int + 1]);
                assert(d@.skip(i as int)[2] == d@[i as int + 2]);
                assert(d@.skip(i as int)[3] == d@[i as int + 3]);
                assert(d@.skip(i as int).skip(4) =~= d@.skip(i as int + 4));
            }
            entries.push(e);
            i = i + 4;
        }
        proof {
            assert(DiscControlBlocks::spec_entries(d@.skip(i as int)) =~= Seq::<u32>::empty());
            assert(entries@ + Seq::<u32>::empty() =~= entries@);
        }
        DiscControlBlocks { supported_dcb_entries: entries }
    }
}

/// TCG optical security subsystem class feature.
///
/// Feature code 0x0142.
#[derive(Clone, Debug, PartialEq, Eq)]
pub struct Ossc {
    pub psau: bool,
    pub lospb: bool,
    pub me: bool,
    pub profile_numbers: Vec<u16>,
}

impl Ossc {
    /// The profile numbers encoded after the flag bytes: byte 1 declares the
    /// count of 16-bit big-endian entries from byte 2 on; a count that
    /// overruns the payload yields none.
    pub open spec fn spec_profile_numbers(d: Seq<u8>) -> Seq<u16> {
        if 2 + 2 * d[1] <= d.len() {
            Seq::new(d[1] as nat, |i: int| (spec_be16(d[2 + 2 * i], d[3 + 2 * i]) as u16))
        } else {
            Seq::empty()
        }
    }

    /// Decodes the OSSC payload.
    pub fn parse(d: &[u8]) -> (r: Ossc)
        requires
            d@.len() >= 2,
        ensures
            r.psau == (d@[0] & 0x80 != 0),
            r.lospb == (d@[0] & 0x40 != 0),
            r.me == (d@[0] & 0x01 != 0),
            r.profile_numbers@ == Ossc::spec_profile_numbers(d@),
    {
        let n = d[1] as usize;
        let mut profile_numbers: Vec<u16> = Vec::new();
        if 2 + 2 * n <= d.len() {
            let mut i: usize = 0;
            while i < n
                invariant
                    i <= n,
                    2 + 2 * n <= d@.len(),
                    n == d@[1],
                    profile_numbers@.len() == i,
                    forall|j: int|
                        0 <= j < i ==> profile_numbers@[j] == (spec_be16(
                            d@[2 + 2 * j],
                            d@[3 + 2 * j],
                        ) as u16),
                decreases n - i,
            {
                profile_numbers.push(be16(d[2 + 2 * i], d[2 + 2 * i + 1]));
                i = i + 1;
            }
            proof {
                assert(profile_numbers@ =~= Ossc::spec_profile_numbers(d@));
            }
        } else {
            proof {
                assert(Ossc::spec_profile_numbers(d@) =~= Seq::<u16>::empty());
            }
        }
        Ossc {
            psau: d[0] & 0x80 != 0,
            lospb: d[0] & 0x40 != 0,
            me: d[0] & 0x01 != 0,
            profile_numbers,
        }
    }
}

/// An unknown feature descriptor: a vendor-specific, reserved or otherwise
/// unimplemented feature, kept with its raw code and payload bytes.
#[derive(Clone, Debug, PartialEq, Eq)]
pub struct UnknownFeature {
    pub feature_code: u16,
    pub data: Vec<u8>,
}
/// Mandatory behavior for all devices.
///
/// Feature code 0x0001.
#[derive(Clone, Copy, Debug, PartialEq, Eq, Structural)]
pub struct Core {
    pub physical_interface: PhysicalInterfaceStandard,
    pub inq2: bool,
    pub dbe: bool,
}

impl Core {
    /// The payload these data bytes decode to.
    pub open spec fn spec_parse(d: Seq<u8>) -> Core {
        Core {
            physical_interface: PhysicalInterfaceStandard::spec_from(spec_be32(d[0], d[1], d[2], d[3]) as u32),
            inq2: d[4] & 0x02 != 0,
            dbe: d[4] & 0x01 != 0,
        }
    }

    /// Decodes this feature's fixed-size payload.
    pub fn parse(d: &[u8]) -> (r: Core)
        requires
            d@.len() == 8,
        ensures
            r == Core::spec_parse(d@),
    {
        Core {
            physical_interface: PhysicalInterfaceStandard::from(be32(d[0], d[1], d[2], d[3])),
            inq2: d[4] & 0x02 != 0,
            dbe: d[4] & 0x01 != 0,
        }
    }
}

/// The drive reports operational changes and accepts requests to prevent them.
///
/// Feature code 0x0002.
#[derive(Clone, Copy, Debug, PartialEq, Eq, Structural)]
pub struct Morphing {
    pub oc_event: bool,
    pub asynchronous: bool,
}

impl Morphing {
    /// The payload these data bytes decode to.
    pub open spec fn spec_parse(d: Seq<u8>) -> Morphing {
        Morphing {
            oc_event: d[0] & 0x02 != 0,
            asynchronous: d[0] & 0x01 != 0,
        }
    }

    /// Decodes this feature's fixed-size payload.
    pub fn parse(d: &[u8]) -> (r: Morphing)
        requires
            d@.len() == 4,
        ensures
            r == Morphing::spec_parse(d@),
    {
        Morphing {
            oc_event: d[0] & 0x02 != 0,
            asynchronous: d[0] & 0x01 != 0,
        }
    }
}

/// The medium may be removed from the device.
///
/// Feature code 0x0003.
#[derive(Clone, Copy, Debug, PartialEq, Eq, Structural)]
pub struct RemovableMedium {
    pub loading_mechanism: LoadingMechanism,
    pub load: bool,
    pub eject: bool,
    pub prevent_jumper: bool,
    pub lock: bool,
}

impl RemovableMedium {
    /// The payload these data bytes decode to.
    pub open spec fn spec_parse(d: Seq<u8>) -> RemovableMedium {
        RemovableMedium {
            loading_mechanism: LoadingMechanism::spec_from((d[0] & 0xe0) >> 5),
            load: d[0] & 0x10 != 0,
            eject: d[0] & 0x08 != 0,
            prevent_jumper: d[0] & 0x04 != 0,
            lock: d[0] & 0x01 != 0,
        }
    }

    /// Decodes this feature's fixed-size payload.
    pub fn parse(d: &[u8]) -> (r: RemovableMedium)
        requires
            d@.len() == 4,
        ensures
            r == RemovableMedium::spec_parse(d@),
    {
        RemovableMedium {
            loading_mechanism: LoadingMechanism::from((d[0] & 0xe0) >> 5),
            load: d[0] & 0x10 != 0,
            eject: d[0] & 0x08 != 0,
            prevent_jumper: d[0] & 0x04 != 0,
            lock: d[0] & 0x01 != 0,
        }
    }
}

/// The ability to control write-protection status.
///
/// Feature code 0x0004.
#[derive(Clone, Copy, Debug, PartialEq, Eq, Structural)]
pub struct WriteProtect {
    pub dwp: bool,
    pub wdcb: bool,
    pub spwp: bool,
    pub sswpp: bool,
}

impl WriteProtect {
    /// The payload these data bytes decode to.
    pub open spec fn spec_parse(d: Seq<u8>) -> WriteProtect {
        WriteProtect {
            dwp: d[0] & 0x08 != 0,
            wdcb: d[0] & 0x04 != 0,
            spwp: d[0] & 0x02 != 0,
            sswpp: d[0] & 0x01 != 0,
        }
    }

    /// Decodes this feature's fixed-size payload.
    pub fn parse(d: &[u8]) -> (r: WriteProtect)
        requires
            d@.len() == 4,
        ensures
            r == WriteProtect::spec_parse(d@),
    {
        WriteProtect {
            dwp: d[0] & 0x08 != 0,
            wdcb: d[0] & 0x04 != 0,
            spwp: d[0] & 0x02 != 0,
            sswpp: d[0] & 0x01 != 0,
        }
    }
}

/// The ability to read sectors with random addressing.
///
/// Feature code 0x0010.
#[derive(Clone, Copy, Debug, PartialEq, Eq, Structural)]
pub struct RandomReadable {
    pub logical_block_size: u32,
    pub blocking: u16,
    pub page_present: bool,
}

impl RandomReadable {
    /// The payload these data bytes decode to.
    pub open spec fn spec_parse(d: Seq<u8>) -> RandomReadable {
        RandomReadable {
            logical_block_size: (spec_be32(d[0], d[1], d[2], d[3]) as u32),
            blocking: (spec_be16(d[4], d[5]) as u16),
            page_present: d[6] & 0x01 != 0,
        }
    }

    /// Decodes this feature's fixed-size payload.
    pub fn parse(d: &[u8]) -> (r: RandomReadable)
        requires
            d@.len() == 8,
        ensures
            r == RandomReadable::spec_parse(d@),
    {
        RandomReadable {
            logical_block_size: be32(d[0], d[1], d[2], d[3]),
            blocking: be16(d[4], d[5]),
            page_present: d[6] & 0x01 != 0,
        }
    }
}

/// The drive reads all CD media types.
///
/// Feature code 0x001d.
#[derive(Clone, Copy, Debug, PartialEq, Eq, Structural)]
pub struct MultiRead {}

impl MultiRead {
    /// The payload these data bytes decode to.
    pub open spec fn spec_parse(d: Seq<u8>) -> MultiRead {
        MultiRead {}
    }

    /// Decodes this feature's fixed-size payload.
    pub fn parse(d: &[u8]) -> (r: MultiRead)
        requires
            d@.len() == 0,
        ensures
            r == MultiRead::spec_parse(d@),
    {
        MultiRead {}
    }
}

/// The ability to read CD-specific structures.
///
/// Feature code 0x001e.
#[derive(Clone, Copy, Debug, PartialEq, Eq, Structural)]
pub struct CdRead {
    pub dap: bool,
    pub c2_flags: bool,
    pub cd_text: bool,
}

impl CdRead {
    /// The payload these data bytes decode to.
    pub open spec fn spec_parse(d: Seq<u8>) -> CdRead {
        CdRead {
            dap: d[0] & 0x80 != 0,
            c2_flags: d[0] & 0x02 != 0,
            cd_text: d[0] & 0x01 != 0,
        }
    }

    /// Decodes this feature's fixed-size payload.
    pub fn parse(d: &[u8]) -> (r: CdRead)
        requires
            d@.len() == 4,
        ensures
            r == CdRead::spec_parse(d@),
    {
        CdRead {
            dap: d[0] & 0x80 != 0,
            c2_flags: d[0] & 0x02 != 0,
            cd_text: d[0] & 0x01 != 0,
        }
    }
}

/// The ability to read DVD-specific structures.
///
/// Feature code 0x001f.
#[derive(Clone, Copy, Debug, PartialEq, Eq, Structural)]
pub struct DvdRead {
    pub multi_110: bool,
    pub dual_rw: bool,
    pub dual_r: bool,
}

impl DvdRead {
    /// The payload these data bytes decode to.
    pub open spec fn spec_parse(d: Seq<u8>) -> DvdRead {
        DvdRead {
            multi_110: d[0] & 0x01 != 0,
            dual_rw: d[2] & 0x02 != 0,
            dual_r: d[2] & 0x01 != 0,
        }
    }

    /// Decodes this feature's fixed-size payload.
    pub fn parse(d: &[u8]) -> (r: DvdRead)
        requires
            d@.len() == 4,
        ensures
            r == DvdRead::spec_parse(d@),
    {
        DvdRead {
            multi_110: d[0] & 0x01 != 0,
            dual_rw: d[2] & 0x02 != 0,
            dual_r: d[2] & 0x01 != 0,
        }
    }
}

/// Write support for randomly addressed writes.
///
/// Feature code 0x0020.
#[derive(Clone, Copy, Debug, PartialEq, Eq, Structural)]
pub struct RandomWritable {
    pub last_lba: i32,
    pub logical_block_size: u32,
    pub blocking: u16,
    pub page_present: bool,
}

impl RandomWritable {
    /// The payload these data bytes decode to.
    pub open spec fn spec_parse(d: Seq<u8>) -> RandomWritable {
        RandomWritable {
            last_lba: (spec_be32_signed(d[0], d[1], d[2], d[3]) as i32),
            logical_block_size: (spec_be32(d[4], d[5], d[6], d[7]) as u32),
            blocking: (spec_be16(d[8], d[9]) as u16),
            page_present: d[10] & 0x01 != 0,
        }
    }

    /// Decodes this feature's fixed-size payload.
    pub fn parse(d: &[u8]) -> (r: RandomWritable)
        requires
            d@.len() == 12,
        ensures
            r == RandomWritable::spec_parse(d@),
    {
        RandomWritable {
            last_lba: be32_signed(d[0], d[1], d[2], d[3]),
            logical_block_size: be32(d[4], d[5], d[6], d[7]),
            blocking: be16(d[8], d[9]),
            page_present: d[10] & 0x01 != 0,
        }
    }
}

/// Write support for erasable media needing an erase pass before overwrite.
///
/// Feature code 0x0022.
#[derive(Clone, Copy, Debug, PartialEq, Eq, Structural)]
pub struct SectorErasable {}

impl SectorErasable {
    /// The payload these data bytes decode to.
    pub open spec fn spec_parse(d: Seq<u8>) -> SectorErasable {
        SectorErasable {}
    }

    /// Decodes this feature's fixed-size payload.
    pub fn parse(d: &[u8]) -> (r: SectorErasable)
        requires
            d@.len() == 0,
        ensures
            r == SectorErasable::spec_parse(d@),
    {
        SectorErasable {}
    }
}

/// Support for formatting of media.
///
/// Feature code 0x0023.
#[derive(Clone, Copy, Debug, PartialEq, Eq, Structural)]
pub struct Formattable {
    pub re_no_sa: bool,
    pub expand: bool,
    pub qcert: bool,
    pub cert: bool,
    pub frf: bool,
    pub rrm: bool,
}

impl Formattable {
    /// The payload these data bytes decode to.
    pub open spec fn spec_parse(d: Seq<u8>) -> Formattable {
        Formattable {
            re_no_sa: d[0] & 0x08 != 0,
            expand: d[0] & 0x04 != 0,
            qcert: d[0] & 0x02 != 0,
            cert: d[0] & 0x01 != 0,
            frf: d[1] & 0x80 != 0,
            rrm: d[4] & 0x01 != 0,
        }
    }

    /// Decodes this feature's fixed-size payload.
    pub fn parse(d: &[u8]) -> (r: Formattable)
        requires
            d@.len() == 8,
        ensures
            r == Formattable::spec_parse(d@),
    {
        Formattable {
            re_no_sa: d[0] & 0x08 != 0,
            expand: d[0] & 0x04 != 0,
            qcert: d[0] & 0x02 != 0,
            cert: d[0] & 0x01 != 0,
            frf: d[1] & 0x80 != 0,
            rrm: d[4] & 0x01 != 0,
        }
    }
}

/// The drive and media provide an apparently defect-free space.
///
/// Feature code 0x0024.
#[derive(Clone, Copy, Debug, PartialEq, Eq, Structural)]
pub struct HardwareDefectManagement {
    pub ssa: bool,
}

impl HardwareDefectManagement {
    /// The payload these data bytes decode to.
    pub open spec fn spec_parse(d: Seq<u8>) -> HardwareDefectManagement {
        HardwareDefectManagement {
            ssa: d[0] & 0x80 != 0,
        }
    }

    /// Decodes this feature's fixed-size payload.
    pub fn parse(d: &[u8]) -> (r: HardwareDefectManagement)
        requires
            d@.len() == 4,
        ensures
            r == HardwareDefectManagement::spec_parse(d@),
    {
        HardwareDefectManagement {
            ssa: d[0] & 0x80 != 0,
        }
    }
}

/// Write support for write-once media writable in random order.
///
/// Feature code 0x0025.
#[derive(Clone, Copy, Debug, PartialEq, Eq, Structural)]
pub struct WriteOnce {
    pub logical_block_size: u32,
    pub blocking: u16,
    pub page_present: bool,
}

impl WriteOnce {
    /// The payload these data bytes decode to.
    pub open spec fn spec_parse(d: Seq<u8>) -> WriteOnce {
        WriteOnce {
            logical_block_size: (spec_be32(d[0], d[1], d[2], d[3]) as u32),
            blocking: (spec_be16(d[4], d[5]) as u16),
            page_present: d[6] & 0x01 != 0,
        }
    }

    /// Decodes this feature's fixed-size payload.
    pub fn parse(d: &[u8]) -> (r: WriteOnce)
        requires
            d@.len() == 8,
        ensures
            r == WriteOnce::spec_parse(d@),
    {
        WriteOnce {
            logical_block_size: be32(d[0], d[1], d[2], d[3]),
            blocking: be16(d[4], d[5]),
            page_present: d[6] & 0x01 != 0,
        }
    }
}

/// Write support for media written from blocking boundaries only.
///
/// Feature code 0x0026.
#[derive(Clone, Copy, Debug, PartialEq, Eq, Structural)]
pub struct RestrictedOverwrite {}

impl RestrictedOverwrite {
    /// The payload these data bytes decode to.
    pub open spec fn spec_parse(d: Seq<u8>) -> RestrictedOverwrite {
        RestrictedOverwrite {}
    }

    /// Decodes this feature's fixed-size payload.
    pub fn parse(d: &[u8]) -> (r: RestrictedOverwrite)
        requires
            d@.len() == 0,
        ensures
            r == RestrictedOverwrite::spec_parse(d@),
    {
        RestrictedOverwrite {}
    }
}

/// The ability to write high-speed CD-RW media.
///
/// Feature code 0x0027.
#[derive(Clone, Copy, Debug, PartialEq, Eq, Structural)]
pub struct CdRwCavWrite {}

impl CdRwCavWrite {
    /// The payload these data bytes decode to.
    pub open spec fn spec_parse(d: Seq<u8>) -> CdRwCavWrite {
        CdRwCavWrite {}
    }

    /// Decodes this feature's fixed-size payload.
    pub fn parse(d: &[u8]) -> (r: CdRwCavWrite)
        requires
            d@.len() == 4,
        ensures
            r == CdRwCavWrite::spec_parse(d@),
    {
        CdRwCavWrite {}
    }
}

/// The ability to recognize, read and optionally write MRW formatted media.
///
/// Feature code 0x0028.
#[derive(Clone, Copy, Debug, PartialEq, Eq, Structural)]
pub struct Mrw {
    pub dvd_plus_write: bool,
    pub dvd_plus_read: bool,
    pub cd_write: bool,
}

impl Mrw {
    /// The payload these data bytes decode to.
    pub open spec fn spec_parse(d: Seq<u8>) -> Mrw {
        Mrw {
            dvd_plus_write: d[0] & 0x04 != 0,
            dvd_plus_read: d[0] & 0x02 != 0,
            cd_write: d[0] & 0x01 != 0,
        }
    }

    /// Decodes this feature's fixed-size payload.
    pub fn parse(d: &[u8]) -> (r: Mrw)
        requires
            d@.len() == 4,
        ensures
            r == Mrw::spec_parse(d@),
    {
        Mrw {
            dvd_plus_write: d[0] & 0x04 != 0,
            dvd_plus_read: d[0] & 0x02 != 0,
            cd_write: d[0] & 0x01 != 0,
        }
    }
}

/// The ability to control recovered-error reporting.
///
/// Feature code 0x0029.
#[derive(Clone, Copy, Debug, PartialEq, Eq, Structural)]
pub struct EnhancedDefectReporting {
    pub drt_dm: bool,
    pub num_dbi_cache_zones: u8,
    pub num_entries: u16,
}

impl EnhancedDefectReporting {
    /// The payload these data bytes decode to.
    pub open spec fn spec_parse(d: Seq<u8>) -> EnhancedDefectReporting {
        EnhancedDefectReporting {
            drt_dm: d[0] & 0x01 != 0,
            num_dbi_cache_zones: d[1],
            num_entries: (spec_be16(d[2], d[3]) as u16),
        }
    }

    /// Decodes this feature's fixed-size payload.
    pub fn parse(d: &[u8]) -> (r: EnhancedDefectReporting)
        requires
            d@.len() == 4,
        ensures
            r == EnhancedDefectReporting::spec_parse(d@),
    {
        EnhancedDefectReporting {
            drt_dm: d[0] & 0x01 != 0,
            num_dbi_cache_zones: d[1],
            num_entries: be16(d[2], d[3]),
        }
    }
}

/// The ability to recognize, read and optionally write DVD+RW media.
///
/// Feature code 0x002a.
#[derive(Clone, Copy, Debug, PartialEq, Eq, Structural)]
pub struct DvdPlusRw {
    pub write: bool,
    pub quick_start: bool,
    pub close_only: bool,
}

impl DvdPlusRw {
    /// The payload these data bytes decode to.
    pub open spec fn spec_parse(d: Seq<u8>) -> DvdPlusRw {
        DvdPlusRw {
            write: d[0] & 0x01 != 0,
            quick_start: d[1] & 0x02 != 0,
            close_only: d[1] & 0x01 != 0,
        }
    }

    /// Decodes this feature's fixed-size payload.
    pub fn parse(d: &[u8]) -> (r: DvdPlusRw)
        requires
            d@.len() == 4,
        ensures
            r == DvdPlusRw::spec_parse(d@),
    {
        DvdPlusRw {
            write: d[0] & 0x01 != 0,
            quick_start: d[1] & 0x02 != 0,
            close_only: d[1] & 0x01 != 0,
        }
    }
}

/// The ability to read DVD+R recorded media formats.
///
/// Feature code 0x002b.
#[derive(Clone, Copy, Debug, PartialEq, Eq, Structural)]
pub struct DvdPlusR {
    pub write: bool,
}

impl DvdPlusR {
    /// The payload these data bytes decode to.
    pub open spec fn spec_parse(d: Seq<u8>) -> DvdPlusR {
        DvdPlusR {
            write: d[0] & 0x01 != 0,
        }
    }

    /// Decodes this feature's fixed-size payload.
    pub fn parse(d: &[u8]) -> (r: DvdPlusR)
        requires
            d@.len() == 4,
        ensures
            r == DvdPlusR::spec_parse(d@),
    {
        DvdPlusR {
            write: d[0] & 0x01 != 0,
        }
    }
}

/// Write support for media written from blocking boundaries in whole blocking multiples.
///
/// Feature code 0x002c.
#[derive(Clone, Copy, Debug, PartialEq, Eq, Structural)]
pub struct RigidRestrictedOverwrite {
    pub dsdg: bool,
    pub dsdr: bool,
    pub intermediate: bool,
    pub blank: bool,
}

impl RigidRestrictedOverwrite {
    /// The payload these data bytes decode to.
    pub open spec fn spec_parse(d: Seq<u8>) -> RigidRestrictedOverwrite {
        RigidRestrictedOverwrite {
            dsdg: d[0] & 0x08 != 0,
            dsdr: d[0] & 0x04 != 0,
            intermediate: d[0] & 0x02 != 0,
            blank: d[0] & 0x01 != 0,
        }
    }

    /// Decodes this feature's fixed-size payload.
    pub fn parse(d: &[u8]) -> (r: RigidRestrictedOverwrite)
        requires
            d@.len() == 4,
        ensures
            r == RigidRestrictedOverwrite::spec_parse(d@),
    {
        RigidRestrictedOverwrite {
            dsdg: d[0] & 0x08 != 0,
            dsdr: d[0] & 0x04 != 0,
            intermediate: d[0] & 0x02 != 0,
            blank: d[0] & 0x01 != 0,
        }
    }
}

/// The ability to write CD with track-at-once recording.
///
/// Feature code 0x002d.
#[derive(Clone, Copy, Debug, PartialEq, Eq, Structural)]
pub struct CdTrackAtOnce {
    pub buf: bool,
    pub r_w_raw: bool,
    pub r_w_pack: bool,
    pub test_write: bool,
    pub cd_rw: bool,
    pub rw_subcode: bool,
    pub data_type_supported: DataBlockTypes,
}

impl CdTrackAtOnce {
    /// The payload these data bytes decode to.
    pub open spec fn spec_parse(d: Seq<u8>) -> CdTrackAtOnce {
        CdTrackAtOnce {
            buf: d[0] & 0x40 != 0,
            r_w_raw: d[0] & 0x10 != 0,
            r_w_pack: d[0] & 0x08 != 0,
            test_write: d[0] & 0x04 != 0,
            cd_rw: d[0] & 0x02 != 0,
            rw_subcode: d[0] & 0x01 != 0,
            data_type_supported: DataBlockTypes(spec_be16(d[2], d[3]) as u16),
        }
    }

    /// Decodes this feature's fixed-size payload.
    pub fn parse(d: &[u8]) -> (r: CdTrackAtOnce)
        requires
            d@.len() == 4,
        ensures
            r == CdTrackAtOnce::spec_parse(d@),
    {
        CdTrackAtOnce {
            buf: d[0] & 0x40 != 0,
            r_w_raw: d[0] & 0x10 != 0,
            r_w_pack: d[0] & 0x08 != 0,
            test_write: d[0] & 0x04 != 0,
            cd_rw: d[0] & 0x02 != 0,
            rw_subcode: d[0] & 0x01 != 0,
            data_type_supported: DataBlockTypes(be16(d[2], d[3])),
        }
    }
}

/// The ability to write CD with session-at-once or raw write methods.
///
/// Feature code 0x002e.
#[derive(Clone, Copy, Debug, PartialEq, Eq, Structural)]
pub struct CdMastering {
    pub buf: bool,
    pub sao: bool,
    pub raw_ms: bool,
    pub raw: bool,
    pub test_write: bool,
    pub cd_rw: bool,
    pub r_w: bool,
    pub max_cue_sheet_length: u32,
}

impl CdMastering {
    /// The payload these data bytes decode to.
    pub open spec fn spec_parse(d: Seq<u8>) -> CdMastering {
        CdMastering {
            buf: d[0] & 0x40 != 0,
            sao: d[0] & 0x20 != 0,
            raw_ms: d[0] & 0x10 != 0,
            raw: d[0] & 0x08 != 0,
            test_write: d[0] & 0x04 != 0,
            cd_rw: d[0] & 0x02 != 0,
            r_w: d[0] & 0x01 != 0,
            max_cue_sheet_length: (spec_be24(d[1], d[2], d[3]) as u32),
        }
    }

    /// Decodes this feature's fixed-size payload.
    pub fn parse(d: &[u8]) -> (r: CdMastering)
        requires
            d@.len() == 4,
        ensures
            r == CdMastering::spec_parse(d@),
    {
        CdMastering {
            buf: d[0] & 0x40 != 0,
            sao: d[0] & 0x20 != 0,
            raw_ms: d[0] & 0x10 != 0,
            raw: d[0] & 0x08 != 0,
            test_write: d[0] & 0x04 != 0,
            cd_rw: d[0] & 0x02 != 0,
            r_w: d[0] & 0x01 != 0,
            max_cue_sheet_length: be24(d[1], d[2], d[3]),
        }
    }
}

/// The ability to write DVD-specific structures.
///
/// Feature code 0x002f.
#[derive(Clone, Copy, Debug, PartialEq, Eq, Structural)]
pub struct DvdRRwWrite {
    pub buf: bool,
    pub rdl: bool,
    pub test_write: bool,
    pub dvd_rw_sl: bool,
}

impl DvdRRwWrite {
    /// The payload these data bytes decode to.
    pub open spec fn spec_parse(d: Seq<u8>) -> DvdRRwWrite {
        DvdRRwWrite {
            buf: d[0] & 0x40 != 0,
            rdl: d[0] & 0x08 != 0,
            test_write: d[0] & 0x04 != 0,
            dvd_rw_sl: d[0] & 0x02 != 0,
        }
    }

    /// Decodes this feature's fixed-size payload.
    pub fn parse(d: &[u8]) -> (r: DvdRRwWrite)
        requires
            d@.len() == 4,
        ensures
            r == DvdRRwWrite::spec_parse(d@),
    {
        DvdRRwWrite {
            buf: d[0] & 0x40 != 0,
            rdl: d[0] & 0x08 != 0,
            test_write: d[0] & 0x04 != 0,
            dvd_rw_sl: d[0] & 0x02 != 0,
        }
    }
}

/// The ability to read DDCD-specific information and user data.
///
/// Feature code 0x0030.
#[derive(Clone, Copy, Debug, PartialEq, Eq, Structural)]
pub struct DoubleDensityCdRead {}

impl DoubleDensityCdRead {
    /// The payload these data bytes decode to.
    pub open spec fn spec_parse(d: Seq<u8>) -> DoubleDensityCdRead {
        DoubleDensityCdRead {}
    }

    /// Decodes this feature's fixed-size payload.
    pub fn parse(d: &[u8]) -> (r: DoubleDensityCdRead)
        requires
            d@.len() == 0,
        ensures
            r == DoubleDensityCdRead::spec_parse(d@),
    {
        DoubleDensityCdRead {}
    }
}

/// The ability to write data to DDCD-R.
///
/// Feature code 0x0031.
#[derive(Clone, Copy, Debug, PartialEq, Eq, Structural)]
pub struct DoubleDensityCdRWrite {
    pub test_rw: bool,
}

impl DoubleDensityCdRWrite {
    /// The payload these data bytes decode to.
    pub open spec fn spec_parse(d: Seq<u8>) -> DoubleDensityCdRWrite {
        DoubleDensityCdRWrite {
            test_rw: d[0] & 0x04 != 0,
        }
    }

    /// Decodes this feature's fixed-size payload.
    pub fn parse(d: &[u8]) -> (r: DoubleDensityCdRWrite)
        requires
            d@.len() == 4,
        ensures
            r == DoubleDensityCdRWrite::spec_parse(d@),
    {
        DoubleDensityCdRWrite {
            test_rw: d[0] & 0x04 != 0,
        }
    }
}

/// The ability to write data to DDCD-RW.
///
/// Feature code 0x0032.
#[derive(Clone, Copy, Debug, PartialEq, Eq, Structural)]
pub struct DoubleDensityCdRwWrite {
    pub intermediate: bool,
    pub blank: bool,
}

impl DoubleDensityCdRwWrite {
    /// The payload these data bytes decode to.
    pub open spec fn spec_parse(d: Seq<u8>) -> DoubleDensityCdRwWrite {
        DoubleDensityCdRwWrite {
            intermediate: d[0] & 0x02 != 0,
            blank: d[0] & 0x01 != 0,
        }
    }

    /// Decodes this feature's fixed-size payload.
    pub fn parse(d: &[u8]) -> (r: DoubleDensityCdRwWrite)
        requires
            d@.len() == 4,
        ensures
            r == DoubleDensityCdRwWrite::spec_parse(d@),
    {
        DoubleDensityCdRwWrite {
            intermediate: d[0] & 0x02 != 0,
            blank: d[0] & 0x01 != 0,
        }
    }
}

/// The ability to perform layer-jump recording on rigid restricted-overwritable media.
///
/// Feature code 0x0034.
#[derive(Clone, Copy, Debug, PartialEq, Eq, Structural)]
pub struct LayerJumpRigidRestrictedOverwrite {
    pub cljb: bool,
    pub buffer_block_size: u8,
}

impl LayerJumpRigidRestrictedOverwrite {
    /// The payload these data bytes decode to.
    pub open spec fn spec_parse(d: Seq<u8>) -> LayerJumpRigidRestrictedOverwrite {
        LayerJumpRigidRestrictedOverwrite {
            cljb: d[0] & 0x01 != 0,
            buffer_block_size: d[3],
        }
    }

    /// Decodes this feature's fixed-size payload.
    pub fn parse(d: &[u8]) -> (r: LayerJumpRigidRestrictedOverwrite)
        requires
            d@.len() == 4,
        ensures
            r == LayerJumpRigidRestrictedOverwrite::spec_parse(d@),
    {
        LayerJumpRigidRestrictedOverwrite {
            cljb: d[0] & 0x01 != 0,
            buffer_block_size: d[3],
        }
    }
}

/// The ability to stop a long immediate operation by a command.
///
/// Feature code 0x0035.
#[derive(Clone, Copy, Debug, PartialEq, Eq, Structural)]
pub struct StopLongOperation {}

impl StopLongOperation {
    /// The payload these data bytes decode to.
    pub open spec fn spec_parse(d: Seq<u8>) -> StopLongOperation {
        StopLongOperation {}
    }

    /// Decodes this feature's fixed-size payload.
    pub fn parse(d: &[u8]) -> (r: StopLongOperation)
        requires
            d@.len() == 0,
        ensures
            r == StopLongOperation::spec_parse(d@),
    {
        StopLongOperation {}
    }
}

/// The report of CD-RW media sub-types supported for write.
///
/// Feature code 0x0037.
#[derive(Clone, Copy, Debug, PartialEq, Eq, Structural)]
pub struct CdRwMediaWriteSupport {
    pub cd_rw_subtype_support: CdRwSubtypes,
}

impl CdRwMediaWriteSupport {
    /// The payload these data bytes decode to.
    pub open spec fn spec_parse(d: Seq<u8>) -> CdRwMediaWriteSupport {
        CdRwMediaWriteSupport {
            cd_rw_subtype_support: CdRwSubtypes(d[1]),
        }
    }

    /// Decodes this feature's fixed-size payload.
    pub fn parse(d: &[u8]) -> (r: CdRwMediaWriteSupport)
        requires
            d@.len() == 4,
        ensures
            r == CdRwMediaWriteSupport::spec_parse(d@),
    {
        CdRwMediaWriteSupport {
            cd_rw_subtype_support: CdRwSubtypes(d[1]),
        }
    }
}

/// Logical-block overwrite service on BD-R discs formatted as SRM+POW.
///
/// Feature code 0x0038.
#[derive(Clone, Copy, Debug, PartialEq, Eq, Structural)]
pub struct BdRPow {}

impl BdRPow {
    /// The payload these data bytes decode to.
    pub open spec fn spec_parse(d: Seq<u8>) -> BdRPow {
        BdRPow {}
    }

    /// Decodes this feature's fixed-size payload.
    pub fn parse(d: &[u8]) -> (r: BdRPow)
        requires
            d@.len() == 4,
        ensures
            r == BdRPow::spec_parse(d@),
    {
        BdRPow {}
    }
}

/// The ability to read DVD+RW dual-layer recorded media formats.
///
/// Feature code 0x003a.
#[derive(Clone, Copy, Debug, PartialEq, Eq, Structural)]
pub struct DvdPlusRwDualLayer {
    pub write: bool,
    pub quick_start: bool,
    pub close_only: bool,
}

impl DvdPlusRwDualLayer {
    /// The payload these data bytes decode to.
    pub open spec fn spec_parse(d: Seq<u8>) -> DvdPlusRwDualLayer {
        DvdPlusRwDualLayer {
            write: d[0] & 0x01 != 0,
            quick_start: d[1] & 0x02 != 0,
            close_only: d[1] & 0x01 != 0,
        }
    }

    /// Decodes this feature's fixed-size payload.
    pub fn parse(d: &[u8]) -> (r: DvdPlusRwDualLayer)
        requires
            d@.len() == 4,
        ensures
            r == DvdPlusRwDualLayer::spec_parse(d@),
    {
        DvdPlusRwDualLayer {
            write: d[0] & 0x01 != 0,
            quick_start: d[1] & 0x02 != 0,
            close_only: d[1] & 0x01 != 0,
        }
    }
}

/// The ability to read DVD+R dual-layer recorded media formats.
///
/// Feature code 0x003b.
#[derive(Clone, Copy, Debug, PartialEq, Eq, Structural)]
pub struct DvdPlusRDualLayer {
    pub write: bool,
}

impl DvdPlusRDualLayer {
    /// The payload these data bytes decode to.
    pub open spec fn spec_parse(d: Seq<u8>) -> DvdPlusRDualLayer {
        DvdPlusRDualLayer {
            write: d[0] & 0x01 != 0,
        }
    }

    /// Decodes this feature's fixed-size payload.
    pub fn parse(d: &[u8]) -> (r: DvdPlusRDualLayer)
        requires
            d@.len() == 4,
        ensures
            r == DvdPlusRDualLayer::spec_parse(d@),
    {
        DvdPlusRDualLayer {
            write: d[0] & 0x01 != 0,
        }
    }
}

/// The ability to read control structures and user data from a BD disc.
///
/// Feature code 0x0040.
#[derive(Clone, Copy, Debug, PartialEq, Eq, Structural)]
pub struct BdRead {
    pub bd_re_class0_support: BdVersions,
    pub bd_re_class1_support: BdVersions,
    pub bd_re_class2_support: BdVersions,
    pub bd_re_class3_support: BdVersions,
    pub bd_r_class0_support: BdVersions,
    pub bd_r_class1_support: BdVersions,
    pub bd_r_class2_support: BdVersions,
    pub bd_r_class3_support: BdVersions,
    pub bd_rom_class0_support: BdVersions,
    pub bd_rom_class1_support: BdVersions,
    pub bd_rom_class2_support: BdVersions,
    pub bd_rom_class3_support: BdVersions,
}

impl BdRead {
    /// The payload these data bytes decode to.
    pub open spec fn spec_parse(d: Seq<u8>) -> BdRead {
        BdRead {
            bd_re_class0_support: BdVersions(spec_be16(d[4], d[5]) as u16),
            bd_re_class1_support: BdVersions(spec_be16(d[6], d[7]) as u16),
            bd_re_class2_support: BdVersions(spec_be16(d[8], d[9]) as u16),
            bd_re_class3_support: BdVersions(spec_be16(d[10], d[11]) as u16),
            bd_r_class0_support: BdVersions(spec_be16(d[12], d[13]) as u16),
            bd_r_class1_support: BdVersions(spec_be16(d[14], d[15]) as u16),
            bd_r_class2_support: BdVersions(spec_be16(d[16], d[17]) as u16),
            bd_r_class3_support: BdVersions(spec_be16(d[18], d[19]) as u16),
            bd_rom_class0_support: BdVersions(spec_be16(d[20], d[21]) as u16),
            bd_rom_class1_support: BdVersions(spec_be16(d[22], d[23]) as u16),
            bd_rom_class2_support: BdVersions(spec_be16(d[24], d[25]) as u16),
            bd_rom_class3_support: BdVersions(spec_be16(d[26], d[27]) as u16),
        }
    }

    /// Decodes this feature's fixed-size payload.
    pub fn parse(d: &[u8]) -> (r: BdRead)
        requires
            d@.len() == 28,
        ensures
            r == BdRead::spec_parse(d@),
    {
        BdRead {
            bd_re_class0_support: BdVersions(be16(d[4], d[5])),
            bd_re_class1_support: BdVersions(be16(d[6], d[7])),
            bd_re_class2_support: BdVersions(be16(d[8], d[9])),
            bd_re_class3_support: BdVersions(be16(d[10], d[11])),
            bd_r_class0_support: BdVersions(be16(d[12], d[13])),
            bd_r_class1_support: BdVersions(be16(d[14], d[15])),
            bd_r_class2_support: BdVersions(be16(d[16], d[17])),
            bd_r_class3_support: BdVersions(be16(d[18], d[19])),
            bd_rom_class0_support: BdVersions(be16(d[20], d[21])),
            bd_rom_class1_support: BdVersions(be16(d[22], d[23])),
            bd_rom_class2_support: BdVersions(be16(d[24], d[25])),
            bd_rom_class3_support: BdVersions(be16(d[26], d[27])),
        }
    }
}

/// The ability to write control structures and user data to certain BD discs.
///
/// Feature code 0x0041.
#[derive(Clone, Copy, Debug, PartialEq, Eq, Structural)]
pub struct BdWrite {
    pub bd_re_class0_support: BdVersions,
    pub bd_re_class1_support: BdVersions,
    pub bd_re_class2_support: BdVersions,
    pub bd_re_class3_support: BdVersions,
    pub bd_r_class0_support: BdVersions,
    pub bd_r_class1_support: BdVersions,
    pub bd_r_class2_support: BdVersions,
    pub bd_r_class3_support: BdVersions,
}

impl BdWrite {
    /// The payload these data bytes decode to.
    pub open spec fn spec_parse(d: Seq<u8>) -> BdWrite {
        BdWrite {
            bd_re_class0_support: BdVersions(spec_be16(d[4], d[5]) as u16),
            bd_re_class1_support: BdVersions(spec_be16(d[6], d[7]) as u16),
            bd_re_class2_support: BdVersions(spec_be16(d[8], d[9]) as u16),
            bd_re_class3_support: BdVersions(spec_be16(d[10], d[11]) as u16),
            bd_r_class0_support: BdVersions(spec_be16(d[12], d[13]) as u16),
            bd_r_class1_support: BdVersions(spec_be16(d[14], d[15]) as u16),
            bd_r_class2_support: BdVersions(spec_be16(d[16], d[17]) as u16),
            bd_r_class3_support: BdVersions(spec_be16(d[18], d[19]) as u16),
        }
    }

    /// Decodes this feature's fixed-size payload.
    pub fn parse(d: &[u8]) -> (r: BdWrite)
        requires
            d@.len() == 20,
        ensures
            r == BdWrite::spec_parse(d@),
    {
        BdWrite {
            bd_re_class0_support: BdVersions(be16(d[4], d[5])),
            bd_re_class1_support: BdVersions(be16(d[6], d[7])),
            bd_re_class2_support: BdVersions(be16(d[8], d[9])),
            bd_re_class3_support: BdVersions(be16(d[10], d[11])),
            bd_r_class0_support: BdVersions(be16(d[12], d[13])),
            bd_r_class1_support: BdVersions(be16(d[14], d[15])),
            bd_r_class2_support: BdVersions(be16(d[16], d[17])),
            bd_r_class3_support: BdVersions(be16(d[18], d[19])),
        }
    }
}

/// Timely safe recording permits the host to schedule defect management.
///
/// Feature code 0x0042.
#[derive(Clone, Copy, Debug, PartialEq, Eq, Structural)]
pub struct Tsr {}

impl Tsr {
    /// The payload these data bytes decode to.
    pub open spec fn spec_parse(d: Seq<u8>) -> Tsr {
        Tsr {}
    }

    /// Decodes this feature's fixed-size payload.
    pub fn parse(d: &[u8]) -> (r: Tsr)
        requires
            d@.len() == 0,
        ensures
            r == Tsr::spec_parse(d@),
    {
        Tsr {}
    }
}

/// The ability to read control structures and user data from an HD DVD disc.
///
/// Feature code 0x0050.
#[derive(Clone, Copy, Debug, PartialEq, Eq, Structural)]
pub struct HdDvdRead {
    pub hd_dvd_r: bool,
    pub hd_dvd_ram: bool,
}

impl HdDvdRead {
    /// The payload these data bytes decode to.
    pub open spec fn spec_parse(d: Seq<u8>) -> HdDvdRead {
        HdDvdRead {
            hd_dvd_r: d[0] & 0x01 != 0,
            hd_dvd_ram: d[2] & 0x01 != 0,
        }
    }

    /// Decodes this feature's fixed-size payload.
    pub fn parse(d: &[u8]) -> (r: HdDvdRead)
        requires
            d@.len() == 4,
        ensures
            r == HdDvdRead::spec_parse(d@),
    {
        HdDvdRead {
            hd_dvd_r: d[0] & 0x01 != 0,
            hd_dvd_ram: d[2] & 0x01 != 0,
        }
    }
}

/// The ability to write control structures and user data to certain HD DVD discs.
///
/// Feature code 0x0051.
#[derive(Clone, Copy, Debug, PartialEq, Eq, Structural)]
pub struct HdDvdWrite {
    pub hd_dvd_r: bool,
    pub hd_dvd_ram: bool,
}

impl HdDvdWrite {
    /// The payload these data bytes decode to.
    pub open spec fn spec_parse(d: Seq<u8>) -> HdDvdWrite {
        HdDvdWrite {
            hd_dvd_r: d[0] & 0x01 != 0,
            hd_dvd_ram: d[2] & 0x01 != 0,
        }
    }

    /// Decodes this feature's fixed-size payload.
    pub fn parse(d: &[u8]) -> (r: HdDvdWrite)
        requires
            d@.len() == 4,
        ensures
            r == HdDvdWrite::spec_parse(d@),
    {
        HdDvdWrite {
            hd_dvd_r: d[0] & 0x01 != 0,
            hd_dvd_ram: d[2] & 0x01 != 0,
        }
    }
}

/// The ability to record HD DVD-RW in fragment recording mode.
///
/// Feature code 0x0052.
#[derive(Clone, Copy, Debug, PartialEq, Eq, Structural)]
pub struct HdDvdRwFragmentRecording {
    pub bgp: bool,
}

impl HdDvdRwFragmentRecording {
    /// The payload these data bytes decode to.
    pub open spec fn spec_parse(d: Seq<u8>) -> HdDvdRwFragmentRecording {
        HdDvdRwFragmentRecording {
            bgp: d[0] & 0x01 != 0,
        }
    }

    /// Decodes this feature's fixed-size payload.
    pub fn parse(d: &[u8]) -> (r: HdDvdRwFragmentRecording)
        requires
            d@.len() == 4,
        ensures
            r == HdDvdRwFragmentRecording::spec_parse(d@),
    {
        HdDvdRwFragmentRecording {
            bgp: d[0] & 0x01 != 0,
        }
    }
}

/// The ability to access some hybrid discs.
///
/// Feature code 0x0080.
#[derive(Clone, Copy, Debug, PartialEq, Eq, Structural)]
pub struct HybridDisc {
    pub ri: bool,
}

impl HybridDisc {
    /// The payload these data bytes decode to.
    pub open spec fn spec_parse(d: Seq<u8>) -> HybridDisc {
        HybridDisc {
            ri: d[0] & 0x01 != 0,
        }
    }

    /// Decodes this feature's fixed-size payload.
    pub fn parse(d: &[u8]) -> (r: HybridDisc)
        requires
            d@.len() == 4,
        ensures
            r == HybridDisc::spec_parse(d@),
    {
        HybridDisc {
            ri: d[0] & 0x01 != 0,
        }
    }
}

/// Host- and device-directed power management.
///
/// Feature code 0x0100.
#[derive(Clone, Copy, Debug, PartialEq, Eq, Structural)]
pub struct PowerManagement {}

impl PowerManagement {
    /// The payload these data bytes decode to.
    pub open spec fn spec_parse(d: Seq<u8>) -> PowerManagement {
        PowerManagement {}
    }

    /// Decodes this feature's fixed-size payload.
    pub fn parse(d: &[u8]) -> (r: PowerManagement)
        requires
            d@.len() == 0,
        ensures
            r == PowerManagement::spec_parse(d@),
    {
        PowerManagement {}
    }
}

/// Self-monitoring analysis and reporting technology.
///
/// Feature code 0x0101.
#[derive(Clone, Copy, Debug, PartialEq, Eq, Structural)]
pub struct Smart {
    pub pp: bool,
}

impl Smart {
    /// The payload these data bytes decode to.
    pub open spec fn spec_parse(d: Seq<u8>) -> Smart {
        Smart {
            pp: d[0] & 0x01 != 0,
        }
    }

    /// Decodes this feature's fixed-size payload.
    pub fn parse(d: &[u8]) -> (r: Smart)
        requires
            d@.len() == 4,
        ensures
            r == Smart::spec_parse(d@),
    {
        Smart {
            pp: d[0] & 0x01 != 0,
        }
    }
}

/// Single-mechanism multiple-disc changer.
///
/// Feature code 0x0102.
#[derive(Clone, Copy, Debug, PartialEq, Eq, Structural)]
pub struct EmbeddedChanger {
    pub scc: bool,
    pub sdp: bool,
    pub highest_slot_number: u8,
}

impl EmbeddedChanger {
    /// The payload these data bytes decode to.
    pub open spec fn spec_parse(d: Seq<u8>) -> EmbeddedChanger {
        EmbeddedChanger {
            scc: d[0] & 0x10 != 0,
            sdp: d[0] & 0x04 != 0,
            highest_slot_number: d[3] & 0x1f,
        }
    }

    /// Decodes this feature's fixed-size payload.
    pub fn parse(d: &[u8]) -> (r: EmbeddedChanger)
        requires
            d@.len() == 4,
        ensures
            r == EmbeddedChanger::spec_parse(d@),
    {
        EmbeddedChanger {
            scc: d[0] & 0x10 != 0,
            sdp: d[0] & 0x04 != 0,
            highest_slot_number: d[3] & 0x1f,
        }
    }
}

/// The ability to play CD audio data directly to an external output.
///
/// Feature code 0x0103.
#[derive(Clone, Copy, Debug, PartialEq, Eq, Structural)]
pub struct CdAudioExternalPlay {
    pub scan: bool,
    pub scm: bool,
    pub sv: bool,
    pub number_of_volume_levels: u16,
}

impl CdAudioExternalPlay {
    /// The payload these data bytes decode to.
    pub open spec fn spec_parse(d: Seq<u8>) -> CdAudioExternalPlay {
        CdAudioExternalPlay {
            scan: d[0] & 0x04 != 0,
            scm: d[0] & 0x02 != 0,
            sv: d[0] & 0x01 != 0,
            number_of_volume_levels: (spec_be16(d[2], d[3]) as u16),
        }
    }

    /// Decodes this feature's fixed-size payload.
    pub fn parse(d: &[u8]) -> (r: CdAudioExternalPlay)
        requires
            d@.len() == 4,
        ensures
            r == CdAudioExternalPlay::spec_parse(d@),
    {
        CdAudioExternalPlay {
            scan: d[0] & 0x04 != 0,
            scm: d[0] & 0x02 != 0,
            sv: d[0] & 0x01 != 0,
            number_of_volume_levels: be16(d[2], d[3]),
        }
    }
}

/// The ability to accept new microcode via the interface.
///
/// Feature code 0x0104.
#[derive(Clone, Copy, Debug, PartialEq, Eq, Structural)]
pub struct MicrocodeUpgrade {
    pub m5: bool,
}

impl MicrocodeUpgrade {
    /// The payload these data bytes decode to.
    pub open spec fn spec_parse(d: Seq<u8>) -> MicrocodeUpgrade {
        MicrocodeUpgrade {
            m5: d[0] & 0x01 != 0,
        }
    }

    /// Decodes this feature's fixed-size payload.
    pub fn parse(d: &[u8]) -> (r: MicrocodeUpgrade)
        requires
            d@.len() == 4,
        ensures
            r == MicrocodeUpgrade::spec_parse(d@),
    {
        MicrocodeUpgrade {
            m5: d[0] & 0x01 != 0,
        }
    }
}

/// The ability to respond to all commands within a specific time.
///
/// Feature code 0x0105.
#[derive(Clone, Copy, Debug, PartialEq, Eq, Structural)]
pub struct Timeout {
    pub group3: bool,
    pub unit_length: u16,
}

impl Timeout {
    /// The payload these data bytes decode to.
    pub open spec fn spec_parse(d: Seq<u8>) -> Timeout {
        Timeout {
            group3: d[0] & 0x01 != 0,
            unit_length: (spec_be16(d[2], d[3]) as u16),
        }
    }

    /// Decodes this feature's fixed-size payload.
    pub fn parse(d: &[u8]) -> (r: Timeout)
        requires
            d@.len() == 4,
        ensures
            r == Timeout::spec_parse(d@),
    {
        Timeout {
            group3: d[0] & 0x01 != 0,
            unit_length: be16(d[2], d[3]),
        }
    }
}

/// The ability to perform DVD CSS/CPPM authentication and RPC.
///
/// Feature code 0x0106.
#[derive(Clone, Copy, Debug, PartialEq, Eq, Structural)]
pub struct DvdCss {
    pub css_version: u8,
}

impl DvdCss {
    /// The payload these data bytes decode to.
    pub open spec fn spec_parse(d: Seq<u8>) -> DvdCss {
        DvdCss {
            css_version: d[3],
        }
    }

    /// Decodes this feature's fixed-size payload.
    pub fn parse(d: &[u8]) -> (r: DvdCss)
        requires
            d@.len() == 4,
        ensures
            r == DvdCss::spec_parse(d@),
    {
        DvdCss {
            css_version: d[3],
        }
    }
}

/// The ability to read and write using host-requested performance parameters.
///
/// Feature code 0x0107.
#[derive(Clone, Copy, Debug, PartialEq, Eq, Structural)]
pub struct RealTimeStreaming {
    pub rbcb: bool,
    pub scs: bool,
    pub mp2a: bool,
    pub wspd: bool,
    pub sw: bool,
}

impl RealTimeStreaming {
    /// The payload these data bytes decode to.
    pub open spec fn spec_parse(d: Seq<u8>) -> RealTimeStreaming {
        RealTimeStreaming {
            rbcb: d[0] & 0x10 != 0,
            scs: d[0] & 0x08 != 0,
            mp2a: d[0] & 0x04 != 0,
            wspd: d[0] & 0x02 != 0,
            sw: d[0] & 0x01 != 0,
        }
    }

    /// Decodes this feature's fixed-size payload.
    pub fn parse(d: &[u8]) -> (r: RealTimeStreaming)
        requires
            d@.len() == 4,
        ensures
            r == RealTimeStreaming::spec_parse(d@),
    {
        RealTimeStreaming {
            rbcb: d[0] & 0x10 != 0,
            scs: d[0] & 0x08 != 0,
            mp2a: d[0] & 0x04 != 0,
            wspd: d[0] & 0x02 != 0,
            sw: d[0] & 0x01 != 0,
        }
    }
}

/// The ability to return a unique media serial number.
///
/// Feature code 0x0109.
#[derive(Clone, Copy, Debug, PartialEq, Eq, Structural)]
pub struct MediaSerialNumber {}

impl MediaSerialNumber {
    /// The payload these data bytes decode to.
    pub open spec fn spec_parse(d: Seq<u8>) -> MediaSerialNumber {
        MediaSerialNumber {}
    }

    /// Decodes this feature's fixed-size payload.
    pub fn parse(d: &[u8]) -> (r: MediaSerialNumber)
        requires
            d@.len() == 0,
        ensures
            r == MediaSerialNumber::spec_parse(d@),
    {
        MediaSerialNumber {}
    }
}

/// Support for DVD CPRM authentication.
///
/// Feature code 0x010b.
#[derive(Clone, Copy, Debug, PartialEq, Eq, Structural)]
pub struct DvdCprm {
    pub cprm_version: u8,
}

impl DvdCprm {
    /// The payload these data bytes decode to.
    pub open spec fn spec_parse(d: Seq<u8>) -> DvdCprm {
        DvdCprm {
            cprm_version: d[3],
        }
    }

    /// Decodes this feature's fixed-size payload.
    pub fn parse(d: &[u8]) -> (r: DvdCprm)
        requires
            d@.len() == 4,
        ensures
            r == DvdCprm::spec_parse(d@),
    {
        DvdCprm {
            cprm_version: d[3],
        }
    }
}

/// Firmware creation date report.
///
/// Feature code 0x010c.
#[derive(Clone, Copy, Debug, PartialEq, Eq, Structural)]
pub struct FirmwareInformation {
    pub century: u16,
    pub year: u16,
    pub month: u16,
    pub day: u16,
    pub hour: u16,
    pub minute: u16,
    pub second: u16,
}

impl FirmwareInformation {
    /// The payload these data bytes decode to.
    pub open spec fn spec_parse(d: Seq<u8>) -> FirmwareInformation {
        FirmwareInformation {
            century: (spec_be16(d[0], d[1]) as u16),
            year: (spec_be16(d[2], d[3]) as u16),
            month: (spec_be16(d[4], d[5]) as u16),
            day: (spec_be16(d[6], d[7]) as u16),
            hour: (spec_be16(d[8], d[9]) as u16),
            minute: (spec_be16(d[10], d[11]) as u16),
            second: (spec_be16(d[12], d[13]) as u16),
        }
    }

    /// Decodes this feature's fixed-size payload.
    pub fn parse(d: &[u8]) -> (r: FirmwareInformation)
        requires
            d@.len() == 16,
        ensures
            r == FirmwareInformation::spec_parse(d@),
    {
        FirmwareInformation {
            century: be16(d[0], d[1]),
            year: be16(d[2], d[3]),
            month: be16(d[4], d[5]),
            day: be16(d[6], d[7]),
            hour: be16(d[8], d[9]),
            minute: be16(d[10], d[11]),
            second: be16(d[12], d[13]),
        }
    }
}

/// The ability to decode and optionally encode AACS protected information.
///
/// Feature code 0x010d.
#[derive(Clone, Copy, Debug, PartialEq, Eq, Structural)]
pub struct Aacs {
    pub bng: bool,
    pub block_count_binding_nonce: u8,
    pub number_of_agids: u8,
    pub aacs_version: u8,
}

impl Aacs {
    /// The payload these data bytes decode to.
    pub open spec fn spec_parse(d: Seq<u8>) -> Aacs {
        Aacs {
            bng: d[0] & 0x01 != 0,
            block_count_binding_nonce: d[1],
            number_of_agids: d[2] & 0x0f,
            aacs_version: d[3],
        }
    }

    /// Decodes this feature's fixed-size payload.
    pub fn parse(d: &[u8]) -> (r: Aacs)
        requires
            d@.len() == 4,
        ensures
            r == Aacs::spec_parse(d@),
    {
        Aacs {
            bng: d[0] & 0x01 != 0,
            block_count_binding_nonce: d[1],
            number_of_agids: d[2] & 0x0f,
            aacs_version: d[3],
        }
    }
}

/// The ability to perform DVD CSS managed recording.
///
/// Feature code 0x010e.
#[derive(Clone, Copy, Debug, PartialEq, Eq, Structural)]
pub struct DvdCssManagedRecording {
    pub max_scramble_extent_info_entries: u8,
}

impl DvdCssManagedRecording {
    /// The payload these data bytes decode to.
    pub open spec fn spec_parse(d: Seq<u8>) -> DvdCssManagedRecording {
        DvdCssManagedRecording {
            max_scramble_extent_info_entries: d[0],
        }
    }

    /// Decodes this feature's fixed-size payload.
    pub fn parse(d: &[u8]) -> (r: DvdCssManagedRecording)
        requires
            d@.len() == 4,
        ensures
            r == DvdCssManagedRecording::spec_parse(d@),
    {
        DvdCssManagedRecording {
            max_scramble_extent_info_entries: d[0],
        }
    }
}

/// The ability to decode and optionally encode VCPS protected information.
///
/// Feature code 0x0110.
#[derive(Clone, Copy, Debug, PartialEq, Eq, Structural)]
pub struct Vcps {}

impl Vcps {
    /// The payload these data bytes decode to.
    pub open spec fn spec_parse(d: Seq<u8>) -> Vcps {
        Vcps {}
    }

    /// Decodes this feature's fixed-size payload.
    pub fn parse(d: &[u8]) -> (r: Vcps)
        requires
            d@.len() == 4,
        ensures
            r == Vcps::spec_parse(d@),
    {
        Vcps {}
    }
}

/// The ability to encode and decode SecurDisc protected information.
///
/// Feature code 0x0113.
#[derive(Clone, Copy, Debug, PartialEq, Eq, Structural)]
pub struct SecurDisc {}

impl SecurDisc {
    /// The payload these data bytes decode to.
    pub open spec fn spec_parse(d: Seq<u8>) -> SecurDisc {
        SecurDisc {}
    }

    /// Decodes this feature's fixed-size payload.
    pub fn parse(d: &[u8]) -> (r: SecurDisc)
        requires
            d@.len() == 0,
        ensures
            r == SecurDisc::spec_parse(d@),
    {
        SecurDisc {}
    }
}

} // verus!
