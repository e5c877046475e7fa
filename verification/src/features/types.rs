//! Value types shared by the feature descriptors: drive profiles, the
//! physical interface standard, the loading mechanism, and the small
//! bit-packed sets some features carry.

use vstd::prelude::*;
use crate::util::{spec_be16, be16};

verus! {

/// A 16-bit value naming a drive profile. Unlisted values carry their raw
/// number as a reserved profile.
#[derive(Clone, Copy, Debug, PartialEq, Eq, Structural)]
pub enum Profile {
    /// Non-removable disk.
    NonRemovableDisk,
    /// Re-writable, with removable media.
    RemovableDisk,
    /// Magneto-optical disk with sector erase capability.
    MoErasable,
    /// Optical write once.
    OpticalWriteOnce,
    /// Advance Storage - Magneto-Optical.
    AsMo,
    /// Read-only Compact Disc capable.
    CdRom,
    /// Write-once Compact Disc capable.
    CdR,
    /// Re-writable Compact Disc capable.
    CdRw,
    /// Read-only DVD.
    DvdRom,
    /// Write-once DVD using sequential recording.
    DvdRSequentialRecording,
    /// Re-writable DVD.
    DvdRam,
    /// Re-recordable DVD using restricted overwrite.
    DvdRwRestrictedOverwrite,
    /// Re-recordable DVD using sequential recording.
    DvdRwSequentialRecording,
    /// Dual-layer DVD-R using sequential recording.
    DvdRDualLayerSequentialRecording,
    /// Dual-layer DVD-R using layer-jump recording.
    DvdRDualLayerJumpRecording,
    /// Dual-layer DVD-RW recording.
    DvdRwDualLayer,
    /// Write-once DVD for CSS managed recording.
    DvdDownloadDiscRecording,
    /// DVD+ReWritable.
    DvdPlusRw,
    /// DVD+Recordable.
    DvdPlusR,
    /// The DDCD-ROM profile.
    DdcdRom,
    /// The DDCD-R profile.
    DdcdR,
    /// The DDCD-RW profile.
    DdcdRw,
    /// DVD+Rewritable dual layer.
    DvdPlusRwDualLayer,
    /// DVD+Recordable dual layer.
    DvdPlusRDualLayer,
    /// Blu-ray Disc ROM.
    BdRom,
    /// Blu-ray Disc Recordable, sequential recording mode.
    BdRSrm,
    /// Blu-ray Disc Recordable, random recording mode.
    BdRRrm,
    /// Blu-ray Disc Rewritable.
    BdRe,
    /// Read-only HD DVD.
    HdDvdRom,
    /// Write-once HD DVD.
    HdDvdR,
    /// Rewritable HD DVD-RAM.
    HdDvdRam,
    /// Rewritable HD DVD-RW.
    HdDvdRw,
    /// Dual-layer write-once HD DVD.
    HdDvdRDualLayer,
    /// Dual-layer rewritable HD DVD.
    HdDvdRwDualLayer,
    /// The drive does not conform to any profile.
    NonConforming,
    /// A currently reserved profile number, carried raw.
    Reserved(u16),
}

impl Profile {
    /// The profile named by a 16-bit value; total, unlisted values are
    /// reserved.
    pub open spec fn spec_from(value: u16) -> Profile {
        match value {
            0x0001 => Profile::NonRemovableDisk,
            0x0002 => Profile::RemovableDisk,
            0x0003 => Profile::MoErasable,
            0x0004 => Profile::OpticalWriteOnce,
            0x0005 => Profile::AsMo,
            0x0008 => Profile::CdRom,
            0x0009 => Profile::CdR,
            0x000A => Profile::CdRw,
            0x0010 => Profile::DvdRom,
            0x0011 => Profile::DvdRSequentialRecording,
            0x0012 => Profile::DvdRam,
            0x0013 => Profile::DvdRwRestrictedOverwrite,
            0x0014 => Profile::DvdRwSequentialRecording,
            0x0015 => Profile::DvdRDualLayerSequentialRecording,
            0x0016 => Profile::DvdRDualLayerJumpRecording,
            0x0017 => Profile::DvdRwDualLayer,
            0x0018 => Profile::DvdDownloadDiscRecording,
            0x001A => Profile::DvdPlusRw,
            0x001B => Profile::DvdPlusR,
            0x0020 => Profile::DdcdRom,
            0x0021 => Profile::DdcdR,
            0x0022 => Profile::DdcdRw,
            0x002A => Profile::DvdPlusRwDualLayer,
            0x002B => Profile::DvdPlusRDualLayer,
            0x0040 => Profile::BdRom,
            0x0041 => Profile::BdRSrm,
            0x0042 => Profile::BdRRrm,
            0x0043 => Profile::BdRe,
            0x0050 => Profile::HdDvdRom,
            0x0051 => Profile::HdDvdR,
            0x0052 => Profile::HdDvdRam,
            0x0053 => Profile::HdDvdRw,
            0x0058 => Profile::HdDvdRDualLayer,
            0x005A => Profile::HdDvdRwDualLayer,
            0xFFFF => Profile::NonConforming,
            _ => Profile::Reserved(value),
        }
    }

    /// Decodes a 16-bit profile number.
    pub fn from(value: u16) -> (r: Profile)
        ensures
            r == Profile::spec_from(value),
    {
        match value {
            0x0001 => Profile::NonRemovableDisk,
            0x0002 => Profile::RemovableDisk,
            0x0003 => Profile::MoErasable,
            0x0004 => Profile::OpticalWriteOnce,
            0x0005 => Profile::AsMo,
            0x0008 => Profile::CdRom,
            0x0009 => Profile::CdR,
            0x000A => Profile::CdRw,
            0x0010 => Profile::DvdRom,
            0x0011 => Profile::DvdRSequentialRecording,
            0x0012 => Profile::DvdRam,
            0x0013 => Profile::DvdRwRestrictedOverwrite,
            0x0014 => Profile::DvdRwSequentialRecording,
            0x0015 => Profile::DvdRDualLayerSequentialRecording,
            0x0016 => Profile::DvdRDualLayerJumpRecording,
            0x0017 => Profile::DvdRwDualLayer,
            0x0018 => Profile::DvdDownloadDiscRecording,
            0x001A => Profile::DvdPlusRw,
            0x001B => Profile::DvdPlusR,
            0x0020 => Profile::DdcdRom,
            0x0021 => Profile::DdcdR,
            0x0022 => Profile::DdcdRw,
            0x002A => Profile::DvdPlusRwDualLayer,
            0x002B => Profile::DvdPlusRDualLayer,
            0x0040 => Profile::BdRom,
            0x0041 => Profile::BdRSrm,
            0x0042 => Profile::BdRRrm,
            0x0043 => Profile::BdRe,
            0x0050 => Profile::HdDvdRom,
            0x0051 => Profile::HdDvdR,
            0x0052 => Profile::HdDvdRam,
            0x0053 => Profile::HdDvdRw,
            0x0058 => Profile::HdDvdRDualLayer,
            0x005A => Profile::HdDvdRwDualLayer,
            0xFFFF => Profile::NonConforming,
            _ => Profile::Reserved(value),
        }
    }
}
/// A 32-bit value naming the physical interface standard a drive uses.
/// Unlisted values carry their raw number.
#[derive(Clone, Copy, Debug, PartialEq, Eq, Structural)]
pub enum PhysicalInterfaceStandard {
    Unspecified,
    ScsiFamily,
    Atapi,
    Ieee1394_1995,
    Ieee1394A,
    FibreChannel,
    Ieee1394B,
    SerialAtapi,
    Usb,
    /// An INCITS-defined value, carried raw.
    IncitsDefined(u32),
    /// An SFF-defined value, carried raw.
    SffDefined(u32),
    /// An IEEE-defined value, carried raw.
    IeeeDefined(u32),
    VendorUnique,
    /// A currently reserved value, carried raw.
    Reserved(u32),
}

impl PhysicalInterfaceStandard {
    /// The interface standard named by a 32-bit value; total, unlisted
    /// values are reserved.
    pub open spec fn spec_from(value: u32) -> PhysicalInterfaceStandard {
        if value == 0x00000000 {
            PhysicalInterfaceStandard::Unspecified
        } else if value == 0x00000001 {
            PhysicalInterfaceStandard::ScsiFamily
        } else if value == 0x00000002 {
            PhysicalInterfaceStandard::Atapi
        } else if value == 0x00000003 {
            PhysicalInterfaceStandard::Ieee1394_1995
        } else if value == 0x00000004 {
            PhysicalInterfaceStandard::Ieee1394A
        } else if value == 0x00000005 {
            PhysicalInterfaceStandard::FibreChannel
        } else if value == 0x00000006 {
            PhysicalInterfaceStandard::Ieee1394B
        } else if value == 0x00000007 {
            PhysicalInterfaceStandard::SerialAtapi
        } else if value == 0x00000008 {
            PhysicalInterfaceStandard::Usb
        } else if value == 0x0000FFFF {
            PhysicalInterfaceStandard::VendorUnique
        } else if 0x00010000 <= value <= 0x0001FFFF {
            PhysicalInterfaceStandard::IncitsDefined(value)
        } else if 0x00020000 <= value <= 0x0002FFFF {
            PhysicalInterfaceStandard::SffDefined(value)
        } else if 0x00030000 <= value <= 0x0003FFFF {
            PhysicalInterfaceStandard::IeeeDefined(value)
        } else {
            PhysicalInterfaceStandard::Reserved(value)
        }
    }

    /// Decodes a 32-bit physical interface standard.
    pub fn from(value: u32) -> (r: PhysicalInterfaceStandard)
        ensures
            r == PhysicalInterfaceStandard::spec_from(value),
    {
        if value == 0x00000000 {
            PhysicalInterfaceStandard::Unspecified
        } else if value == 0x00000001 {
            PhysicalInterfaceStandard::ScsiFamily
        } else if value == 0x00000002 {
            PhysicalInterfaceStandard::Atapi
        } else if value == 0x00000003 {
            PhysicalInterfaceStandard::Ieee1394_1995
        } else if value == 0x00000004 {
            PhysicalInterfaceStandard::Ieee1394A
        } else if value == 0x00000005 {
            PhysicalInterfaceStandard::FibreChannel
        } else if value == 0x00000006 {
            PhysicalInterfaceStandard::Ieee1394B
        } else if value == 0x00000007 {
            PhysicalInterfaceStandard::SerialAtapi
        } else if value == 0x00000008 {
            PhysicalInterfaceStandard::Usb
        } else if value == 0x0000FFFF {
            PhysicalInterfaceStandard::VendorUnique
        } else if 0x00010000 <= value && value <= 0x0001FFFF {
            PhysicalInterfaceStandard::IncitsDefined(value)
        } else if 0x00020000 <= value && value <= 0x0002FFFF {
            PhysicalInterfaceStandard::SffDefined(value)
        } else if 0x00030000 <= value && value <= 0x0003FFFF {
            PhysicalInterfaceStandard::IeeeDefined(value)
        } else {
            PhysicalInterfaceStandard::Reserved(value)
        }
    }
}

/// The three-bit loading mechanism type reported by drives with removable
/// media. Unlisted values carry their raw number.
#[derive(Clone, Copy, Debug, PartialEq, Eq, Structural)]
pub enum LoadingMechanism {
    CaddySlot,
    Tray,
    PopUp,
    EmbeddedIndividuallyChangeable,
    EmbeddedMagazine,
    /// A currently reserved value, carried raw.
    Reserved(u8),
}

impl LoadingMechanism {
    /// The mechanism named by the low three bits of a value; total.
    pub open spec fn spec_from(value: u8) -> LoadingMechanism {
        if value & 7 == 0 {
            LoadingMechanism::CaddySlot
        } else if value & 7 == 1 {
            LoadingMechanism::Tray
        } else if value & 7 == 2 {
            LoadingMechanism::PopUp
        } else if value & 7 == 4 {
            LoadingMechanism::EmbeddedIndividuallyChangeable
        } else if value & 7 == 5 {
            LoadingMechanism::EmbeddedMagazine
        } else {
            LoadingMechanism::Reserved((value & 7) as u8)
        }
    }

    /// Decodes the low three bits of a loading-mechanism field.
    pub fn from(value: u8) -> (r: LoadingMechanism)
        ensures
            r == LoadingMechanism::spec_from(value),
    {
        let v = value & 7;
        if v == 0 {
            LoadingMechanism::CaddySlot
        } else if v == 1 {
            LoadingMechanism::Tray
        } else if v == 2 {
            LoadingMechanism::PopUp
        } else if v == 4 {
            LoadingMechanism::EmbeddedIndividuallyChangeable
        } else if v == 5 {
            LoadingMechanism::EmbeddedMagazine
        } else {
            LoadingMechanism::Reserved(v)
        }
    }
}

/// One four-byte block of the profile list naming a profile the drive
/// conforms to and whether it is currently active.
#[derive(Clone, Copy, Debug, PartialEq, Eq, Structural)]
pub struct ProfileDescriptor {
    pub profile_number: Profile,
    pub current_p: bool,
}

impl ProfileDescriptor {
    /// The descriptor encoded by a four-byte block: a big-endian profile
    /// number and the current bit.
    pub open spec fn spec_parse(b: Seq<u8>) -> ProfileDescriptor {
        ProfileDescriptor {
            profile_number: Profile::spec_from(spec_be16(b[0], b[1]) as u16),
            current_p: b[2] & 1 != 0,
        }
    }

    /// Decodes one four-byte profile descriptor block.
    pub fn parse(b: &[u8]) -> (r: ProfileDescriptor)
        requires
            b@.len() == 4,
        ensures
            r == ProfileDescriptor::spec_parse(b@),
    {
        ProfileDescriptor {
            profile_number: Profile::from(be16(b[0], b[1])),
            current_p: b[2] & 1 != 0,
        }
    }
}

/// The bit-packed set of CD data block types a feature supports, carried as
/// its raw 16-bit field.
#[derive(Clone, Copy, Debug, PartialEq, Eq, Structural)]
pub struct DataBlockTypes(pub u16);

/// The bit-packed set of CD-RW media sub-types supported for writing,
/// carried as its raw 8-bit field.
#[derive(Clone, Copy, Debug, PartialEq, Eq, Structural)]
pub struct CdRwSubtypes(pub u8);

/// The bit-packed set of Blu-ray Disc versions supported for one class of
/// one media type, carried as its raw 16-bit field.
#[derive(Clone, Copy, Debug, PartialEq, Eq, Structural)]
pub struct BdVersions(pub u16);

} // verus!
