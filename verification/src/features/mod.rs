//! The feature-descriptor parser for GET CONFIGURATION payloads.
//!
//! The wire format is a sequence of self-describing records: a four-byte
//! sub-header holding a 16-bit feature code, a packed version/persistent/
//! current byte and an eight-bit additional length, followed by that many
//! payload bytes. The parser reads records in order; fewer than four bytes
//! remaining ends the list, as does a record whose declared payload overruns
//! the remaining bytes. A known code whose payload fails its size contract
//! is skipped and parsing continues at the next record; unknown codes decode
//! into an opaque record keeping the raw code and bytes, so the dispatch
//! stays open to vendor and future codes.

use vstd::prelude::*;
use crate::features::payloads::{
    Aacs, BdRPow, BdRead, BdWrite, CdAudioExternalPlay, CdMastering, CdRead, CdRwCavWrite,
    CdRwMediaWriteSupport, CdTrackAtOnce, Core, DiscControlBlocks, DoubleDensityCdRWrite,
    DoubleDensityCdRead, DoubleDensityCdRwWrite, DriveSerialNumber, DvdCprm, DvdCss,
    DvdCssManagedRecording, DvdPlusR, DvdPlusRDualLayer, DvdPlusRw, DvdPlusRwDualLayer, DvdRRwWrite,
    DvdRead, EmbeddedChanger, EnhancedDefectReporting, FirmwareInformation, Formattable,
    HardwareDefectManagement,
    HdDvdRead, HdDvdRwFragmentRecording, HdDvdWrite, HybridDisc, IncrementalStreamingWritable,
    LayerJumpRecording, LayerJumpRigidRestrictedOverwrite, MediaSerialNumber, MicrocodeUpgrade,
    Morphing, Mrw, MultiRead, Ossc, PowerManagement, ProfileList, RandomReadable, RandomWritable,
    RealTimeStreaming, RemovableMedium, RestrictedOverwrite, RigidRestrictedOverwrite,
    SectorErasable, SecurDisc, Smart, StopLongOperation, Timeout, Tsr, UnknownFeature, Vcps,
    WriteOnce, WriteProtect, spec_link_sizes,
};
use crate::features::types::DataBlockTypes;
use crate::util::{be16, spec_be16, spec_trim_trailing_spaces};

pub mod payloads;
pub mod types;

verus! {

/// A malformed feature record.
#[derive(Clone, Copy, Debug, PartialEq, Eq, Structural)]
pub enum FeatureError {
    /// Fewer than the four sub-header bytes were available.
    DescriptorSize,
    /// The record declared more payload bytes than were available.
    MissingData { expected: usize, received: usize },
    /// A known feature's payload failed its size contract.
    DataSize { expected: DataSize, received: usize },
}

/// The size contract of a feature's payload: an exact byte count, or a
/// minimum for features whose payload ends in a variable part.
#[derive(Clone, Copy, Debug, PartialEq, Eq, Structural)]
pub enum DataSize {
    Fixed(u8),
    Variable(u8),
}

impl DataSize {
    /// Whether a payload of `len` bytes meets this contract.
    pub open spec fn spec_cmp_size(self, len: int) -> bool {
        match self {
            DataSize::Fixed(s) => len == s,
            DataSize::Variable(min) => len >= min,
        }
    }

    /// Tests a payload length against this contract.
    pub fn cmp_size(&self, len: usize) -> (r: bool)
        ensures
            r == self.spec_cmp_size(len as int),
    {
        match self {
            DataSize::Fixed(s) => len == *s as usize,
            DataSize::Variable(min) => len >= *min as usize,
        }
    }
}

/// The four-byte sub-header of every feature record.
#[derive(Clone, Copy, Debug, PartialEq, Eq, Structural)]
pub struct FeatureHeader {
    pub feature_code: u16,
    /// Four-bit version of the feature's format.
    pub version: u8,
    /// The feature is always active.
    pub persistent: bool,
    /// The feature is currently active.
    pub current: bool,
    /// Payload bytes following the sub-header.
    pub additional_length: u8,
}

impl FeatureHeader {
    /// The sub-header encoded by the first four bytes of a record.
    pub open spec fn spec_parse(b: Seq<u8>) -> FeatureHeader {
        FeatureHeader {
            feature_code: (spec_be16(b[0], b[1]) as u16),
            version: (b[2] & 0x3c) >> 2,
            persistent: b[2] & 0x02 != 0,
            current: b[2] & 0x01 != 0,
            additional_length: b[3],
        }
    }

    /// Decodes a record's sub-header from its first four bytes.
    pub fn parse(b: &[u8]) -> (r: FeatureHeader)
        requires
            b@.len() >= 4,
        ensures
            r == FeatureHeader::spec_parse(b@),
    {
        FeatureHeader {
            feature_code: be16(b[0], b[1]),
            version: (b[2] & 0x3c) >> 2,
            persistent: b[2] & 0x02 != 0,
            current: b[2] & 0x01 != 0,
            additional_length: b[3],
        }
    }
}

/// One decoded feature record: its sub-header and its typed payload.
#[derive(Clone, Debug, PartialEq, Eq)]
pub struct FeatureDescriptor {
    pub header: FeatureHeader,
    pub payload: FeaturePayload,
}

/// The decoded payload of one feature descriptor: a closed union over
/// every known feature shape plus an opaque fallback for codes the
/// dispatch does not recognize.
#[derive(Clone, Debug, PartialEq, Eq)]
pub enum FeaturePayload {
    ProfileList(ProfileList),
    Core(Core),
    Morphing(Morphing),
    RemovableMedium(RemovableMedium),
    WriteProtect(WriteProtect),
    RandomReadable(RandomReadable),
    MultiRead(MultiRead),
    CdRead(CdRead),
    DvdRead(DvdRead),
    RandomWritable(RandomWritable),
    IncrementalStreamingWritable(IncrementalStreamingWritable),
    SectorErasable(SectorErasable),
    Formattable(Formattable),
    HardwareDefectManagement(HardwareDefectManagement),
    WriteOnce(WriteOnce),
    RestrictedOverwrite(RestrictedOverwrite),
    CdRwCavWrite(CdRwCavWrite),
    Mrw(Mrw),
    EnhancedDefectReporting(EnhancedDefectReporting),
    DvdPlusRw(DvdPlusRw),
    DvdPlusR(DvdPlusR),
    RigidRestrictedOverwrite(RigidRestrictedOverwrite),
    CdTrackAtOnce(CdTrackAtOnce),
    CdMastering(CdMastering),
    DvdRRwWrite(DvdRRwWrite),
    DoubleDensityCdRead(DoubleDensityCdRead),
    DoubleDensityCdRWrite(DoubleDensityCdRWrite),
    DoubleDensityCdRwWrite(DoubleDensityCdRwWrite),
    LayerJumpRecording(LayerJumpRecording),
    LayerJumpRigidRestrictedOverwrite(LayerJumpRigidRestrictedOverwrite),
    StopLongOperation(StopLongOperation),
    CdRwMediaWriteSupport(CdRwMediaWriteSupport),
    BdRPow(BdRPow),
    DvdPlusRwDualLayer(DvdPlusRwDualLayer),
    DvdPlusRDualLayer(DvdPlusRDualLayer),
    BdRead(BdRead),
    BdWrite(BdWrite),
    Tsr(Tsr),
    HdDvdRead(HdDvdRead),
    HdDvdWrite(HdDvdWrite),
    HdDvdRwFragmentRecording(HdDvdRwFragmentRecording),
    HybridDisc(HybridDisc),
    PowerManagement(PowerManagement),
    Smart(Smart),
    EmbeddedChanger(EmbeddedChanger),
    CdAudioExternalPlay(CdAudioExternalPlay),
    MicrocodeUpgrade(MicrocodeUpgrade),
    Timeout(Timeout),
    DvdCss(DvdCss),
    RealTimeStreaming(RealTimeStreaming),
    DriveSerialNumber(DriveSerialNumber),
    MediaSerialNumber(MediaSerialNumber),
    DiscControlBlocks(DiscControlBlocks),
    DvdCprm(DvdCprm),
    FirmwareInformation(FirmwareInformation),
    Aacs(Aacs),
    DvdCssManagedRecording(DvdCssManagedRecording),
    Vcps(Vcps),
    SecurDisc(SecurDisc),
    Ossc(Ossc),
    Unknown(UnknownFeature),
}

/// The feature codes the dispatch recognizes.
pub open spec fn spec_known_code(code: u16) -> bool {
    match code {
        0x0000 | 0x0001 | 0x0002 | 0x0003 | 0x0004 | 0x0010 | 0x001d | 0x001e | 0x001f | 
        0x0020 | 0x0021 | 0x0022 | 0x0023 | 0x0024 | 0x0025 | 0x0026 | 0x0027 | 0x0028 | 
        0x0029 | 0x002a | 0x002b | 0x002c | 0x002d | 0x002e | 0x002f | 0x0030 | 0x0031 | 
        0x0032 | 0x0033 | 0x0034 | 0x0035 | 0x0037 | 0x0038 | 0x003a | 0x003b | 0x0040 | 
        0x0041 | 0x0042 | 0x0050 | 0x0051 | 0x0052 | 0x0080 | 0x0100 | 0x0101 | 0x0102 | 
        0x0103 | 0x0104 | 0x0105 | 0x0106 | 0x0107 | 0x0108 | 0x0109 | 0x010a | 0x010b | 
        0x010c | 0x010d | 0x010e | 0x0110 | 0x0113 | 0x0142 => true,
        _ => false,
    }
}

/// The size contract of each known feature's payload.
pub open spec fn spec_data_size(code: u16) -> DataSize {
    match code {
        0x0000 => DataSize::Variable(0),
        0x0001 => DataSize::Fixed(8),
        0x0002 => DataSize::Fixed(4),
        0x0003 => DataSize::Fixed(4),
        0x0004 => DataSize::Fixed(4),
        0x0010 => DataSize::Fixed(8),
        0x001d => DataSize::Fixed(0),
        0x001e => DataSize::Fixed(4),
        0x001f => DataSize::Fixed(4),
        0x0020 => DataSize::Fixed(12),
        0x0021 => DataSize::Variable(4),
        0x0022 => DataSize::Fixed(0),
        0x0023 => DataSize::Fixed(8),
        0x0024 => DataSize::Fixed(4),
        0x0025 => DataSize::Fixed(8),
        0x0026 => DataSize::Fixed(0),
        0x0027 => DataSize::Fixed(4),
        0x0028 => DataSize::Fixed(4),
        0x0029 => DataSize::Fixed(4),
        0x002a => DataSize::Fixed(4),
        0x002b => DataSize::Fixed(4),
        0x002c => DataSize::Fixed(4),
        0x002d => DataSize::Fixed(4),
        0x002e => DataSize::Fixed(4),
        0x002f => DataSize::Fixed(4),
        0x0030 => DataSize::Fixed(0),
        0x0031 => DataSize::Fixed(4),
        0x0032 => DataSize::Fixed(4),
        0x0033 => DataSize::Variable(4),
        0x0034 => DataSize::Fixed(4),
        0x0035 => DataSize::Fixed(0),
        0x0037 => DataSize::Fixed(4),
        0x0038 => DataSize::Fixed(4),
        0x003a => DataSize::Fixed(4),
        0x003b => DataSize::Fixed(4),
        0x0040 => DataSize::Fixed(28),
        0x0041 => DataSize::Fixed(20),
        0x0042 => DataSize::Fixed(0),
        0x0050 => DataSize::Fixed(4),
        0x0051 => DataSize::Fixed(4),
        0x0052 => DataSize::Fixed(4),
        0x0080 => DataSize::Fixed(4),
        0x0100 => DataSize::Fixed(0),
        0x0101 => DataSize::Fixed(4),
        0x0102 => DataSize::Fixed(4),
        0x0103 => DataSize::Fixed(4),
        0x0104 => DataSize::Fixed(4),
        0x0105 => DataSize::Fixed(4),
        0x0106 => DataSize::Fixed(4),
        0x0107 => DataSize::Fixed(4),
        0x0108 => DataSize::Variable(0),
        0x0109 => DataSize::Fixed(0),
        0x010a => DataSize::Variable(0),
        0x010b => DataSize::Fixed(4),
        0x010c => DataSize::Fixed(16),
        0x010d => DataSize::Fixed(4),
        0x010e => DataSize::Fixed(4),
        0x0110 => DataSize::Fixed(4),
        0x0113 => DataSize::Fixed(0),
        0x0142 => DataSize::Variable(2),
        _ => DataSize::Variable(0),
    }
}

/// The size contract of a feature code, or `None` for a code the
/// dispatch does not recognize.
pub fn data_size_of(code: u16) -> (r: Option<DataSize>)
    ensures
        r is Some <==> spec_known_code(code),
        r matches Some(s) ==> s == spec_data_size(code),
{
    match code {
        0x0000 => Some(DataSize::Variable(0)),
        0x0001 => Some(DataSize::Fixed(8)),
        0x0002 => Some(DataSize::Fixed(4)),
        0x0003 => Some(DataSize::Fixed(4)),
        0x0004 => Some(DataSize::Fixed(4)),
        0x0010 => Some(DataSize::Fixed(8)),
        0x001d => Some(DataSize::Fixed(0)),
        0x001e => Some(DataSize::Fixed(4)),
        0x001f => Some(DataSize::Fixed(4)),
        0x0020 => Some(DataSize::Fixed(12)),
        0x0021 => Some(DataSize::Variable(4)),
        0x0022 => Some(DataSize::Fixed(0)),
        0x0023 => Some(DataSize::Fixed(8)),
        0x0024 => Some(DataSize::Fixed(4)),
        0x0025 => Some(DataSize::Fixed(8)),
        0x0026 => Some(DataSize::Fixed(0)),
        0x0027 => Some(DataSize::Fixed(4)),
        0x0028 => Some(DataSize::Fixed(4)),
        0x0029 => Some(DataSize::Fixed(4)),
        0x002a => Some(DataSize::Fixed(4)),
        0x002b => Some(DataSize::Fixed(4)),
        0x002c => Some(DataSize::Fixed(4)),
        0x002d => Some(DataSize::Fixed(4)),
        0x002e => Some(DataSize::Fixed(4)),
        0x002f => Some(DataSize::Fixed(4)),
        0x0030 => Some(DataSize::Fixed(0)),
        0x0031 => Some(DataSize::Fixed(4)),
        0x0032 => Some(DataSize::Fixed(4)),
        0x0033 => Some(DataSize::Variable(4)),
        0x0034 => Some(DataSize::Fixed(4)),
        0x0035 => Some(DataSize::Fixed(0)),
        0x0037 => Some(DataSize::Fixed(4)),
        0x0038 => Some(DataSize::Fixed(4)),
        0x003a => Some(DataSize::Fixed(4)),
        0x003b => Some(DataSize::Fixed(4)),
        0x0040 => Some(DataSize::Fixed(28)),
        0x0041 => Some(DataSize::Fixed(20)),
        0x0042 => Some(DataSize::Fixed(0)),
        0x0050 => Some(DataSize::Fixed(4)),
        0x0051 => Some(DataSize::Fixed(4)),
        0x0052 => Some(DataSize::Fixed(4)),
        0x0080 => Some(DataSize::Fixed(4)),
        0x0100 => Some(DataSize::Fixed(0)),
        0x0101 => Some(DataSize::Fixed(4)),
        0x0102 => Some(DataSize::Fixed(4)),
        0x0103 => Some(DataSize::Fixed(4)),
        0x0104 => Some(DataSize::Fixed(4)),
        0x0105 => Some(DataSize::Fixed(4)),
        0x0106 => Some(DataSize::Fixed(4)),
        0x0107 => Some(DataSize::Fixed(4)),
        0x0108 => Some(DataSize::Variable(0)),
        0x0109 => Some(DataSize::Fixed(0)),
        0x010a => Some(DataSize::Variable(0)),
        0x010b => Some(DataSize::Fixed(4)),
        0x010c => Some(DataSize::Fixed(16)),
        0x010d => Some(DataSize::Fixed(4)),
        0x010e => Some(DataSize::Fixed(4)),
        0x0110 => Some(DataSize::Fixed(4)),
        0x0113 => Some(DataSize::Fixed(0)),
        0x0142 => Some(DataSize::Variable(2)),
        _ => None,
    }
}

/// What the payload of a descriptor with feature code `code` and data
/// bytes `data` must hold, variant by variant.
pub open spec fn spec_payload_ok(code: u16, data: Seq<u8>, p: FeaturePayload) -> bool {
    match p {
        FeaturePayload::ProfileList(x) => code == 0x0000
            && x.profile_descriptors@ == ProfileList::spec_descriptors(data),
        FeaturePayload::Core(x) => code == 0x0001 && x == Core::spec_parse(data),
        FeaturePayload::Morphing(x) => code == 0x0002 && x == Morphing::spec_parse(data),
        FeaturePayload::RemovableMedium(x) => code == 0x0003
            && x == RemovableMedium::spec_parse(data),
        FeaturePayload::WriteProtect(x) => code == 0x0004 && x == WriteProtect::spec_parse(data),
        FeaturePayload::RandomReadable(x) => code == 0x0010
            && x == RandomReadable::spec_parse(data),
        FeaturePayload::MultiRead(x) => code == 0x001d && x == MultiRead::spec_parse(data),
        FeaturePayload::CdRead(x) => code == 0x001e && x == CdRead::spec_parse(data),
        FeaturePayload::DvdRead(x) => code == 0x001f && x == DvdRead::spec_parse(data),
        FeaturePayload::RandomWritable(x) => code == 0x0020
            && x == RandomWritable::spec_parse(data),
        FeaturePayload::IncrementalStreamingWritable(x) => code == 0x0021
            && x.data_block_types_supported == (DataBlockTypes(spec_be16(data[0], data[1]) as u16))
            && x.trio == (data[2] & 0x04 != 0) && x.arsv == (data[2] & 0x02 != 0)
            && x.buf == (data[2] & 0x01 != 0) && x.link_sizes@ == spec_link_sizes(data),
        FeaturePayload::SectorErasable(x) => code == 0x0022
            && x == SectorErasable::spec_parse(data),
        FeaturePayload::Formattable(x) => code == 0x0023 && x == Formattable::spec_parse(data),
        FeaturePayload::HardwareDefectManagement(x) => code == 0x0024
            && x == HardwareDefectManagement::spec_parse(data),
        FeaturePayload::WriteOnce(x) => code == 0x0025 && x == WriteOnce::spec_parse(data),
        FeaturePayload::RestrictedOverwrite(x) => code == 0x0026
            && x == RestrictedOverwrite::spec_parse(data),
        FeaturePayload::CdRwCavWrite(x) => code == 0x0027 && x == CdRwCavWrite::spec_parse(data),
        FeaturePayload::Mrw(x) => code == 0x0028 && x == Mrw::spec_parse(data),
        FeaturePayload::EnhancedDefectReporting(x) => code == 0x0029
            && x == EnhancedDefectReporting::spec_parse(data),
        FeaturePayload::DvdPlusRw(x) => code == 0x002a && x == DvdPlusRw::spec_parse(data),
        FeaturePayload::DvdPlusR(x) => code == 0x002b && x == DvdPlusR::spec_parse(data),
        FeaturePayload::RigidRestrictedOverwrite(x) => code == 0x002c
            && x == RigidRestrictedOverwrite::spec_parse(data),
        FeaturePayload::CdTrackAtOnce(x) => code == 0x002d && x == CdTrackAtOnce::spec_parse(data),
        FeaturePayload::CdMastering(x) => code == 0x002e && x == CdMastering::spec_parse(data),
        FeaturePayload::DvdRRwWrite(x) => code == 0x002f && x == DvdRRwWrite::spec_parse(data),
        FeaturePayload::DoubleDensityCdRead(x) => code == 0x0030
            && x == DoubleDensityCdRead::spec_parse(data),
        FeaturePayload::DoubleDensityCdRWrite(x) => code == 0x0031
            && x == DoubleDensityCdRWrite::spec_parse(data),
        FeaturePayload::DoubleDensityCdRwWrite(x) => code == 0x0032
            && x == DoubleDensityCdRwWrite::spec_parse(data),
        FeaturePayload::LayerJumpRecording(x) => code == 0x0033
            && x.link_sizes@ == spec_link_sizes(data),
        FeaturePayload::LayerJumpRigidRestrictedOverwrite(x) => code == 0x0034
            && x == LayerJumpRigidRestrictedOverwrite::spec_parse(data),
        FeaturePayload::StopLongOperation(x) => code == 0x0035
            && x == StopLongOperation::spec_parse(data),
        FeaturePayload::CdRwMediaWriteSupport(x) => code == 0x0037
            && x == CdRwMediaWriteSupport::spec_parse(data),
        FeaturePayload::BdRPow(x) => code == 0x0038 && x == BdRPow::spec_parse(data),
        FeaturePayload::DvdPlusRwDualLayer(x) => code == 0x003a
            && x == DvdPlusRwDualLayer::spec_parse(data),
        FeaturePayload::DvdPlusRDualLayer(x) => code == 0x003b
            && x == DvdPlusRDualLayer::spec_parse(data),
        FeaturePayload::BdRead(x) => code == 0x0040 && x == BdRead::spec_parse(data),
        FeaturePayload::BdWrite(x) => code == 0x0041 && x == BdWrite::spec_parse(data),
        FeaturePayload::Tsr(x) => code == 0x0042 && x == Tsr::spec_parse(data),
        FeaturePayload::HdDvdRead(x) => code == 0x0050 && x == HdDvdRead::spec_parse(data),
        FeaturePayload::HdDvdWrite(x) => code == 0x0051 && x == HdDvdWrite::spec_parse(data),
        FeaturePayload::HdDvdRwFragmentRecording(x) => code == 0x0052
            && x == HdDvdRwFragmentRecording::spec_parse(data),
        FeaturePayload::HybridDisc(x) => code == 0x0080 && x == HybridDisc::spec_parse(data),
        FeaturePayload::PowerManagement(x) => code == 0x0100
            && x == PowerManagement::spec_parse(data),
        FeaturePayload::Smart(x) => code == 0x0101 && x == Smart::spec_parse(data),
        FeaturePayload::EmbeddedChanger(x) => code == 0x0102
            && x == EmbeddedChanger::spec_parse(data),
        FeaturePayload::CdAudioExternalPlay(x) => code == 0x0103
            && x == CdAudioExternalPlay::spec_parse(data),
        FeaturePayload::MicrocodeUpgrade(x) => code == 0x0104
            && x == MicrocodeUpgrade::spec_parse(data),
        FeaturePayload::Timeout(x) => code == 0x0105 && x == Timeout::spec_parse(data),
        FeaturePayload::DvdCss(x) => code == 0x0106 && x == DvdCss::spec_parse(data),
        FeaturePayload::RealTimeStreaming(x) => code == 0x0107
            && x == RealTimeStreaming::spec_parse(data),
        FeaturePayload::DriveSerialNumber(x) => code == 0x0108
            && x.serial_number@ == spec_trim_trailing_spaces(data),
        FeaturePayload::MediaSerialNumber(x) => code == 0x0109
            && x == MediaSerialNumber::spec_parse(data),
        FeaturePayload::DiscControlBlocks(x) => code == 0x010a
            && x.supported_dcb_entries@ == DiscControlBlocks::spec_entries(data),
        FeaturePayload::DvdCprm(x) => code == 0x010b && x == DvdCprm::spec_parse(data),
        FeaturePayload::FirmwareInformation(x) => code == 0x010c
            && x == FirmwareInformation::spec_parse(data),
        FeaturePayload::Aacs(x) => code == 0x010d && x == Aacs::spec_parse(data),
        FeaturePayload::DvdCssManagedRecording(x) => code == 0x010e
            && x == DvdCssManagedRecording::spec_parse(data),
        FeaturePayload::Vcps(x) => code == 0x0110 && x == Vcps::spec_parse(data),
        FeaturePayload::SecurDisc(x) => code == 0x0113 && x == SecurDisc::spec_parse(data),
        FeaturePayload::Ossc(x) => code == 0x0142 && x.psau == (data[0] & 0x80 != 0)
            && x.lospb == (data[0] & 0x40 != 0) && x.me == (data[0] & 0x01 != 0)
            && x.profile_numbers@ == Ossc::spec_profile_numbers(data),
        FeaturePayload::Unknown(x) => !spec_known_code(code) && x.feature_code == code
            && x.data@ == data,
    }
}

/// Decodes the payload of a known feature whose data bytes meet its
/// size contract.
fn parse_known(code: u16, data: &[u8]) -> (r: FeaturePayload)
    requires
        spec_known_code(code),
        spec_data_size(code).spec_cmp_size(data@.len() as int),
    ensures
        spec_payload_ok(code, data@, r),
{
    match code {
        0x0000 => FeaturePayload::ProfileList(ProfileList::parse(data)),
        0x0001 => FeaturePayload::Core(Core::parse(data)),
        0x0002 => FeaturePayload::Morphing(Morphing::parse(data)),
        0x0003 => FeaturePayload::RemovableMedium(RemovableMedium::parse(data)),
        0x0004 => FeaturePayload::WriteProtect(WriteProtect::parse(data)),
        0x0010 => FeaturePayload::RandomReadable(RandomReadable::parse(data)),
        0x001d => FeaturePayload::MultiRead(MultiRead::parse(data)),
        0x001e => FeaturePayload::CdRead(CdRead::parse(data)),
        0x001f => FeaturePayload::DvdRead(DvdRead::parse(data)),
        0x0020 => FeaturePayload::RandomWritable(RandomWritable::parse(data)),
        0x0021 => FeaturePayload::IncrementalStreamingWritable(IncrementalStreamingWritable::parse(data)),
        0x0022 => FeaturePayload::SectorErasable(SectorErasable::parse(data)),
        0x0023 => FeaturePayload::Formattable(Formattable::parse(data)),
        0x0024 => FeaturePayload::HardwareDefectManagement(HardwareDefectManagement::parse(data)),
        0x0025 => FeaturePayload::WriteOnce(WriteOnce::parse(data)),
        0x0026 => FeaturePayload::RestrictedOverwrite(RestrictedOverwrite::parse(data)),
        0x0027 => FeaturePayload::CdRwCavWrite(CdRwCavWrite::parse(data)),
        0x0028 => FeaturePayload::Mrw(Mrw::parse(data)),
        0x0029 => FeaturePayload::EnhancedDefectReporting(EnhancedDefectReporting::parse(data)),
        0x002a => FeaturePayload::DvdPlusRw(DvdPlusRw::parse(data)),
        0x002b => FeaturePayload::DvdPlusR(DvdPlusR::parse(data)),
        0x002c => FeaturePayload::RigidRestrictedOverwrite(RigidRestrictedOverwrite::parse(data)),
        0x002d => FeaturePayload::CdTrackAtOnce(CdTrackAtOnce::parse(data)),
        0x002e => FeaturePayload::CdMastering(CdMastering::parse(data)),
        0x002f => FeaturePayload::DvdRRwWrite(DvdRRwWrite::parse(data)),
        0x0030 => FeaturePayload::DoubleDensityCdRead(DoubleDensityCdRead::parse(data)),
        0x0031 => FeaturePayload::DoubleDensityCdRWrite(DoubleDensityCdRWrite::parse(data)),
        0x0032 => FeaturePayload::DoubleDensityCdRwWrite(DoubleDensityCdRwWrite::parse(data)),
        0x0033 => FeaturePayload::LayerJumpRecording(LayerJumpRecording::parse(data)),
        0x0034 => FeaturePayload::LayerJumpRigidRestrictedOverwrite(LayerJumpRigidRestrictedOverwrite::parse(data)),
        0x0035 => FeaturePayload::StopLongOperation(StopLongOperation::parse(data)),
        0x0037 => FeaturePayload::CdRwMediaWriteSupport(CdRwMediaWriteSupport::parse(data)),
        0x0038 => FeaturePayload::BdRPow(BdRPow::parse(data)),
        0x003a => FeaturePayload::DvdPlusRwDualLayer(DvdPlusRwDualLayer::parse(data)),
        0x003b => FeaturePayload::DvdPlusRDualLayer(DvdPlusRDualLayer::parse(data)),
        0x0040 => FeaturePayload::BdRead(BdRead::parse(data)),
        0x0041 => FeaturePayload::BdWrite(BdWrite::parse(data)),
        0x0042 => FeaturePayload::Tsr(Tsr::parse(data)),
        0x0050 => FeaturePayload::HdDvdRead(HdDvdRead::parse(data)),
        0x0051 => FeaturePayload::HdDvdWrite(HdDvdWrite::parse(data)),
        0x0052 => FeaturePayload::HdDvdRwFragmentRecording(HdDvdRwFragmentRecording::parse(data)),
        0x0080 => FeaturePayload::HybridDisc(HybridDisc::parse(data)),
        0x0100 => FeaturePayload::PowerManagement(PowerManagement::parse(data)),
        0x0101 => FeaturePayload::Smart(Smart::parse(data)),
        0x0102 => FeaturePayload::EmbeddedChanger(EmbeddedChanger::parse(data)),
        0x0103 => FeaturePayload::CdAudioExternalPlay(CdAudioExternalPlay::parse(data)),
        0x0104 => FeaturePayload::MicrocodeUpgrade(MicrocodeUpgrade::parse(data)),
        0x0105 => FeaturePayload::Timeout(Timeout::parse(data)),
        0x0106 => FeaturePayload::DvdCss(DvdCss::parse(data)),
        0x0107 => FeaturePayload::RealTimeStreaming(RealTimeStreaming::parse(data)),
        0x0108 => FeaturePayload::DriveSerialNumber(DriveSerialNumber::parse(data)),
        0x0109 => FeaturePayload::MediaSerialNumber(MediaSerialNumber::parse(data)),
        0x010a => FeaturePayload::DiscControlBlocks(DiscControlBlocks::parse(data)),
        0x010b => FeaturePayload::DvdCprm(DvdCprm::parse(data)),
        0x010c => FeaturePayload::FirmwareInformation(FirmwareInformation::parse(data)),
        0x010d => FeaturePayload::Aacs(Aacs::parse(data)),
        0x010e => FeaturePayload::DvdCssManagedRecording(DvdCssManagedRecording::parse(data)),
        0x0110 => FeaturePayload::Vcps(Vcps::parse(data)),
        0x0113 => FeaturePayload::SecurDisc(SecurDisc::parse(data)),
        0x0142 => FeaturePayload::Ossc(Ossc::parse(data)),
        _ => vstd::pervasive::unreached(),
    }
}

/// The complete records of a descriptor stream, each a sub-header and its
/// payload bytes: fewer than four bytes remaining ends the list, as does a
/// record whose declared payload overruns the remaining bytes.
pub open spec fn spec_records(bytes: Seq<u8>) -> Seq<(FeatureHeader, Seq<u8>)>
    decreases bytes.len(),
{
    if bytes.len() < 4 {
        Seq::empty()
    } else {
        let h = FeatureHeader::spec_parse(bytes);
        if bytes.len() - 4 < h.additional_length {
            Seq::empty()
        } else {
            seq![(h, bytes.subrange(4, 4 + h.additional_length))] + spec_records(
                bytes.skip(4 + h.additional_length),
            )
        }
    }
}

/// A record survives parsing when its code is unknown (it becomes opaque) or
/// its payload meets the known feature's size contract.
pub open spec fn spec_record_kept(r: (FeatureHeader, Seq<u8>)) -> bool {
    !spec_known_code(r.0.feature_code) || spec_data_size(r.0.feature_code).spec_cmp_size(
        r.1.len() as int,
    )
}

/// The records that survive parsing, in order: a known feature whose payload
/// fails its size contract is skipped and the walk continues.
pub open spec fn spec_kept(rs: Seq<(FeatureHeader, Seq<u8>)>) -> Seq<(FeatureHeader, Seq<u8>)>
    decreases rs.len(),
{
    if rs.len() == 0 {
        Seq::empty()
    } else if spec_record_kept(rs[0]) {
        seq![rs[0]] + spec_kept(rs.skip(1))
    } else {
        spec_kept(rs.skip(1))
    }
}

/// A descriptor matches a record when it holds the record's sub-header and a
/// payload decoded from the record's data bytes.
pub open spec fn spec_descriptor_ok(r: (FeatureHeader, Seq<u8>), d: FeatureDescriptor) -> bool {
    d.header == r.0 && spec_payload_ok(r.0.feature_code, r.1, d.payload)
}

/// Decodes one feature record. Fewer than four bytes is a size error; a
/// declared payload longer than what follows is missing data; a known code
/// whose payload fails its size contract is a per-record error; anything
/// else decodes, unknown codes into the opaque fallback.
pub fn parse_descriptor(bytes: &[u8]) -> (r: Result<FeatureDescriptor, FeatureError>)
    ensures
        bytes@.len() < 4 <==> r == Err::<FeatureDescriptor, FeatureError>(
            FeatureError::DescriptorSize,
        ),
        bytes@.len() >= 4 ==> ({
            let h = FeatureHeader::spec_parse(bytes@);
            if bytes@.len() - 4 < h.additional_length {
                r == Err::<FeatureDescriptor, FeatureError>(
                    (FeatureError::MissingData {
                        expected: h.additional_length as usize,
                        received: (bytes@.len() - 4) as usize,
                    }),
                )
            } else {
                let data = bytes@.subrange(4, 4 + h.additional_length);
                if spec_known_code(h.feature_code) && !spec_data_size(
                    h.feature_code,
                ).spec_cmp_size(h.additional_length as int) {
                    r == Err::<FeatureDescriptor, FeatureError>(
                        (FeatureError::DataSize {
                            expected: spec_data_size(h.feature_code),
                            received: h.additional_length as usize,
                        }),
                    )
                } else {
                    r matches Ok(d) && spec_descriptor_ok((h, data), d)
                }
            }
        }),
{
    if bytes.len() < 4 {
        return Err(FeatureError::DescriptorSize);
    }
    let header = FeatureHeader::parse(bytes);
    let add = header.additional_length as usize;
    if bytes.len() - 4 < add {
        return Err(FeatureError::MissingData { expected: add, received: bytes.len() - 4 });
    }
    let data = vstd::slice::slice_subrange(bytes, 4, 4 + add);
    match data_size_of(header.feature_code) {
        Some(ds) => {
            if !ds.cmp_size(data.len()) {
                return Err(FeatureError::DataSize { expected: ds, received: data.len() });
            }
            let payload = parse_known(header.feature_code, data);
            Ok(FeatureDescriptor { header, payload })
        },
        None => Ok(
            FeatureDescriptor {
                header,
                payload: FeaturePayload::Unknown(
                    UnknownFeature {
                        feature_code: header.feature_code,
                        data: vstd::slice::slice_to_vec(data),
                    },
                ),
            },
        ),
    }
}

/// A cursor over a descriptor stream that yields decoded records in order,
/// skipping known features whose payload fails its size contract.
pub struct FeatureParser {
    pub bytes: Vec<u8>,
    pub pos: usize,
}

impl FeatureParser {
    /// The cursor sits inside the stream.
    pub open spec fn wf(self) -> bool {
        self.pos <= self.bytes@.len()
    }

    /// The surviving records the cursor has not yielded yet.
    pub open spec fn spec_remaining(self) -> Seq<(FeatureHeader, Seq<u8>)> {
        spec_kept(spec_records(self.bytes@.skip(self.pos as int)))
    }

    /// A cursor at the start of a descriptor stream.
    pub fn new(descriptors: Vec<u8>) -> (r: FeatureParser)
        ensures
            r.wf(),
            r.bytes@ == descriptors@,
            r.pos == 0,
    {
        FeatureParser { bytes: descriptors, pos: 0 }
    }

    /// Yields the next surviving record as a decoded descriptor, or `None`
    /// once the stream is exhausted.
    #[verifier::loop_isolation(false)]
    pub fn next(&mut self) -> (r: Option<FeatureDescriptor>)
        requires
            old(self).wf(),
        ensures
            final(self).wf(),
            final(self).bytes@ == old(self).bytes@,
            old(self).spec_remaining().len() == 0 ==> r is None
                && final(self).spec_remaining().len() == 0,
            old(self).spec_remaining().len() > 0 ==> (r matches Some(d)
                && spec_descriptor_ok(old(self).spec_remaining()[0], d)
                && final(self).spec_remaining() =~= old(self).spec_remaining().skip(1)),
    {
        loop
            invariant
                self.wf(),
                self.bytes@ == old(self).bytes@,
                self.spec_remaining() =~= old(self).spec_remaining(),
            decreases self.bytes@.len() - self.pos,
        {
            let len = self.bytes.len();
            let ghost tail = self.bytes@.skip(self.pos as int);
            if len - self.pos < 4 {
                self.pos = len;
                proof {
                    assert(self.bytes@.skip(len as int) =~= Seq::<u8>::empty());
                }
                return None;
            }
            let record = vstd::slice::slice_subrange(self.bytes.as_slice(), self.pos, len);
            proof {
                assert(record@ =~= tail);
            }
            let header = FeatureHeader::parse(record);
            let add = header.additional_length as usize;
            if len - self.pos - 4 < add {
                self.pos = len;
                proof {
                    assert(self.bytes@.skip(len as int) =~= Seq::<u8>::empty());
                }
                return None;
            }
            let step = 4 + add;
            let one = vstd::slice::slice_subrange(self.bytes.as_slice(), self.pos, self.pos + step);
            let ghost h = FeatureHeader::spec_parse(tail);
            let ghost data = tail.subrange(4, 4 + h.additional_length);
            let ghost rs = spec_records(tail);
            proof {
                assert(one@ =~= tail.subrange(0, step as int));
                assert(FeatureHeader::spec_parse(one@) == h);
                assert(one@.subrange(4, 4 + h.additional_length) =~= data);
                assert(rs =~= seq![(h, data)] + spec_records(tail.skip(step as int)));
                assert(rs.skip(1) =~= spec_records(tail.skip(step as int)));
                assert(tail.skip(step as int) =~= self.bytes@.skip(self.pos + step));
            }
            match parse_descriptor(one) {
                Ok(d) => {
                    proof {
                        assert(spec_record_kept(rs[0]));
                        assert(spec_kept(rs) =~= seq![(h, data)] + spec_kept(rs.skip(1)));
                        assert(spec_descriptor_ok((h, data), d));
                    }
                    self.pos = self.pos + step;
                    return Some(d);
                },
                Err(_) => {
                    proof {
                        assert(!spec_record_kept(rs[0]));
                        assert(spec_kept(rs) =~= spec_kept(rs.skip(1)));
                    }
                    self.pos = self.pos + step;
                },
            }
        }
    }
}

/// Decodes a whole descriptor stream: one descriptor per surviving record,
/// in stream order.
#[verifier::loop_isolation(false)]
pub fn parse_features(descriptors: Vec<u8>) -> (r: Vec<FeatureDescriptor>)
    ensures
        ({
            let kept = spec_kept(spec_records(descriptors@));
            r@.len() == kept.len() && forall|i: int|
                0 <= i < kept.len() ==> spec_descriptor_ok(kept[i], #[trigger] r@[i])
        }),
{
    let ghost kept_all = spec_kept(spec_records(descriptors@));
    let mut parser = FeatureParser::new(descriptors);
    let mut out: Vec<FeatureDescriptor> = Vec::new();
    proof {
        assert(parser.bytes@.skip(0) =~= parser.bytes@);
    }
    loop
        invariant
            parser.wf(),
            out@.len() <= kept_all.len(),
            parser.spec_remaining() =~= kept_all.skip(out@.len() as int),
            forall|i: int|
                0 <= i < out@.len() ==> spec_descriptor_ok(kept_all[i], #[trigger] out@[i]),
        decreases kept_all.len() - out@.len(),
    {
        match parser.next() {
            Some(d) => {
                proof {
                    assert(kept_all.skip(out@.len() as int)[0] == kept_all[out@.len() as int]);
                    assert(kept_all.skip(out@.len() as int).skip(1) =~= kept_all.skip(
                        out@.len() as int + 1,
                    ));
                }
                out.push(d);
            },
            None => {
                return out;
            },
        }
    }
}

} // verus!
