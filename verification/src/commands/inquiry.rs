//! INQUIRY (operation code 0x12): identifies the device. The standard
//! 36-byte response carries the peripheral type, conformance version, a set
//! of capability bits and three space-padded ASCII identification fields.

use vstd::prelude::*;
use crate::cdb::{Cdb, Control};
use crate::util::{
    all_ascii, be16_bytes, spec_trim_trailing_spaces, trim_trailing_spaces,
};

verus! {

/// Operation code of INQUIRY.
pub const INQUIRY_OP_CODE: u8 = 0x12;

/// Minimum response length: the standard INQUIRY data ends its fixed fields
/// at byte 36; later bytes are vendor specific.
pub const MIN_INQUIRY_RESPONSE_LEN: usize = 36;

/// A malformed INQUIRY response.
#[derive(Clone, Copy, Debug, PartialEq, Eq, Structural)]
pub enum Error {
    /// Fewer bytes than the 36-byte standard response.
    IncompleteResponse(usize),
    /// An identification field held a byte outside seven-bit ASCII.
    InvalidAsciiSequence,
}

/// The peripheral qualifier: how the addressed logical unit relates to the
/// reported device type.
#[derive(Clone, Copy, Debug, PartialEq, Eq, Structural)]
pub enum PeripheralQualifier {
    /// A device of the reported type is connected, or connection cannot be
    /// determined.
    ConnectedOrUnknown,
    NotConnectedButSupported,
    Reserved,
    NotSupported,
    /// A vendor-specific qualifier, carried raw.
    VendorSpecific(u8),
}

impl PeripheralQualifier {
    /// The qualifier named by the low three bits of a value; total.
    pub open spec fn spec_from(value: u8) -> PeripheralQualifier {
        if value & 7 == 0 {
            PeripheralQualifier::ConnectedOrUnknown
        } else if value & 7 == 1 {
            PeripheralQualifier::NotConnectedButSupported
        } else if value & 7 == 2 {
            PeripheralQualifier::Reserved
        } else if value & 7 == 3 {
            PeripheralQualifier::NotSupported
        } else {
            PeripheralQualifier::VendorSpecific((value & 7) as u8)
        }
    }

    /// Decodes the low three bits of a peripheral-qualifier field.
    pub fn from(value: u8) -> (r: PeripheralQualifier)
        ensures
            r == PeripheralQualifier::spec_from(value),
    {
        let v = value & 7;
        if v == 0 {
            PeripheralQualifier::ConnectedOrUnknown
        } else if v == 1 {
            PeripheralQualifier::NotConnectedButSupported
        } else if v == 2 {
            PeripheralQualifier::Reserved
        } else if v == 3 {
            PeripheralQualifier::NotSupported
        } else {
            PeripheralQualifier::VendorSpecific(v)
        }
    }
}

/// The reported peripheral device type.
#[derive(Clone, Copy, Debug, PartialEq, Eq, Structural)]
pub enum PeripheralDeviceType {
    DirectAccessBlockDevice,
    SequentialAccessDevice,
    PrinterDevice,
    ProcessorDevice,
    WriteOnceDevice,
    CdOrDvdDevice,
    ScannerDevice,
    OpticalMemoryDevice,
    MediumChangerDevice,
    CommunicationsDevice,
    /// An obsolete type code, carried raw.
    Obsolete(u8),
    StorageArrayControllerDevice,
    EnclosureServicesDevice,
    SimplifiedDirectAccessDevice,
    OpticalCardReaderWriterDevice,
    BridgeControllerCommands,
    ObjectBasedStorageDevice,
    AutomationDriveInterface,
    /// A reserved type code, carried raw.
    Reserved(u8),
    WellKnownLogicalUnit,
    UnknownOrNoDeviceType,
}

impl PeripheralDeviceType {
    /// The device type named by the low five bits of a value; total.
    pub open spec fn spec_from(value: u8) -> PeripheralDeviceType {
        let v = value & 0x1f;
        if v == 0x00 {
            PeripheralDeviceType::DirectAccessBlockDevice
        } else if v == 0x01 {
            PeripheralDeviceType::SequentialAccessDevice
        } else if v == 0x02 {
            PeripheralDeviceType::PrinterDevice
        } else if v == 0x03 {
            PeripheralDeviceType::ProcessorDevice
        } else if v == 0x04 {
            PeripheralDeviceType::WriteOnceDevice
        } else if v == 0x05 {
            PeripheralDeviceType::CdOrDvdDevice
        } else if v == 0x06 {
            PeripheralDeviceType::ScannerDevice
        } else if v == 0x07 {
            PeripheralDeviceType::OpticalMemoryDevice
        } else if v == 0x08 {
            PeripheralDeviceType::MediumChangerDevice
        } else if v == 0x09 {
            PeripheralDeviceType::CommunicationsDevice
        } else if 0x0a <= v <= 0x0b {
            PeripheralDeviceType::Obsolete(v as u8)
        } else if v == 0x0c {
            PeripheralDeviceType::StorageArrayControllerDevice
        } else if v == 0x0d {
            PeripheralDeviceType::EnclosureServicesDevice
        } else if v == 0x0e {
            PeripheralDeviceType::SimplifiedDirectAccessDevice
        } else if v == 0x0f {
            PeripheralDeviceType::OpticalCardReaderWriterDevice
        } else if v == 0x10 {
            PeripheralDeviceType::BridgeControllerCommands
        } else if v == 0x11 {
            PeripheralDeviceType::ObjectBasedStorageDevice
        } else if v == 0x12 {
            PeripheralDeviceType::AutomationDriveInterface
        } else if 0x13 <= v <= 0x1d {
            PeripheralDeviceType::Reserved(v as u8)
        } else if v == 0x1e {
            PeripheralDeviceType::WellKnownLogicalUnit
        } else {
            PeripheralDeviceType::UnknownOrNoDeviceType
        }
    }

    /// Decodes the low five bits of a peripheral-device-type field.
    pub fn from(value: u8) -> (r: PeripheralDeviceType)
        ensures
            r == PeripheralDeviceType::spec_from(value),
    {
        let v = value & 0x1f;
        if v == 0x00 {
            PeripheralDeviceType::DirectAccessBlockDevice
        } else if v == 0x01 {
            PeripheralDeviceType::SequentialAccessDevice
        } else if v == 0x02 {
            PeripheralDeviceType::PrinterDevice
        } else if v == 0x03 {
            PeripheralDeviceType::ProcessorDevice
        } else if v == 0x04 {
            PeripheralDeviceType::WriteOnceDevice
        } else if v == 0x05 {
            PeripheralDeviceType::CdOrDvdDevice
        } else if v == 0x06 {
            PeripheralDeviceType::ScannerDevice
        } else if v == 0x07 {
            PeripheralDeviceType::OpticalMemoryDevice
        } else if v == 0x08 {
            PeripheralDeviceType::MediumChangerDevice
        } else if v == 0x09 {
            PeripheralDeviceType::CommunicationsDevice
        } else if 0x0a <= v && v <= 0x0b {
            PeripheralDeviceType::Obsolete(v)
        } else if v == 0x0c {
            PeripheralDeviceType::StorageArrayControllerDevice
        } else if v == 0x0d {
            PeripheralDeviceType::EnclosureServicesDevice
        } else if v == 0x0e {
            PeripheralDeviceType::SimplifiedDirectAccessDevice
        } else if v == 0x0f {
            PeripheralDeviceType::OpticalCardReaderWriterDevice
        } else if v == 0x10 {
            PeripheralDeviceType::BridgeControllerCommands
        } else if v == 0x11 {
            PeripheralDeviceType::ObjectBasedStorageDevice
        } else if v == 0x12 {
            PeripheralDeviceType::AutomationDriveInterface
        } else if 0x13 <= v && v <= 0x1d {
            PeripheralDeviceType::Reserved(v)
        } else if v == 0x1e {
            PeripheralDeviceType::WellKnownLogicalUnit
        } else {
            PeripheralDeviceType::UnknownOrNoDeviceType
        }
    }
}

/// The SPC standard the device claims conformance to.
#[derive(Clone, Copy, Debug, PartialEq, Eq, Structural)]
pub enum Version {
    /// No conformance claimed.
    NoConformance,
    Spc,
    Spc2,
    Spc3,
    Spc4,
    Spc6,
    /// An obsolete version code, carried raw.
    Obsolete(u8),
    /// A reserved version code, carried raw.
    Reserved(u8),
}

impl Version {
    /// An obsolete version code.
    pub open spec fn spec_is_obsolete_code(v: u8) -> bool {
        ||| v == 0x01
        ||| v == 0x02
        ||| 0x08 <= v <= 0x0c
        ||| 0x40 <= v <= 0x44
        ||| 0x48 <= v <= 0x4c
        ||| 0x80 <= v <= 0x84
        ||| 0x88 <= v <= 0x8c
    }

    /// The version named by a byte; total, unassigned codes are obsolete or
    /// reserved.
    pub open spec fn spec_from(value: u8) -> Version {
        if value == 0x00 {
            Version::NoConformance
        } else if value == 0x03 {
            Version::Spc
        } else if value == 0x04 {
            Version::Spc2
        } else if value == 0x05 {
            Version::Spc3
        } else if value == 0x06 {
            Version::Spc4
        } else if value == 0x07 {
            Version::Spc6
        } else if Version::spec_is_obsolete_code(value) {
            Version::Obsolete(value)
        } else {
            Version::Reserved(value)
        }
    }

    /// Decodes a version byte.
    pub fn from(value: u8) -> (r: Version)
        ensures
            r == Version::spec_from(value),
    {
        if value == 0x00 {
            Version::NoConformance
        } else if value == 0x03 {
            Version::Spc
        } else if value == 0x04 {
            Version::Spc2
        } else if value == 0x05 {
            Version::Spc3
        } else if value == 0x06 {
            Version::Spc4
        } else if value == 0x07 {
            Version::Spc6
        } else if value == 0x01 || value == 0x02 || (0x08 <= value && value <= 0x0c) || (0x40
            <= value && value <= 0x44) || (0x48 <= value && value <= 0x4c) || (0x80 <= value
            && value <= 0x84) || (0x88 <= value && value <= 0x8c) {
            Version::Obsolete(value)
        } else {
            Version::Reserved(value)
        }
    }
}

/// How the device supports target port groups.
#[derive(Clone, Copy, Debug, PartialEq, Eq, Structural)]
pub enum TargetPortGroupSupport {
    NotSupported,
    ImplicitOnly,
    ExplicitOnly,
    ImplicitAndExplicit,
}

impl TargetPortGroupSupport {
    /// The support level named by the low two bits of a value; total.
    pub open spec fn spec_from(value: u8) -> TargetPortGroupSupport {
        if value & 3 == 0 {
            TargetPortGroupSupport::NotSupported
        } else if value & 3 == 1 {
            TargetPortGroupSupport::ImplicitOnly
        } else if value & 3 == 2 {
            TargetPortGroupSupport::ExplicitOnly
        } else {
            TargetPortGroupSupport::ImplicitAndExplicit
        }
    }

    /// Decodes the low two bits of a target-port-group-support field.
    pub fn from(value: u8) -> (r: TargetPortGroupSupport)
        ensures
            r == TargetPortGroupSupport::spec_from(value),
    {
        let v = value & 3;
        if v == 0 {
            TargetPortGroupSupport::NotSupported
        } else if v == 1 {
            TargetPortGroupSupport::ImplicitOnly
        } else if v == 2 {
            TargetPortGroupSupport::ExplicitOnly
        } else {
            TargetPortGroupSupport::ImplicitAndExplicit
        }
    }
}

/// The INQUIRY command: a 6-byte CDB.
#[derive(Clone, Copy, Debug)]
pub struct Inquiry {
    /// Ask for a vital product data page instead of standard data.
    pub evpd: bool,
    /// The vital product data page asked for when `evpd` is set.
    pub page_code: u8,
    pub allocation_length: u16,
    pub control: Control,
}

impl Inquiry {
    /// A standard-data or vital-product-data inquiry, allocating the 36-byte
    /// standard response.
    pub fn new(evpd: bool, page_code: u8, control: Control) -> (r: Inquiry)
        ensures
            r.evpd == evpd,
            r.page_code == page_code,
            r.allocation_length == MIN_INQUIRY_RESPONSE_LEN,
            r.control == control,
    {
        Inquiry { evpd, page_code, allocation_length: 36, control }
    }
}

impl Cdb for Inquiry {
    open spec fn wf(&self) -> bool {
        true
    }

    open spec fn spec_cdb(&self) -> Seq<u8> {
        seq![
            INQUIRY_OP_CODE,
            if self.evpd {
                1u8
            } else {
                0u8
            },
            self.page_code,
            (self.allocation_length / 256) as u8,
            (self.allocation_length % 256) as u8,
            self.control.0,
        ]
    }

    open spec fn spec_allocation_len(&self) -> usize {
        self.allocation_length as usize
    }

    fn as_cdb(&self) -> (r: Vec<u8>) {
        let mut bytes: Vec<u8> = Vec::new();
        bytes.push(INQUIRY_OP_CODE);
        bytes.push(if self.evpd {
            1
        } else {
            0
        });
        bytes.push(self.page_code);
        let (a0, a1) = be16_bytes(self.allocation_length);
        bytes.push(a0);
        bytes.push(a1);
        bytes.push(self.control.raw());
        proof {
            assert(bytes@ =~= self.spec_cdb());
        }
        bytes
    }

    fn allocation_len(&self) -> (r: usize) {
        self.allocation_length as usize
    }
}

/// The standard INQUIRY data, fixed fields through byte 36.
#[derive(Clone, Debug, PartialEq, Eq)]
pub struct InquiryResponse {
    pub peripheral_qualifier: PeripheralQualifier,
    pub peripheral_device_type: PeripheralDeviceType,
    pub removable_media: bool,
    pub version: Version,
    pub normal_aca: bool,
    pub hierarchical_support: bool,
    pub response_data_format: u8,
    pub scc_supported: bool,
    pub access_controls_coordinator: bool,
    pub target_port_group_support: TargetPortGroupSupport,
    pub third_party_copy: bool,
    pub protect: bool,
    pub enclosure_services: bool,
    pub multi_port: bool,
    pub command_queuing: bool,
    /// The eight-character T10 vendor identification, ASCII bytes with the
    /// trailing space padding removed.
    pub t10_vendor_identification: Vec<u8>,
    /// The sixteen-character product identification, ASCII bytes with the
    /// trailing space padding removed.
    pub product_identification: Vec<u8>,
    /// The four-character product revision level, ASCII bytes with the
    /// trailing space padding removed.
    pub product_revision_level: Vec<u8>,
}

/// The three identification fields hold only seven-bit ASCII.
pub open spec fn spec_inquiry_ascii_ok(v: Seq<u8>) -> bool {
    forall|i: int| 8 <= i < 36 ==> v[i] < 0x80
}

impl InquiryResponse {
    /// Decodes standard INQUIRY data: at least 36 bytes, identification
    /// fields limited to ASCII, every fixed field extracted bit-exactly.
    pub fn try_from(value: Vec<u8>) -> (r: Result<InquiryResponse, Error>)
        ensures
            value@.len() < 36 <==> r == Err::<InquiryResponse, Error>(
                Error::IncompleteResponse(value@.len() as usize),
            ),
            value@.len() >= 36 && !spec_inquiry_ascii_ok(value@) <==> r == Err::<
                InquiryResponse,
                Error,
            >(Error::InvalidAsciiSequence),
            value@.len() >= 36 && spec_inquiry_ascii_ok(value@) ==> (r matches Ok(resp) && {
                &&& resp.peripheral_qualifier == PeripheralQualifier::spec_from(
                    (value@[0] & 0xe0) >> 5,
                )
                &&& resp.peripheral_device_type == PeripheralDeviceType::spec_from(
                    value@[0] & 0x1f,
                )
                &&& resp.removable_media == (value@[1] & 0x80 != 0)
                &&& resp.version == Version::spec_from(value@[2])
                &&& resp.normal_aca == (value@[3] & 0x20 != 0)
                &&& resp.hierarchical_support == (value@[3] & 0x10 != 0)
                &&& resp.response_data_format == value@[3] & 0x0f
                &&& resp.scc_supported == (value@[5] & 0x80 != 0)
                &&& resp.access_controls_coordinator == (value@[5] & 0x40 != 0)
                &&& resp.target_port_group_support == TargetPortGroupSupport::spec_from(
                    (value@[5] & 0x30) >> 4,
                )
                &&& resp.third_party_copy == (value@[5] & 0x08 != 0)
                &&& resp.protect == (value@[5] & 0x01 != 0)
                &&& resp.enclosure_services == (value@[6] & 0x40 != 0)
                &&& resp.multi_port == (value@[6] & 0x10 != 0)
                &&& resp.command_queuing == (value@[7] & 0x02 != 0)
                &&& resp.t10_vendor_identification@ == spec_trim_trailing_spaces(
                    value@.subrange(8, 16),
                )
                &&& resp.product_identification@ == spec_trim_trailing_spaces(
                    value@.subrange(16, 32),
                )
                &&& resp.product_revision_level@ == spec_trim_trailing_spaces(
                    value@.subrange(32, 36),
                )
            }),
    {
        let res_len = value.len();
        if res_len < MIN_INQUIRY_RESPONSE_LEN {
            return Err(Error::IncompleteResponse(res_len));
        }
        let text = vstd::slice::slice_subrange(value.as_slice(), 8, 36);
        if !all_ascii(text) {
            return Err(Error::InvalidAsciiSequence);
        }
        proof {
            assert(forall|i: int| 8 <= i < 36 ==> value@[i] == text@[i - 8]);
        }
        let t10_vendor_identification = trim_trailing_spaces(
            vstd::slice::slice_subrange(value.as_slice(), 8, 16),
        );
        let product_identification = trim_trailing_spaces(
            vstd::slice::slice_subrange(value.as_slice(), 16, 32),
        );
        let product_revision_level = trim_trailing_spaces(
            vstd::slice::slice_subrange(value.as_slice(), 32, 36),
        );
        Ok(
            InquiryResponse {
                peripheral_qualifier: PeripheralQualifier::from((value[0] & 0xe0) >> 5),
                peripheral_device_type: PeripheralDeviceType::from(value[0] & 0x1f),
                removable_media: value[1] & 0x80 != 0,
                version: Version::from(value[2]),
                normal_aca: value[3] & 0x20 != 0,
                hierarchical_support: value[3] & 0x10 != 0,
                response_data_format: value[3] & 0x0f,
                scc_supported: value[5] & 0x80 != 0,
                access_controls_coordinator: value[5] & 0x40 != 0,
                target_port_group_support: TargetPortGroupSupport::from((value[5] & 0x30) >> 4),
                third_party_copy: value[5] & 0x08 != 0,
                protect: value[5] & 0x01 != 0,
                enclosure_services: value[6] & 0x40 != 0,
                multi_port: value[6] & 0x10 != 0,
                command_queuing: value[7] & 0x02 != 0,
                t10_vendor_identification,
                product_identification,
                product_revision_level,
            },
        )
    }
}

} // verus!
