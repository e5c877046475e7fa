use scsi_lib::addressing::{Lba, Msf};
use scsi_lib::cdb::{Cdb, Control, GroupCode};
use scsi_lib::commands::get_configuration::{
    Error as GetConfigurationError, GetConfiguration, GetConfigurationResponse, RTField,
};
use scsi_lib::commands::inquiry::{
    Error as InquiryError, Inquiry, InquiryResponse, PeripheralDeviceType, PeripheralQualifier,
    TargetPortGroupSupport, Version,
};
use scsi_lib::commands::read_capacity::{
    Error as ReadCapacityError, ReadCapacity, ReadCapacityResponse,
};
use scsi_lib::commands::read_cd::{
    C2ErrorCode, Error as ReadCDError, MainChannelFlags, ReadCD, SectorReader, SectorType,
    SubChannelSelection,
};
use scsi_lib::commands::read_track_info::{
    AddressType, DataMode, Error as ReadTrackInfoError, LayerJumpRecordingStatus, ReadTrackInfo,
    ReadTrackInfoResponse,
};
use scsi_lib::commands::start_stop_unit::{LoadEjectOperation, PowerCondition, StartStopUnit};
use scsi_lib::commands::toc::{
    Adr, Error as TocError, Format, FormattedTOC, Toc, TrackControl,
};
use scsi_lib::features::types::Profile;

#[test]
fn get_configuration_cdb_bytes() {
    // rt=All, starting feature 0, allocation length 8096, control 0.
    let cmd = GetConfiguration::new(RTField::All, 0, 8096, Control(0));
    let cdb = cmd.as_cdb();
    assert_eq!(cdb.len(), 10);
    assert_eq!(cdb[0], 0x46);
    assert_eq!(cdb[1], 0x00);
    assert_eq!(&cdb[2..7], &[0, 0, 0, 0, 0]);
    assert_eq!(cdb[7], 0x1F); // 8096 = 0x1FA0 big-endian
    assert_eq!(cdb[8], 0xA0);
    assert_eq!(cdb[9], 0x00);
    assert_eq!(cmd.allocation_len(), 8096);
}

#[test]
fn get_configuration_rt_current_encodes() {
    let cdb = GetConfiguration::new(RTField::Current, 0x0102, 16, Control(0x40)).as_cdb();
    assert_eq!(cdb[1], 0x01);
    assert_eq!(cdb[2], 0x01);
    assert_eq!(cdb[3], 0x02);
    assert_eq!(cdb[9], 0x40);
}

#[test]
fn get_configuration_response_decodes() {
    // Data length 8, current profile CD-ROM, one unknown feature record.
    let bytes = vec![
        0, 0, 0, 9, // data length: bytes after this field = 9
        0, 0, // reserved
        0x00, 0x08, // current profile: CD-ROM
        0x99, 0x99, 0x01, 1, 0x42, // one unknown record
    ];
    let resp = GetConfigurationResponse::try_from(bytes).unwrap();
    assert_eq!(resp.data_length, 9);
    assert_eq!(resp.current_profile, Profile::CdRom);
    assert_eq!(resp.descriptors.len(), 1);
    assert_eq!(resp.descriptors[0].header.feature_code, 0x9999);
}

#[test]
fn get_configuration_response_rejects() {
    assert_eq!(
        GetConfigurationResponse::try_from(vec![0, 0, 0]),
        Err(GetConfigurationError::IncompleteHeader(3))
    );
    let bytes = vec![0, 0, 0, 9, 0, 0, 0, 0x08];
    assert_eq!(
        GetConfigurationResponse::try_from(bytes),
        Err(GetConfigurationError::LengthMismatch { received: 4, data_length: 9 })
    );
}

#[test]
fn inquiry_cdb_bytes() {
    let cdb = Inquiry::new(false, 0, Control(0)).as_cdb();
    assert_eq!(cdb, vec![0x12, 0, 0, 0, 36, 0]);
    let cdb = Inquiry::new(true, 0x80, Control(0)).as_cdb();
    assert_eq!(cdb, vec![0x12, 1, 0x80, 0, 36, 0]);
}

#[test]
fn inquiry_response_decodes() {
    let mut bytes = vec![0u8; 36];
    bytes[0] = 0x05; // qualifier 0, CD/DVD device
    bytes[1] = 0x80; // removable
    bytes[2] = 0x05; // SPC-3
    bytes[3] = 0x22; // NACA set, response data format 2
    bytes[5] = 0x31; // TPGS implicit and explicit, protect
    bytes[6] = 0x40; // enclosure services
    bytes[7] = 0x02; // command queuing
    bytes[8..16].copy_from_slice(b"HL-DT-ST");
    bytes[16..32].copy_from_slice(b"DVDRAM GH24NSC0 ");
    bytes[32..36].copy_from_slice(b"LK00");
    let resp = InquiryResponse::try_from(bytes).unwrap();
    assert_eq!(resp.peripheral_qualifier, PeripheralQualifier::ConnectedOrUnknown);
    assert_eq!(resp.peripheral_device_type, PeripheralDeviceType::CdOrDvdDevice);
    assert!(resp.removable_media);
    assert_eq!(resp.version, Version::Spc3);
    assert!(resp.normal_aca);
    assert!(!resp.hierarchical_support);
    assert_eq!(resp.response_data_format, 2);
    assert_eq!(resp.target_port_group_support, TargetPortGroupSupport::ImplicitAndExplicit);
    assert!(resp.protect);
    assert!(resp.enclosure_services);
    assert!(resp.command_queuing);
    assert_eq!(resp.t10_vendor_identification, b"HL-DT-ST".to_vec());
    assert_eq!(resp.product_identification, b"DVDRAM GH24NSC0".to_vec());
    assert_eq!(resp.product_revision_level, b"LK00".to_vec());
}

#[test]
fn inquiry_response_rejects() {
    assert_eq!(
        InquiryResponse::try_from(vec![0u8; 35]),
        Err(InquiryError::IncompleteResponse(35))
    );
    let mut bytes = vec![0u8; 36];
    bytes[10] = 0xC3; // not seven-bit ASCII
    assert_eq!(InquiryResponse::try_from(bytes), Err(InquiryError::InvalidAsciiSequence));
}

#[test]
fn read_capacity_cdb_and_response() {
    let cmd = ReadCapacity::new(Control(0));
    assert_eq!(cmd.as_cdb(), vec![0x25, 0, 0, 0, 0, 0, 0, 0, 0, 0]);
    assert_eq!(cmd.allocation_len(), 8);
    let resp = ReadCapacityResponse::try_from(vec![0x00, 0x04, 0xB3, 0x4C, 0, 0, 0x08, 0x00])
        .unwrap();
    assert_eq!(resp.lba, Lba(0x04B34C));
    assert_eq!(resp.block_length_bytes, 2048);
}

#[test]
fn read_capacity_response_rejects() {
    assert_eq!(
        ReadCapacityResponse::try_from(vec![0u8; 7]),
        Err(ReadCapacityError::IncompleteResponse(7))
    );
    // 0x7FFFFFFF is far outside the valid interval.
    let r = ReadCapacityResponse::try_from(vec![0x7F, 0xFF, 0xFF, 0xFF, 0, 0, 8, 0]);
    assert!(matches!(r, Err(ReadCapacityError::InvalidLba(_))));
}

#[test]
fn read_cd_cdb_bytes() {
    let mut cmd = ReadCD::new();
    cmd.sector_type = SectorType::CdDa;
    cmd.dap = true;
    cmd.starting_lba = Lba(0x010203);
    cmd.transfer_length = 27;
    cmd.main_channel = MainChannelFlags::user_data_only();
    cmd.c2_error_info = C2ErrorCode::ErrorBits;
    cmd.sub_channel = SubChannelSelection::QSubChannel;
    cmd.control = Control(0);
    let cdb = cmd.as_cdb();
    assert_eq!(cdb.len(), 12);
    assert_eq!(cdb[0], 0xBE);
    assert_eq!(cdb[1], (1 << 2) | (1 << 1)); // CD-DA, DAP
    assert_eq!(&cdb[2..6], &[0x00, 0x01, 0x02, 0x03]);
    assert_eq!(&cdb[6..9], &[0x00, 0x00, 27]);
    assert_eq!(cdb[9], 0x10 | (1 << 1)); // user data, C2 error bits
    assert_eq!(cdb[10], 2);
    assert_eq!(cdb[11], 0);
}

#[test]
fn read_cd_negative_lba_twos_complement() {
    let mut cmd = ReadCD::new();
    cmd.starting_lba = Lba(-150);
    let cdb = cmd.as_cdb();
    assert_eq!(&cdb[2..6], &[0xFF, 0xFF, 0xFF, 0x6A]);
}

#[test]
fn read_cd_allocation_by_sector_type() {
    let mut cmd = ReadCD::new();
    cmd.transfer_length = 2;
    cmd.sector_type = SectorType::CdDa;
    assert_eq!(cmd.allocation_len(), 2 * 2352);
    cmd.sector_type = SectorType::Mode1;
    assert_eq!(cmd.allocation_len(), 2 * 2048);
    cmd.sector_type = SectorType::Mode2Formless;
    assert_eq!(cmd.allocation_len(), 2 * 2336);
    cmd.sector_type = SectorType::Mode2Form1;
    assert_eq!(cmd.allocation_len(), 2 * 2048);
    cmd.sector_type = SectorType::Mode2Form2;
    assert_eq!(cmd.allocation_len(), 2 * 2324);
    cmd.sector_type = SectorType::AllTypes;
    assert_eq!(cmd.allocation_len(), 2 * 2352);
}

#[test]
fn sector_reader_caps_at_27_per_call() {
    // Requesting 50 sectors plans exactly two reads: 27 then 23.
    let mut reader = SectorReader::new(Lba(1000), 50);
    let first = reader.next_command().unwrap();
    assert_eq!(first.starting_lba, Lba(1000));
    assert_eq!(first.transfer_length, 27);
    assert!(first.main_channel.user_data);
    let second = reader.next_command().unwrap();
    assert_eq!(second.starting_lba, Lba(1027));
    assert_eq!(second.transfer_length, 23);
    assert_eq!(reader.remaining, 0);
    assert!(reader.next_command().is_none());
}

#[test]
fn sector_reader_small_request_one_call() {
    let mut reader = SectorReader::new(Lba(0), 5);
    let only = reader.next_command().unwrap();
    assert_eq!(only.transfer_length, 5);
    assert!(reader.next_command().is_none());
    assert_eq!(reader.remaining, 0);
}

#[test]
fn read_track_info_cdb_bytes() {
    let cmd = ReadTrackInfo::new(false, AddressType::Ltn, 1, Control(0));
    let cdb = cmd.as_cdb();
    assert_eq!(cdb, vec![0x52, 0x01, 0, 0, 0, 1, 0, 0, 50, 0]);
    let cmd = ReadTrackInfo::new(true, AddressType::Lba, 0x01020304, Control(0));
    let cdb = cmd.as_cdb();
    assert_eq!(cdb, vec![0x52, 0x04, 1, 2, 3, 4, 0, 0, 50, 0]);
}

#[test]
fn read_track_info_response_decodes() {
    let mut bytes = vec![0u8; 50];
    bytes[2] = 0x01; // track number LSB
    bytes[32] = 0x00; // track number MSB
    bytes[3] = 0x01; // session number LSB
    bytes[5] = 0b0110_0100; // LJRS 01, damage set, track mode 4
    bytes[6] = 0b1100_0001; // RT, blank, data mode 1
    bytes[7] = 0x03; // LRA_V and NWA_V
    bytes[8..12].copy_from_slice(&[0, 0, 0, 150]);
    bytes[24..28].copy_from_slice(&[0, 0, 0x10, 0]);
    let resp = ReadTrackInfoResponse::try_from(bytes).unwrap();
    assert_eq!(resp.logical_track_number, 1);
    assert_eq!(resp.session_number, 1);
    assert_eq!(resp.ljrs, LayerJumpRecordingStatus::Unspecified);
    assert!(resp.damage);
    assert!(!resp.copy);
    assert_eq!(resp.track_mode, 4);
    assert!(resp.rt);
    assert!(resp.blank);
    assert_eq!(resp.data_mode, DataMode::Mode1);
    assert!(resp.lra_v);
    assert!(resp.nwa_v);
    assert_eq!(resp.logical_track_start_addr, 150);
    assert_eq!(resp.logical_track_size, 0x1000);
}

#[test]
fn read_track_info_response_rejects() {
    assert_eq!(
        ReadTrackInfoResponse::try_from(vec![0u8; 47]),
        Err(ReadTrackInfoError::IncompleteResponse(47))
    );
    let mut bytes = vec![0u8; 50];
    bytes[6] = 0x07; // data mode 7 names nothing
    assert_eq!(
        ReadTrackInfoResponse::try_from(bytes),
        Err(ReadTrackInfoError::InvalidDataMode(7))
    );
}

#[test]
fn start_stop_unit_cdb_bytes() {
    let cdb = StartStopUnit::new(false, LoadEjectOperation::StartDisc, Control(0)).as_cdb();
    assert_eq!(cdb, vec![0x1B, 0, 0, 0, 0b0000_0001, 0]);
    let cdb = StartStopUnit::new(true, LoadEjectOperation::EjectIfPermitted, Control(0)).as_cdb();
    assert_eq!(cdb, vec![0x1B, 1, 0, 0, 0b0000_0010, 0]);
    let cdb = StartStopUnit::new(false, LoadEjectOperation::JumpToFormatLayer(1), Control(0))
        .as_cdb();
    assert_eq!(cdb, vec![0x1B, 0, 0, 1, 0b0000_0111, 0]);
    let cdb = StartStopUnit::new(
        false,
        LoadEjectOperation::ChangePowerCondition(PowerCondition::Sleep),
        Control(0),
    )
    .as_cdb();
    assert_eq!(cdb, vec![0x1B, 0, 0, 0, 0b0101_0000, 0]);
}

#[test]
fn formatted_toc_cdb_selects_msf_flag() {
    let lba_cdb = FormattedTOC::<Lba>::new(1, 2048, Control(0)).as_cdb();
    assert_eq!(lba_cdb, vec![0x43, 0, 0, 0, 0, 0, 1, 0x08, 0x00, 0]);
    let msf_cdb = FormattedTOC::<Msf>::new(1, 2048, Control(0)).as_cdb();
    assert_eq!(msf_cdb, vec![0x43, 2, 0, 0, 0, 0, 1, 0x08, 0x00, 0]);
}

#[test]
fn toc_decodes_lba_entries() {
    let bytes = vec![
        0x00, 0x12, 1, 2, // header: length 18, first track 1, last track 2
        0, 0x14, 1, 0, 0x00, 0x00, 0x00, 0x00, // track 1: ADR 1, data, LBA 0
        0, 0x10, 2, 0, 0x00, 0x00, 0x58, 0x98, // track 2: ADR 1, audio, LBA 22680
    ];
    let toc = Toc::<Lba>::try_from(bytes).unwrap();
    assert_eq!(toc.length, 18);
    assert_eq!(toc.first_track_num, 1);
    assert_eq!(toc.last_track_num, 2);
    assert_eq!(toc.track_descriptors.len(), 2);
    let t1 = &toc.track_descriptors[0];
    assert_eq!(t1.adr, Adr::Mode1Q);
    assert!(t1.control.is_data);
    assert_eq!(t1.number, 1);
    assert_eq!(t1.start_addr, Lba(0));
    let t2 = &toc.track_descriptors[1];
    assert_eq!(
        t2.control,
        TrackControl {
            four_channels: false,
            is_data: false,
            copy_permitted: false,
            preemphasis_or_incremental: false,
        }
    );
    assert_eq!(t2.start_addr, Lba(22680));
}

#[test]
fn toc_decodes_msf_entries() {
    let bytes = vec![
        0x00, 0x0A, 1, 1, // header
        0, 0x14, 1, 0, 0x00, 0, 2, 0, // track 1 at 00:02:00
    ];
    let toc = Toc::<Msf>::try_from(bytes).unwrap();
    assert_eq!(toc.track_descriptors[0].start_addr, Msf(0, 2, 0));
}

#[test]
fn toc_rejects_bad_entries() {
    assert_eq!(Toc::<Lba>::try_from(vec![0, 0]), Err(TocError::IncompleteHeader(2)));
    let bytes = vec![
        0x00, 0x0A, 1, 1, //
        0, 0xF4, 1, 0, 0, 0, 0, 0, // ADR nibble 0xF names nothing
    ];
    assert_eq!(Toc::<Lba>::try_from(bytes), Err(TocError::InvalidAdr(0xF)));
    // An MSF entry with minute 99 is still in range.
    let edge = vec![
        0x00, 0x0A, 1, 1, //
        0, 0x14, 1, 0, 0, 99, 0, 0,
    ];
    assert!(Toc::<Msf>::try_from(edge).is_ok());
    // An MSF entry with an out-of-range second is rejected.
    let bad = vec![
        0x00, 0x0A, 1, 1, //
        0, 0x14, 1, 0, 0, 0, 60, 0,
    ];
    assert!(matches!(Toc::<Msf>::try_from(bad), Err(TocError::InvalidAddress(_))));
}

#[test]
fn toc_ignores_trailing_partial_entry() {
    let bytes = vec![
        0x00, 0x0A, 1, 1, //
        0, 0x14, 1, 0, 0, 0, 0, 0, //
        0, 0x14, // a partial entry
    ];
    let toc = Toc::<Lba>::try_from(bytes).unwrap();
    assert_eq!(toc.track_descriptors.len(), 1);
}

#[test]
fn group_code_lengths() {
    assert_eq!(GroupCode::Cmd6.cdb_len(), 6);
    assert_eq!(GroupCode::Cmd10.cdb_len(), 10);
    assert_eq!(GroupCode::Cmd12.cdb_len(), 12);
    assert_eq!(GroupCode::Cmd16.cdb_len(), 16);
}

#[test]
fn format_field_values() {
    assert_eq!(Format::FormattedTOC.as_u8(), 0);
    assert_eq!(Format::MultiSessionInfo.as_u8(), 1);
    assert_eq!(Format::RawTOC.as_u8(), 2);
    assert_eq!(Format::Pma.as_u8(), 3);
    assert_eq!(Format::Atip.as_u8(), 4);
    assert_eq!(Format::CDText.as_u8(), 5);
}

#[test]
fn sector_type_codecs() {
    for (t, v) in [
        (SectorType::AllTypes, 0u8),
        (SectorType::CdDa, 1),
        (SectorType::Mode1, 2),
        (SectorType::Mode2Formless, 3),
        (SectorType::Mode2Form1, 4),
        (SectorType::Mode2Form2, 5),
    ] {
        assert_eq!(t.as_u8(), v);
        assert_eq!(SectorType::try_from_u8(v), Ok(t));
    }
    assert!(SectorType::try_from_u8(6).is_err());
}

#[test]
fn read_cd_cdb_round_trips_through_decode() {
    let mut cmd = ReadCD::new();
    cmd.sector_type = SectorType::Mode2Form2;
    cmd.dap = true;
    cmd.starting_lba = Lba(-45150);
    cmd.transfer_length = 0x00ABCD;
    cmd.main_channel = MainChannelFlags {
        sync: true,
        subheader: false,
        header: true,
        user_data: true,
        edc_ecc: false,
    };
    cmd.c2_error_info = C2ErrorCode::BlockErrorByte;
    cmd.sub_channel = SubChannelSelection::RWSubChannel;
    cmd.control = Control(0xC0);
    let cdb = cmd.as_cdb();
    let decoded = ReadCD::try_from(&cdb).unwrap();
    assert_eq!(decoded.sector_type, cmd.sector_type);
    assert_eq!(decoded.dap, cmd.dap);
    assert_eq!(decoded.starting_lba, cmd.starting_lba);
    assert_eq!(decoded.transfer_length, cmd.transfer_length);
    assert_eq!(decoded.main_channel, cmd.main_channel);
    assert_eq!(decoded.c2_error_info, cmd.c2_error_info);
    assert_eq!(decoded.sub_channel, cmd.sub_channel);
    assert_eq!(decoded.control, cmd.control);
}

#[test]
fn read_cd_decode_rejects() {
    let good = {
        let mut cmd = ReadCD::new();
        cmd.transfer_length = 1;
        cmd.as_cdb()
    };
    let mut bad = good.clone();
    bad[0] = 0x28;
    assert_eq!(ReadCD::try_from(&bad), Err(ReadCDError::IncorrectOpCode(0x28)));
    let mut bad = good.clone();
    bad[1] = 6 << 2; // sector type 6 names nothing
    assert_eq!(ReadCD::try_from(&bad), Err(ReadCDError::InvalidSectorType(6)));
    let mut bad = good.clone();
    bad[2..6].copy_from_slice(&[0x7F, 0xFF, 0xFF, 0xFF]);
    assert_eq!(ReadCD::try_from(&bad), Err(ReadCDError::InvalidLba(0x7FFFFFFF)));
    let mut bad = good.clone();
    bad[9] = 3 << 1; // C2 code 3 names nothing
    assert_eq!(ReadCD::try_from(&bad), Err(ReadCDError::InvalidC2ErrorCode(3)));
    let mut bad = good.clone();
    bad[10] = 7; // sub-channel 7 names nothing
    assert_eq!(ReadCD::try_from(&bad), Err(ReadCDError::InvalidSubChannelSelection(7)));
}

#[test]
fn read_cd_transfer_length_validated() {
    let mut cmd = ReadCD::new();
    assert!(cmd.set_transfer_length(0xFFFFFF).is_ok());
    assert_eq!(cmd.transfer_length, 0xFFFFFF);
    assert_eq!(
        cmd.set_transfer_length(0x1000000),
        Err(ReadCDError::InvalidTransferLength(0x1000000))
    );
    // A rejected value leaves the command unchanged.
    assert_eq!(cmd.transfer_length, 0xFFFFFF);
}
