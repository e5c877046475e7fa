use scsi_lib::features::{
    DataSize, FeatureError, FeatureHeader, FeatureParser, FeaturePayload, parse_descriptor,
    parse_features,
};
use scsi_lib::features::types::{PhysicalInterfaceStandard, Profile};

/// One Core feature record: code 0x0001, version 0b0010, persistent and
/// current set, 8 payload bytes naming the SCSI interface with INQ2 set.
fn core_record() -> Vec<u8> {
    vec![
        0x00, 0x01, // feature code
        0b0000_1011, // version 0b0010, persistent, current
        8,    // additional length
        0x00, 0x00, 0x00, 0x01, // physical interface: SCSI family
        0b0000_0010, // INQ2 set, DBE clear
        0x00, 0x00, 0x00,
    ]
}

#[test]
fn one_core_record_parses() {
    let descriptors = parse_features(core_record());
    assert_eq!(descriptors.len(), 1);
    let d = &descriptors[0];
    assert_eq!(
        d.header,
        FeatureHeader {
            feature_code: 0x0001,
            version: 0b0010,
            persistent: true,
            current: true,
            additional_length: 8,
        }
    );
    match &d.payload {
        FeaturePayload::Core(core) => {
            assert_eq!(core.physical_interface, PhysicalInterfaceStandard::ScsiFamily);
            assert!(core.inq2);
            assert!(!core.dbe);
        }
        other => panic!("wrong payload: {:?}", other),
    }
}

#[test]
fn cursor_advances_a_whole_record() {
    let mut parser = FeatureParser::new(core_record());
    assert_eq!(parser.pos, 0);
    let d = parser.next();
    assert!(d.is_some());
    // Four header bytes plus eight payload bytes.
    assert_eq!(parser.pos, 12);
    assert!(parser.next().is_none());
}

#[test]
fn empty_input_ends_list_with_zero_descriptors() {
    assert_eq!(parse_features(Vec::new()).len(), 0);
    assert_eq!(parse_features(vec![0x00, 0x01, 0x0B]).len(), 0);
}

#[test]
fn unknown_code_decodes_opaquely() {
    let bytes = vec![0x99, 0x99, 0b0000_0001, 2, 0xAA, 0xBB];
    let d = parse_descriptor(&bytes).unwrap();
    assert_eq!(d.header.feature_code, 0x9999);
    assert_eq!(d.header.additional_length, 2);
    match &d.payload {
        FeaturePayload::Unknown(u) => {
            assert_eq!(u.feature_code, 0x9999);
            assert_eq!(u.data, vec![0xAA, 0xBB]);
        }
        other => panic!("wrong payload: {:?}", other),
    }
}

#[test]
fn short_record_is_descriptor_size_error() {
    assert_eq!(parse_descriptor(&[0x00, 0x01]), Err(FeatureError::DescriptorSize));
}

#[test]
fn overrunning_payload_is_missing_data() {
    // Declares 8 payload bytes but provides 3.
    let bytes = vec![0x00, 0x01, 0x0B, 8, 1, 2, 3];
    assert_eq!(
        parse_descriptor(&bytes),
        Err(FeatureError::MissingData { expected: 8, received: 3 })
    );
}

#[test]
fn known_code_with_bad_size_is_data_size_error() {
    // Core requires exactly 8 payload bytes; 4 are declared and present.
    let bytes = vec![0x00, 0x01, 0x0B, 4, 0, 0, 0, 1];
    assert_eq!(
        parse_descriptor(&bytes),
        Err(FeatureError::DataSize { expected: DataSize::Fixed(8), received: 4 })
    );
}

#[test]
fn bad_known_record_is_skipped_and_walk_continues() {
    // A malformed Core record (wrong payload size), then a good unknown one.
    let mut bytes = vec![0x00, 0x01, 0x0B, 4, 0, 0, 0, 1];
    bytes.extend_from_slice(&[0x99, 0x99, 0x01, 1, 0x42]);
    let descriptors = parse_features(bytes);
    assert_eq!(descriptors.len(), 1);
    assert_eq!(descriptors[0].header.feature_code, 0x9999);
}

#[test]
fn overrunning_record_ends_list_early() {
    // A good unknown record, then one whose payload overruns the input.
    let mut bytes = vec![0x99, 0x99, 0x01, 1, 0x42];
    bytes.extend_from_slice(&[0x00, 0x01, 0x0B, 8, 1, 2, 3]);
    let descriptors = parse_features(bytes);
    assert_eq!(descriptors.len(), 1);
    assert_eq!(descriptors[0].header.feature_code, 0x9999);
}

#[test]
fn profile_list_parses_descriptors() {
    // Profile list: two profiles, CD-ROM current and DVD-ROM not.
    let bytes = vec![
        0x00, 0x00, 0b0000_0011, 8, // header, version 0
        0x00, 0x08, 0x01, 0x00, // CD-ROM, current
        0x00, 0x10, 0x00, 0x00, // DVD-ROM
    ];
    let d = parse_descriptor(&bytes).unwrap();
    match &d.payload {
        FeaturePayload::ProfileList(pl) => {
            assert_eq!(pl.profile_descriptors.len(), 2);
            assert_eq!(pl.profile_descriptors[0].profile_number, Profile::CdRom);
            assert!(pl.profile_descriptors[0].current_p);
            assert_eq!(pl.profile_descriptors[1].profile_number, Profile::DvdRom);
            assert!(!pl.profile_descriptors[1].current_p);
        }
        other => panic!("wrong payload: {:?}", other),
    }
}

#[test]
fn removable_medium_fields() {
    // Loading mechanism tray (001), eject and lock set.
    let bytes = vec![0x00, 0x03, 0b0000_0111, 4, 0b0010_1001, 0, 0, 0];
    let d = parse_descriptor(&bytes).unwrap();
    match &d.payload {
        FeaturePayload::RemovableMedium(rm) => {
            assert_eq!(
                rm.loading_mechanism,
                scsi_lib::features::types::LoadingMechanism::Tray
            );
            assert!(!rm.load);
            assert!(rm.eject);
            assert!(!rm.prevent_jumper);
            assert!(rm.lock);
        }
        other => panic!("wrong payload: {:?}", other),
    }
}

#[test]
fn incremental_streaming_link_sizes() {
    let bytes = vec![
        0x00, 0x21, 0x09, 8, // header, version 2
        0x00, 0x01, // data block types
        0b0000_0101, // TRIO and BUF
        2,    // two link sizes
        7, 16, 0, 0,
    ];
    let d = parse_descriptor(&bytes).unwrap();
    match &d.payload {
        FeaturePayload::IncrementalStreamingWritable(isw) => {
            assert_eq!(isw.data_block_types_supported.0, 1);
            assert!(isw.trio);
            assert!(!isw.arsv);
            assert!(isw.buf);
            assert_eq!(isw.link_sizes, vec![7, 16]);
        }
        other => panic!("wrong payload: {:?}", other),
    }
}

#[test]
fn drive_serial_number_trims_padding() {
    let bytes = vec![0x01, 0x08, 0x01, 4, b'A', b'B', b' ', b' '];
    let d = parse_descriptor(&bytes).unwrap();
    match &d.payload {
        FeaturePayload::DriveSerialNumber(sn) => {
            assert_eq!(sn.serial_number, vec![b'A', b'B']);
        }
        other => panic!("wrong payload: {:?}", other),
    }
}

#[test]
fn firmware_information_fields() {
    let mut bytes = vec![0x01, 0x0C, 0x01, 16];
    // "20" "24" "06" "01" "12" "30" "45" as big-endian byte pairs.
    bytes.extend_from_slice(&[0, 20, 0, 24, 0, 6, 0, 1, 0, 12, 0, 30, 0, 45, 0, 0]);
    let d = parse_descriptor(&bytes).unwrap();
    match &d.payload {
        FeaturePayload::FirmwareInformation(fi) => {
            assert_eq!(fi.century, 20);
            assert_eq!(fi.year, 24);
            assert_eq!(fi.month, 6);
            assert_eq!(fi.day, 1);
            assert_eq!(fi.hour, 12);
            assert_eq!(fi.minute, 30);
            assert_eq!(fi.second, 45);
        }
        other => panic!("wrong payload: {:?}", other),
    }
}

#[test]
fn data_size_cmp() {
    assert!(DataSize::Fixed(8).cmp_size(8));
    assert!(!DataSize::Fixed(8).cmp_size(7));
    assert!(!DataSize::Fixed(8).cmp_size(9));
    assert!(DataSize::Variable(4).cmp_size(4));
    assert!(DataSize::Variable(4).cmp_size(100));
    assert!(!DataSize::Variable(4).cmp_size(3));
}

#[test]
fn multi_record_stream_in_order() {
    let mut bytes = core_record();
    bytes.extend_from_slice(&[0x99, 0x99, 0x01, 1, 0x42]);
    bytes.extend_from_slice(&[0x00, 0x1D, 0x07, 0]); // MultiRead, no payload
    let descriptors = parse_features(bytes);
    assert_eq!(descriptors.len(), 3);
    assert_eq!(descriptors[0].header.feature_code, 0x0001);
    assert_eq!(descriptors[1].header.feature_code, 0x9999);
    assert_eq!(descriptors[2].header.feature_code, 0x001D);
    assert!(matches!(descriptors[2].payload, FeaturePayload::MultiRead(_)));
}
