use scsi_lib::error::{MMCError, CDBOrParameterValidationError};
use scsi_lib::transport::{
    DxferDirection, SgioRequest, TransportError, interpret_sgio_result, SENSE_BUFFER_LEN,
    SGIO_INTERFACE_ID, SGIO_TIMEOUT_MS,
};

fn sense_with(sk: u8, asc: u8, ascq: u8) -> Vec<u8> {
    let mut sense = vec![0u8; 64];
    sense[2] = sk;
    sense[12] = asc;
    sense[13] = ascq;
    sense
}

#[test]
fn good_status_truncates_by_residual() {
    // Allocated 100 bytes, residual 40: exactly 60 bytes come back.
    let data = vec![7u8; 100];
    let sense = vec![0u8; 64];
    let r = interpret_sgio_result(data, 0, 40, &sense, 0).unwrap();
    assert_eq!(r.len(), 60);
    assert!(r.iter().all(|b| *b == 7));
}

#[test]
fn good_status_zero_residual_keeps_all() {
    let data = vec![1u8, 2, 3, 4];
    let sense = vec![0u8; 64];
    let r = interpret_sgio_result(data, 0, 0, &sense, 0).unwrap();
    assert_eq!(r, vec![1, 2, 3, 4]);
}

#[test]
fn condition_good_counts_as_success() {
    let data = vec![9u8; 10];
    let sense = vec![0u8; 64];
    let r = interpret_sgio_result(data, 2, 1, &sense, 0).unwrap();
    assert_eq!(r.len(), 9);
}

#[test]
fn residual_out_of_range_is_error() {
    let sense = vec![0u8; 64];
    assert_eq!(
        interpret_sgio_result(vec![0u8; 10], 0, 10, &sense, 0),
        Err(TransportError::InvalidResidual { allocated: 10, residual: 10 })
    );
    assert_eq!(
        interpret_sgio_result(vec![0u8; 10], 0, -1, &sense, 0),
        Err(TransportError::InvalidResidual { allocated: 10, residual: -1 })
    );
    assert_eq!(
        interpret_sgio_result(Vec::new(), 0, 0, &sense, 0),
        Err(TransportError::InvalidResidual { allocated: 0, residual: 0 })
    );
}

#[test]
fn failure_with_matched_sense_classifies() {
    let sense = sense_with(0x5, 0x24, 0x00);
    assert_eq!(
        interpret_sgio_result(vec![0u8; 8], 1, 0, &sense, 18),
        Err(TransportError::Mmc(MMCError::CDBOrParameterValidationError(
            CDBOrParameterValidationError::InvalidFieldInCdb
        )))
    );
}

#[test]
fn failure_masks_sense_key_nibble() {
    // Only the low nibble of sense byte 2 is the sense key.
    let sense = sense_with(0xF5, 0x24, 0x00);
    assert_eq!(
        interpret_sgio_result(vec![0u8; 8], 1, 0, &sense, 18),
        Err(TransportError::Mmc(MMCError::CDBOrParameterValidationError(
            CDBOrParameterValidationError::InvalidFieldInCdb
        )))
    );
}

#[test]
fn failure_with_unmatched_sense_is_carried() {
    let sense = sense_with(0xF, 0xFF, 0xFF);
    assert_eq!(
        interpret_sgio_result(vec![0u8; 8], 1, 0, &sense, 18),
        Err(TransportError::UnmatchedSense {
            status: 1,
            sense_key: 0xF,
            asc: 0xFF,
            ascq: 0xFF,
        })
    );
}

#[test]
fn failure_without_sense_is_bad_status() {
    let sense = vec![0u8; 64];
    assert_eq!(
        interpret_sgio_result(vec![0u8; 8], 4, 0, &sense, 0),
        Err(TransportError::BadStatus(4))
    );
}

#[test]
fn direction_codes() {
    assert_eq!(DxferDirection::NoData.code(), -1);
    assert_eq!(DxferDirection::ToDev.code(), -2);
    assert_eq!(DxferDirection::FromDev.code(), -3);
    assert_eq!(DxferDirection::ToFromDev.code(), -4);
    assert_eq!(DxferDirection::Unknown.code(), -5);
}

#[test]
fn sgio_request_carries_plain_values() {
    let req = SgioRequest::new(DxferDirection::FromDev, vec![0x12, 0, 0, 0, 36, 0], 36);
    assert_eq!(req.direction, DxferDirection::FromDev);
    assert_eq!(req.cdb, vec![0x12, 0, 0, 0, 36, 0]);
    assert_eq!(req.data_len, 36);
    assert_eq!(SGIO_INTERFACE_ID, 'S' as i32);
    assert_eq!(SGIO_TIMEOUT_MS, 10_000);
    assert_eq!(SENSE_BUFFER_LEN, 64);
}
