use scsi_lib::addressing::{Lba, Lsn, Msf, BlockAddressError, LBA_MAX, LBA_MIN, LSN_MAX, LSN_MIN};

fn round_trip(raw: i32) {
    let lba = Lba::try_from(raw).unwrap();
    let msf = Msf::from(lba);
    assert_eq!(Lba::from(msf), lba);
}

#[test]
fn lba_msf_round_trip_samples() {
    for raw in [
        LBA_MIN,
        LBA_MIN + 1,
        -45000,
        -151,
        -150,
        -149,
        -1,
        0,
        1,
        150,
        4500,
        16000,
        404849,
        LBA_MAX - 1,
        LBA_MAX,
    ] {
        round_trip(raw);
    }
}

#[test]
fn lba_to_msf_exact_values() {
    // LBA 0 sits two seconds in, after the pregap.
    assert_eq!(Msf::from(Lba(0)), Msf(0, 2, 0));
    // The first addressable frame of the disc.
    assert_eq!(Msf::from(Lba(-150)), Msf(0, 0, 0));
    // The last main-band address.
    assert_eq!(Msf::from(Lba(404849)), Msf(89, 59, 74));
    // The lead-out band starts at 90:00:00.
    assert_eq!(Msf::from(Lba(-45150)), Msf(90, 0, 0));
    // The last lead-out-band address.
    assert_eq!(Msf::from(Lba(-151)), Msf(99, 59, 74));
}

#[test]
fn msf_to_lba_exact_values() {
    assert_eq!(Lba::from(Msf(0, 0, 0)), Lba(-150));
    assert_eq!(Lba::from(Msf(0, 2, 0)), Lba(0));
    assert_eq!(Lba::from(Msf(89, 59, 74)), Lba(404849));
    assert_eq!(Lba::from(Msf(90, 0, 0)), Lba(-45150));
    assert_eq!(Lba::from(Msf(99, 59, 74)), Lba(-151));
}

#[test]
fn lba_bounds_reject() {
    assert_eq!(Lba::try_from(LBA_MAX + 1), Err(BlockAddressError::OutOfRange));
    assert_eq!(Lba::try_from(LBA_MIN - 1), Err(BlockAddressError::OutOfRange));
    assert_eq!(Lba::try_from(LBA_MAX), Ok(Lba(LBA_MAX)));
    assert_eq!(Lba::try_from(LBA_MIN), Ok(Lba(LBA_MIN)));
}

#[test]
fn msf_bounds_reject() {
    assert_eq!(Msf::new(100, 0, 0), Err(BlockAddressError::OutOfRange));
    assert_eq!(Msf::new(0, 60, 0), Err(BlockAddressError::OutOfRange));
    assert_eq!(Msf::new(0, 0, 75), Err(BlockAddressError::OutOfRange));
    assert_eq!(Msf::new(99, 59, 74), Ok(Msf(99, 59, 74)));
    assert_eq!(Msf::new(0, 0, 0), Ok(Msf(0, 0, 0)));
}

#[test]
fn msf_lexicographic_order() {
    assert!(Msf(1, 0, 0) > Msf(0, 59, 74));
    assert!(Msf(0, 59, 74) < Msf(1, 0, 0));
    assert!(Msf(2, 3, 4) > Msf(2, 3, 3));
    assert!(Msf(2, 3, 4) > Msf(2, 2, 74));
    assert!(Msf(2, 3, 4) == Msf(2, 3, 4));
    assert!(Msf(2, 3, 4) <= Msf(2, 3, 4));
    assert!(Msf(0, 0, 1) > Msf(0, 0, 0));
}

#[test]
fn lsn_bounds_reject() {
    assert_eq!(Lsn::try_from(LSN_MAX + 1), Err(BlockAddressError::OutOfRange));
    assert_eq!(Lsn::try_from(LSN_MIN - 1), Err(BlockAddressError::OutOfRange));
    assert_eq!(Lsn::try_from(0), Ok(Lsn(0)));
}

#[test]
fn lsn_lba_pregap_shift() {
    // LSN 0 names the very first frame of the disc at 00:00:00.
    let lsn = Lsn(0);
    let lba = Lba::from_lsn(lsn);
    assert_eq!(lba, Lba(-150));
    assert_eq!(Lsn::from(lba), lsn);
    assert_eq!(Msf::from_lsn(lsn), Msf(0, 0, 0));
    // The first playable block, LBA 0, sits one pregap in.
    assert_eq!(Lsn::from(Lba(0)), Lsn(150));
    assert_eq!(Msf::from_lsn(Lsn(150)), Msf(0, 2, 0));
}

#[test]
fn raw_accessors() {
    assert_eq!(Lba(123).raw(), 123);
    assert_eq!(Lsn(-45).raw(), -45);
}
