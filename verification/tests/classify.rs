use scsi_lib::error::{
    CDBOrParameterValidationError, CodeMatcher, GeneralMediaAccessError, HardwareFailure,
    MMCError, NonATAPIEnvironmentError, ReadingError, ReadinessError, SenseRule,
    UnitAttentionCondition, WritingError, classify, code_matches,
};

#[test]
fn exact_match_invalid_field_in_cdb() {
    assert_eq!(
        MMCError::from_codes(0x5, 0x24, 0x00),
        Some(MMCError::CDBOrParameterValidationError(
            CDBOrParameterValidationError::InvalidFieldInCdb
        ))
    );
}

#[test]
fn wildcard_blank_check() {
    // Sense key 8 matches the Reading category's wildcard rule whatever the
    // additional codes hold; Reading precedes Writing, whose table holds the
    // same condition.
    assert_eq!(
        MMCError::from_codes(0x8, 0x33, 0x44),
        Some(MMCError::ReadingError(ReadingError::BlankCheck))
    );
    assert_eq!(
        MMCError::from_codes(0x8, 0x00, 0x00),
        Some(MMCError::ReadingError(ReadingError::BlankCheck))
    );
}

#[test]
fn unmatched_triple_yields_none() {
    assert_eq!(MMCError::from_codes(0xF, 0xFF, 0xFF), None);
}

#[test]
fn exact_match_unit_attention() {
    assert_eq!(
        MMCError::from_codes(0x6, 0x28, 0x00),
        Some(MMCError::UnitAttentionCondition(
            UnitAttentionCondition::NotReadyToReadyChangeMediumMayHaveChanged
        ))
    );
}

#[test]
fn one_of_matches_either_sense_key() {
    // CANNOT READ MEDIUM - INCOMPATIBLE FORMAT is declared in Readiness with
    // an alternation over sense keys 2 and 5; both land there because
    // Readiness precedes General Media Access.
    assert_eq!(
        MMCError::from_codes(0x2, 0x30, 0x02),
        Some(MMCError::ReadinessError(
            ReadinessError::CannotReadMediumIncompatibleFormat
        ))
    );
    assert_eq!(
        MMCError::from_codes(0x5, 0x30, 0x02),
        Some(MMCError::ReadinessError(
            ReadinessError::CannotReadMediumIncompatibleFormat
        ))
    );
}

#[test]
fn cross_category_duplication_preserved() {
    // INCOMPATIBLE MEDIUM INSTALLED appears under Readiness for sense key 2
    // and under General Media Access for sense key 5.
    assert_eq!(
        MMCError::from_codes(0x2, 0x30, 0x00),
        Some(MMCError::ReadinessError(ReadinessError::IncompatibleMediumInstalled))
    );
    assert_eq!(
        MMCError::from_codes(0x5, 0x30, 0x00),
        Some(MMCError::GeneralMediaAccessError(
            GeneralMediaAccessError::IncompatibleMediumInstalled
        ))
    );
}

#[test]
fn range_match_diagnostic_failure() {
    assert_eq!(
        MMCError::from_codes(0x4, 0x40, 0x80),
        Some(MMCError::HardwareFailure(
            HardwareFailure::DiagnosticFailureOnComponentNN
        ))
    );
    assert_eq!(
        MMCError::from_codes(0x4, 0x40, 0xFF),
        Some(MMCError::HardwareFailure(
            HardwareFailure::DiagnosticFailureOnComponentNN
        ))
    );
    // Below the range's lower bound nothing matches.
    assert_eq!(MMCError::from_codes(0x4, 0x40, 0x7F), None);
}

#[test]
fn wildcard_sense_key_enclosure_failure() {
    assert_eq!(
        MMCError::from_codes(0x0, 0x34, 0x00),
        Some(MMCError::NonATAPIEnvironmentError(
            NonATAPIEnvironmentError::EnclosureFailure
        ))
    );
    assert_eq!(
        MMCError::from_codes(0x9, 0x34, 0x00),
        Some(MMCError::NonATAPIEnvironmentError(
            NonATAPIEnvironmentError::EnclosureFailure
        ))
    );
}

#[test]
fn wildcard_ascq_tagged_overlapped() {
    assert_eq!(
        MMCError::from_codes(0xB, 0x4D, 0x77),
        Some(MMCError::NonATAPIEnvironmentError(
            NonATAPIEnvironmentError::TaggedOverlappedCommandsNN
        ))
    );
}

#[test]
fn writing_category_reached_after_reading() {
    // WRITE PROTECTED exists only under Writing.
    assert_eq!(
        MMCError::from_codes(0x7, 0x27, 0x00),
        Some(MMCError::WritingError(WritingError::WriteProtected))
    );
}

#[test]
fn code_matcher_kinds() {
    assert!(code_matches(&CodeMatcher::Exact(0x24), 0x24));
    assert!(!code_matches(&CodeMatcher::Exact(0x24), 0x25));
    assert!(code_matches(&CodeMatcher::OneOf(0x2, 0x5), 0x2));
    assert!(code_matches(&CodeMatcher::OneOf(0x2, 0x5), 0x5));
    assert!(!code_matches(&CodeMatcher::OneOf(0x2, 0x5), 0x3));
    assert!(code_matches(&CodeMatcher::Range(Some(0x80), Some(0xFF)), 0x80));
    assert!(!code_matches(&CodeMatcher::Range(Some(0x80), Some(0xFF)), 0x7F));
    assert!(code_matches(&CodeMatcher::Range(None, Some(0x10)), 0x00));
    assert!(!code_matches(&CodeMatcher::Range(None, Some(0x10)), 0x11));
    assert!(code_matches(&CodeMatcher::Range(Some(0x10), None), 0xFF));
    assert!(code_matches(&CodeMatcher::Wildcard, 0xAB));
}

#[test]
fn classify_returns_first_match_in_order() {
    let rules = vec![
        SenseRule {
            sense_key: CodeMatcher::Wildcard,
            asc: CodeMatcher::Exact(0x11),
            ascq: CodeMatcher::Wildcard,
            condition: 1u8,
        },
        SenseRule {
            sense_key: CodeMatcher::Exact(0x3),
            asc: CodeMatcher::Exact(0x11),
            ascq: CodeMatcher::Exact(0x0),
            condition: 2u8,
        },
    ];
    // Both rows match; the first declared wins.
    assert_eq!(classify(&rules, 0x3, 0x11, 0x0), Some(1));
    assert_eq!(classify(&rules, 0x3, 0x12, 0x0), None);
}

#[test]
fn category_tables_nonempty() {
    assert_eq!(UnitAttentionCondition::rules().len(), 37);
    assert_eq!(CDBOrParameterValidationError::rules().len(), 12);
    assert_eq!(ReadinessError::rules().len(), 22);
}
