//! Sense-code error classification: a declarative, ordered rule table mapping
//! (sense key, additional sense code, additional sense code qualifier)
//! triples onto the MMC-6 error taxonomy of nine categories. Each rule
//! component matches by exact value, a two-member alternation, an inclusive
//! range open on either end, or a wildcard; classification tries categories
//! in fixed declared order and rules within a category in declared order,
//! returning the first structural match. The same physical condition appears
//! under several categories with different sense-key patterns, exactly as the
//! underlying specification lists it.

use vstd::prelude::*;

verus! {

/// Pattern for one component of a sense triple.
#[derive(Clone, Copy, Debug, PartialEq, Eq)]
pub enum CodeMatcher {
    /// Matches one exact value.
    Exact(u8),
    /// Matches either of two values. Every alternation in the MMC-6 taxonomy
    /// names exactly two sense keys.
    OneOf(u8, u8),
    /// Matches an inclusive range; `None` leaves that end unbounded.
    Range(Option<u8>, Option<u8>),
    /// Matches any value.
    Wildcard,
}

/// What it means for a code matcher to accept a value.
pub open spec fn spec_code_matches(m: CodeMatcher, v: u8) -> bool {
    match m {
        CodeMatcher::Exact(x) => v == x,
        CodeMatcher::OneOf(x, y) => v == x || v == y,
        CodeMatcher::Range(lo, hi) => (match lo {
            Some(l) => l <= v,
            None => true,
        }) && (match hi {
            Some(h) => v <= h,
            None => true,
        }),
        CodeMatcher::Wildcard => true,
    }
}

/// Evaluates one code matcher against a value.
pub fn code_matches(m: &CodeMatcher, v: u8) -> (r: bool)
    ensures
        r == spec_code_matches(*m, v),
{
    match m {
        CodeMatcher::Exact(x) => v == *x,
        CodeMatcher::OneOf(x, y) => v == *x || v == *y,
        CodeMatcher::Range(lo, hi) => {
            let lo_ok = match lo {
                Some(l) => *l <= v,
                None => true,
            };
            let hi_ok = match hi {
                Some(h) => v <= *h,
                None => true,
            };
            lo_ok && hi_ok
        },
        CodeMatcher::Wildcard => true,
    }
}

/// One row of a classification table: three independent component patterns
/// and the named condition they select.
#[derive(Clone, Copy, Debug, PartialEq, Eq)]
pub struct SenseRule<C> {
    pub sense_key: CodeMatcher,
    pub asc: CodeMatcher,
    pub ascq: CodeMatcher,
    pub condition: C,
}

/// A rule matches when all three of its component patterns match.
pub open spec fn spec_rule_matches<C>(r: SenseRule<C>, sense_key: u8, asc: u8, ascq: u8) -> bool {
    spec_code_matches(r.sense_key, sense_key) && spec_code_matches(r.asc, asc)
        && spec_code_matches(r.ascq, ascq)
}

/// First-match classification over an ordered rule table: the earliest rule
/// whose three patterns all match decides; no match yields `None`.
pub open spec fn spec_classify<C>(rules: Seq<SenseRule<C>>, sense_key: u8, asc: u8, ascq: u8) -> Option<C>
    decreases rules.len(),
{
    if rules.len() == 0 {
        None
    } else if spec_rule_matches(rules[0], sense_key, asc, ascq) {
        Some(rules[0].condition)
    } else {
        spec_classify(rules.skip(1), sense_key, asc, ascq)
    }
}

/// Scans an ordered rule table and returns the condition of the first rule
/// that matches the sense triple.
pub fn classify<C: Copy>(rules: &Vec<SenseRule<C>>, sense_key: u8, asc: u8, ascq: u8) -> (r: Option<
    C,
>)
    ensures
        r == spec_classify(rules@, sense_key, asc, ascq),
{
    let mut i: usize = 0;
    proof {
        assert(rules@.skip(0) =~= rules@);
    }
    while i < rules.len()
        invariant
            i <= rules@.len(),
            spec_classify(rules@, sense_key, asc, ascq) == spec_classify(
                rules@.skip(i as int),
                sense_key,
                asc,
                ascq,
            ),
        decreases rules@.len() - i,
    {
        let rule = &rules[i];
        proof {
            assert(rules@.skip(i as int)[0] == rules@[i as int]);
        }
        if code_matches(&rule.sense_key, sense_key) && code_matches(&rule.asc, asc)
            && code_matches(&rule.ascq, ascq) {
            return Some(rule.condition);
        }
        proof {
            assert(rules@.skip(i as int).skip(1) =~= rules@.skip(i as int + 1));
        }
        i = i + 1;
    }
    proof {
        assert(rules@.skip(i as int) =~= Seq::<SenseRule<C>>::empty());
    }
    None
}

/// A device-reported error, classified into one of the nine MMC-6 categories.
#[derive(Clone, Copy, Debug, PartialEq, Eq)]
pub enum MMCError {
    UnitAttentionCondition(UnitAttentionCondition),
    CDBOrParameterValidationError(CDBOrParameterValidationError),
    ReadinessError(ReadinessError),
    ProtocolError(ProtocolError),
    GeneralMediaAccessError(GeneralMediaAccessError),
    ReadingError(ReadingError),
    WritingError(WritingError),
    HardwareFailure(HardwareFailure),
    NonATAPIEnvironmentError(NonATAPIEnvironmentError),
}

impl MMCError {
    /// Classification over the whole taxonomy: the nine categories are tried
    /// in fixed declared order and the first category that matches decides.
    pub open spec fn spec_from_codes(sense_key: u8, asc: u8, ascq: u8) -> Option<MMCError> {
        let ua = spec_classify(UnitAttentionCondition::spec_rules(), sense_key, asc, ascq);
        let cdb = spec_classify(CDBOrParameterValidationError::spec_rules(), sense_key, asc, ascq);
        let rd = spec_classify(ReadinessError::spec_rules(), sense_key, asc, ascq);
        let pr = spec_classify(ProtocolError::spec_rules(), sense_key, asc, ascq);
        let gm = spec_classify(GeneralMediaAccessError::spec_rules(), sense_key, asc, ascq);
        let re = spec_classify(ReadingError::spec_rules(), sense_key, asc, ascq);
        let wr = spec_classify(WritingError::spec_rules(), sense_key, asc, ascq);
        let hw = spec_classify(HardwareFailure::spec_rules(), sense_key, asc, ascq);
        let na = spec_classify(NonATAPIEnvironmentError::spec_rules(), sense_key, asc, ascq);
        if ua is Some {
            Some(MMCError::UnitAttentionCondition(ua->Some_0))
        } else if cdb is Some {
            Some(MMCError::CDBOrParameterValidationError(cdb->Some_0))
        } else if rd is Some {
            Some(MMCError::ReadinessError(rd->Some_0))
        } else if pr is Some {
            Some(MMCError::ProtocolError(pr->Some_0))
        } else if gm is Some {
            Some(MMCError::GeneralMediaAccessError(gm->Some_0))
        } else if re is Some {
            Some(MMCError::ReadingError(re->Some_0))
        } else if wr is Some {
            Some(MMCError::WritingError(wr->Some_0))
        } else if hw is Some {
            Some(MMCError::HardwareFailure(hw->Some_0))
        } else if na is Some {
            Some(MMCError::NonATAPIEnvironmentError(na->Some_0))
        } else {
            None
        }
    }

    /// Classifies a sense triple against the whole taxonomy. `None` means no
    /// rule anywhere matched; callers must treat that as a distinct outcome.
    pub fn from_codes(sense_key: u8, asc: u8, ascq: u8) -> (r: Option<MMCError>)
        ensures
            r == MMCError::spec_from_codes(sense_key, asc, ascq),
    {
        if let Some(c) = UnitAttentionCondition::from_codes(sense_key, asc, ascq) {
            return Some(MMCError::UnitAttentionCondition(c));
        }
        if let Some(c) = CDBOrParameterValidationError::from_codes(sense_key, asc, ascq) {
            return Some(MMCError::CDBOrParameterValidationError(c));
        }
        if let Some(c) = ReadinessError::from_codes(sense_key, asc, ascq) {
            return Some(MMCError::ReadinessError(c));
        }
        if let Some(c) = ProtocolError::from_codes(sense_key, asc, ascq) {
            return Some(MMCError::ProtocolError(c));
        }
        if let Some(c) = GeneralMediaAccessError::from_codes(sense_key, asc, ascq) {
            return Some(MMCError::GeneralMediaAccessError(c));
        }
        if let Some(c) = ReadingError::from_codes(sense_key, asc, ascq) {
            return Some(MMCError::ReadingError(c));
        }
        if let Some(c) = WritingError::from_codes(sense_key, asc, ascq) {
            return Some(MMCError::WritingError(c));
        }
        if let Some(c) = HardwareFailure::from_codes(sense_key, asc, ascq) {
            return Some(MMCError::HardwareFailure(c));
        }
        if let Some(c) = NonATAPIEnvironmentError::from_codes(sense_key, asc, ascq) {
            return Some(MMCError::NonATAPIEnvironmentError(c));
        }
        None
    }
}

// ==== UnitAttentionCondition: 37 rules ====
#[derive(Clone, Copy, Debug, PartialEq, Eq)]
pub enum UnitAttentionCondition {
    /// NOT READY TO READY CHANGE, MEDIUM MAY HAVE CHANGED
    NotReadyToReadyChangeMediumMayHaveChanged,
    /// IMPORT OR EXPORT ELEMENT ACCESSED
    ImportOrExportElementAccessed,
    /// FORMAT-LAYER MAY HAVE CHANGED
    FormatLayerMayHaveChanged,
    /// POWER ON, RESET, OR BUS DEVICE RESET OCCURRED
    PowerOnResetOrBusDeviceResetOccured,
    /// POWER ON OCCURRED
    PowerOnOccured,
    /// BUS RESET OCCURRED
    BusResetOccured,
    /// BUS DEVICE RESET FUNCTION OCCURRED
    BusDeviceResetFunctionOccured,
    /// DEVICE INTERNAL RESET
    DeviceInternalReset,
    /// PARAMETERS CHANGED
    ParametersChanged,
    /// MODE PARAMETERS CHANGED
    ModeParametersChanged,
    /// LOG PARAMETERS CHANGED
    LogParametersChanged,
    /// INSUFFICIENT TIME FOR OPERATION
    InsufficientTimeForOperation,
    /// MEDIUM DESTINATION ELEMENT FULL
    MediumDestinationElementFull,
    /// MEDIUM SOURCE ELEMENT EMPTY
    MediumSourceElementEmpty,
    /// END OF MEDIUM REACHED
    EndOfMediumReached,
    /// MEDIUM MAGAZINE NOT ACCESSIBLE
    MediumMagazineNotAccessible,
    /// MEDIUM MAGAZINE REMOVED
    MediumMagazineRemoved,
    /// MEDIUM MAGAZINE INSERTED
    MediumMagazineInserted,
    /// MEDIUM MAGAZINE LOCKED
    MediumMagazineLocked,
    /// MEDIUM MAGAZINE UNLOCKED
    MediumMagazineUnlocked,
    /// TARGET OPERATING CONDITIONS HAVE CHANGED
    TargetOperatingConditionsHaveChanged,
    /// MICROCODE HAS BEEN CHANGED
    MicrocodeHasBeenChanged,
    /// CHANGED OPERATING DEFINITION
    ChangedOperatingDefinition,
    /// INQUIRY DATA HAS CHANGED
    InquiryDataHasChanged,
    /// OPERATOR REQUEST OR STATE CHANGE INPUT
    OperatorRequestOrStateChangeInput,
    /// OPERATOR MEDIUM REMOVAL REQUEST
    OperatorMediumRemovalRequest,
    /// OPERATOR SELECTED WRITE PROTECT
    OperatorSelectedWriteProtect,
    /// OPERATOR SELECTED WRITE PERMIT
    OperatorSelectedWritePermit,
    /// LOG EXCEPTION
    LogException,
    /// THRESHOLD CONDITION MET
    ThresholdConditionMet,
    /// LOG COUNTER AT MAXIMUM
    LogCounterAtMaximum,
    /// LOG LIST CODES EXHAUSTED
    LogListCodesExhausted,
    /// LOW POWER CONDITION ON
    LowPowerConditionOn,
    /// IDLE CONDITION ACTIVATED BY TIMER
    IdleConditionActivatedByTimer,
    /// STANDBY CONDITION ACTIVATED BY TIMER
    StandbyConditionActivatedByTimer,
    /// IDLE CONDITION ACTIVATED BY COMMAND
    IdleConditionActivatedByCommand,
    /// STANDBY CONDITION ACTIVATED BY COMMAND
    StandbyConditionActivatedByCommand,
}

impl UnitAttentionCondition {
    /// The ordered rule table of this category, in declared order.
    pub open spec fn spec_rules() -> Seq<SenseRule<UnitAttentionCondition>> {
        seq![
            SenseRule { sense_key: CodeMatcher::Exact(0x6), asc: CodeMatcher::Exact(0x28), ascq: CodeMatcher::Exact(0x00), condition: UnitAttentionCondition::NotReadyToReadyChangeMediumMayHaveChanged },
            SenseRule { sense_key: CodeMatcher::Exact(0x6), asc: CodeMatcher::Exact(0x28), ascq: CodeMatcher::Exact(0x01), condition: UnitAttentionCondition::ImportOrExportElementAccessed },
            SenseRule { sense_key: CodeMatcher::Exact(0x6), asc: CodeMatcher::Exact(0x28), ascq: CodeMatcher::Exact(0x02), condition: UnitAttentionCondition::FormatLayerMayHaveChanged },
            SenseRule { sense_key: CodeMatcher::Exact(0x6), asc: CodeMatcher::Exact(0x29), ascq: CodeMatcher::Exact(0x00), condition: UnitAttentionCondition::PowerOnResetOrBusDeviceResetOccured },
            SenseRule { sense_key: CodeMatcher::Exact(0x6), asc: CodeMatcher::Exact(0x29), ascq: CodeMatcher::Exact(0x01), condition: UnitAttentionCondition::PowerOnOccured },
            SenseRule { sense_key: CodeMatcher::Exact(0x6), asc: CodeMatcher::Exact(0x29), ascq: CodeMatcher::Exact(0x02), condition: UnitAttentionCondition::BusResetOccured },
            SenseRule { sense_key: CodeMatcher::Exact(0x6), asc: CodeMatcher::Exact(0x29), ascq: CodeMatcher::Exact(0x03), condition: UnitAttentionCondition::BusDeviceResetFunctionOccured },
            SenseRule { sense_key: CodeMatcher::Exact(0x6), asc: CodeMatcher::Exact(0x29), ascq: CodeMatcher::Exact(0x04), condition: UnitAttentionCondition::DeviceInternalReset },
            SenseRule { sense_key: CodeMatcher::Exact(0x6), asc: CodeMatcher::Exact(0x2A), ascq: CodeMatcher::Exact(0x00), condition: UnitAttentionCondition::ParametersChanged },
            SenseRule { sense_key: CodeMatcher::Exact(0x6), asc: CodeMatcher::Exact(0x2A), ascq: CodeMatcher::Exact(0x01), condition: UnitAttentionCondition::ModeParametersChanged },
            SenseRule { sense_key: CodeMatcher::Exact(0x6), asc: CodeMatcher::Exact(0x2A), ascq: CodeMatcher::Exact(0x02), condition: UnitAttentionCondition::LogParametersChanged },
            SenseRule { sense_key: CodeMatcher::Exact(0x6), asc: CodeMatcher::Exact(0x2E), ascq: CodeMatcher::Exact(0x00), condition: UnitAttentionCondition::InsufficientTimeForOperation },
            SenseRule { sense_key: CodeMatcher::Exact(0x6), asc: CodeMatcher::Exact(0x3B), ascq: CodeMatcher::Exact(0x0D), condition: UnitAttentionCondition::MediumDestinationElementFull },
            SenseRule { sense_key: CodeMatcher::Exact(0x6), asc: CodeMatcher::Exact(0x3B), ascq: CodeMatcher::Exact(0x0E), condition: UnitAttentionCondition::MediumSourceElementEmpty },
            SenseRule { sense_key: CodeMatcher::Exact(0x6), asc: CodeMatcher::Exact(0x3B), ascq: CodeMatcher::Exact(0x0F), condition: UnitAttentionCondition::EndOfMediumReached },
            SenseRule { sense_key: CodeMatcher::Exact(0x6), asc: CodeMatcher::Exact(0x3B), ascq: CodeMatcher::Exact(0x11), condition: UnitAttentionCondition::MediumMagazineNotAccessible },
            SenseRule { sense_key: CodeMatcher::Exact(0x6), asc: CodeMatcher::Exact(0x3B), ascq: CodeMatcher::Exact(0x12), condition: UnitAttentionCondition::MediumMagazineRemoved },
            SenseRule { sense_key: CodeMatcher::Exact(0x6), asc: CodeMatcher::Exact(0x3B), ascq: CodeMatcher::Exact(0x13), condition: UnitAttentionCondition::MediumMagazineInserted },
            SenseRule { sense_key: CodeMatcher::Exact(0x6), asc: CodeMatcher::Exact(0x3B), ascq: CodeMatcher::Exact(0x14), condition: UnitAttentionCondition::MediumMagazineLocked },
            SenseRule { sense_key: CodeMatcher::Exact(0x6), asc: CodeMatcher::Exact(0x3B), ascq: CodeMatcher::Exact(0x15), condition: UnitAttentionCondition::MediumMagazineUnlocked },
            SenseRule { sense_key: CodeMatcher::Exact(0x6), asc: CodeMatcher::Exact(0x3F), ascq: CodeMatcher::Exact(0x00), condition: UnitAttentionCondition::TargetOperatingConditionsHaveChanged },
            SenseRule { sense_key: CodeMatcher::Exact(0x6), asc: CodeMatcher::Exact(0x3F), ascq: CodeMatcher::Exact(0x01), condition: UnitAttentionCondition::MicrocodeHasBeenChanged },
            SenseRule { sense_key: CodeMatcher::Exact(0x6), asc: CodeMatcher::Exact(0x3F), ascq: CodeMatcher::Exact(0x02), condition: UnitAttentionCondition::ChangedOperatingDefinition },
            SenseRule { sense_key: CodeMatcher::Exact(0x6), asc: CodeMatcher::Exact(0x3F), ascq: CodeMatcher::Exact(0x03), condition: UnitAttentionCondition::InquiryDataHasChanged },
            SenseRule { sense_key: CodeMatcher::Exact(0x6), asc: CodeMatcher::Exact(0x5A), ascq: CodeMatcher::Exact(0x00), condition: UnitAttentionCondition::OperatorRequestOrStateChangeInput },
            SenseRule { sense_key: CodeMatcher::Exact(0x6), asc: CodeMatcher::Exact(0x5A), ascq: CodeMatcher::Exact(0x01), condition: UnitAttentionCondition::OperatorMediumRemovalRequest },
            SenseRule { sense_key: CodeMatcher::Exact(0x6), asc: CodeMatcher::Exact(0x5A), ascq: CodeMatcher::Exact(0x02), condition: UnitAttentionCondition::OperatorSelectedWriteProtect },
            SenseRule { sense_key: CodeMatcher::Exact(0x6), asc: CodeMatcher::Exact(0x5A), ascq: CodeMatcher::Exact(0x03), condition: UnitAttentionCondition::OperatorSelectedWritePermit },
            SenseRule { sense_key: CodeMatcher::Exact(0x6), asc: CodeMatcher::Exact(0x5B), ascq: CodeMatcher::Exact(0x00), condition: UnitAttentionCondition::LogException },
            SenseRule { sense_key: CodeMatcher::Exact(0x6), asc: CodeMatcher::Exact(0x5B), ascq: CodeMatcher::Exact(0x01), condition: UnitAttentionCondition::ThresholdConditionMet },
            SenseRule { sense_key: CodeMatcher::Exact(0x6), asc: CodeMatcher::Exact(0x5B), ascq: CodeMatcher::Exact(0x02), condition: UnitAttentionCondition::LogCounterAtMaximum },
            SenseRule { sense_key: CodeMatcher::Exact(0x6), asc: CodeMatcher::Exact(0x5B), ascq: CodeMatcher::Exact(0x03), condition: UnitAttentionCondition::LogListCodesExhausted },
            SenseRule { sense_key: CodeMatcher::Exact(0x6), asc: CodeMatcher::Exact(0x5E), ascq: CodeMatcher::Exact(0x00), condition: UnitAttentionCondition::LowPowerConditionOn },
            SenseRule { sense_key: CodeMatcher::Exact(0x6), asc: CodeMatcher::Exact(0x5E), ascq: CodeMatcher::Exact(0x01), condition: UnitAttentionCondition::IdleConditionActivatedByTimer },
            SenseRule { sense_key: CodeMatcher::Exact(0x6), asc: CodeMatcher::Exact(0x5E), ascq: CodeMatcher::Exact(0x02), condition: UnitAttentionCondition::StandbyConditionActivatedByTimer },
            SenseRule { sense_key: CodeMatcher::Exact(0x6), asc: CodeMatcher::Exact(0x5E), ascq: CodeMatcher::Exact(0x03), condition: UnitAttentionCondition::IdleConditionActivatedByCommand },
            SenseRule { sense_key: CodeMatcher::Exact(0x6), asc: CodeMatcher::Exact(0x5E), ascq: CodeMatcher::Exact(0x04), condition: UnitAttentionCondition::StandbyConditionActivatedByCommand },
        ]
    }

    /// Builds the rule table of this category.
    #[verifier::rlimit(100)]
    pub fn rules() -> (r: Vec<SenseRule<UnitAttentionCondition>>)
        ensures
            r@ == Self::spec_rules(),
    {
        let mut v: Vec<SenseRule<UnitAttentionCondition>> = Vec::new();
        v.push(SenseRule { sense_key: CodeMatcher::Exact(0x6), asc: CodeMatcher::Exact(0x28), ascq: CodeMatcher::Exact(0x00), condition: UnitAttentionCondition::NotReadyToReadyChangeMediumMayHaveChanged });
        v.push(SenseRule { sense_key: CodeMatcher::Exact(0x6), asc: CodeMatcher::Exact(0x28), ascq: CodeMatcher::Exact(0x01), condition: UnitAttentionCondition::ImportOrExportElementAccessed });
        v.push(SenseRule { sense_key: CodeMatcher::Exact(0x6), asc: CodeMatcher::Exact(0x28), ascq: CodeMatcher::Exact(0x02), condition: UnitAttentionCondition::FormatLayerMayHaveChanged });
        v.push(SenseRule { sense_key: CodeMatcher::Exact(0x6), asc: CodeMatcher::Exact(0x29), ascq: CodeMatcher::Exact(0x00), condition: UnitAttentionCondition::PowerOnResetOrBusDeviceResetOccured });
        v.push(SenseRule { sense_key: CodeMatcher::Exact(0x6), asc: CodeMatcher::Exact(0x29), ascq: CodeMatcher::Exact(0x01), condition: UnitAttentionCondition::PowerOnOccured });
        v.push(SenseRule { sense_key: CodeMatcher::Exact(0x6), asc: CodeMatcher::Exact(0x29), ascq: CodeMatcher::Exact(0x02), condition: UnitAttentionCondition::BusResetOccured });
        v.push(SenseRule { sense_key: CodeMatcher::Exact(0x6), asc: CodeMatcher::Exact(0x29), ascq: CodeMatcher::Exact(0x03), condition: UnitAttentionCondition::BusDeviceResetFunctionOccured });
        v.push(SenseRule { sense_key: CodeMatcher::Exact(0x6), asc: CodeMatcher::Exact(0x29), ascq: CodeMatcher::Exact(0x04), condition: UnitAttentionCondition::DeviceInternalReset });
        v.push(SenseRule { sense_key: CodeMatcher::Exact(0x6), asc: CodeMatcher::Exact(0x2A), ascq: CodeMatcher::Exact(0x00), condition: UnitAttentionCondition::ParametersChanged });
        v.push(SenseRule { sense_key: CodeMatcher::Exact(0x6), asc: CodeMatcher::Exact(0x2A), ascq: CodeMatcher::Exact(0x01), condition: UnitAttentionCondition::ModeParametersChanged });
        v.push(SenseRule { sense_key: CodeMatcher::Exact(0x6), asc: CodeMatcher::Exact(0x2A), ascq: CodeMatcher::Exact(0x02), condition: UnitAttentionCondition::LogParametersChanged });
        v.push(SenseRule { sense_key: CodeMatcher::Exact(0x6), asc: CodeMatcher::Exact(0x2E), ascq: CodeMatcher::Exact(0x00), condition: UnitAttentionCondition::InsufficientTimeForOperation });
        v.push(SenseRule { sense_key: CodeMatcher::Exact(0x6), asc: CodeMatcher::Exact(0x3B), ascq: CodeMatcher::Exact(0x0D), condition: UnitAttentionCondition::MediumDestinationElementFull });
        v.push(SenseRule { sense_key: CodeMatcher::Exact(0x6), asc: CodeMatcher::Exact(0x3B), ascq: CodeMatcher::Exact(0x0E), condition: UnitAttentionCondition::MediumSourceElementEmpty });
        v.push(SenseRule { sense_key: CodeMatcher::Exact(0x6), asc: CodeMatcher::Exact(0x3B), ascq: CodeMatcher::Exact(0x0F), condition: UnitAttentionCondition::EndOfMediumReached });
        v.push(SenseRule { sense_key: CodeMatcher::Exact(0x6), asc: CodeMatcher::Exact(0x3B), ascq: CodeMatcher::Exact(0x11), condition: UnitAttentionCondition::MediumMagazineNotAccessible });
        v.push(SenseRule { sense_key: CodeMatcher::Exact(0x6), asc: CodeMatcher::Exact(0x3B), ascq: CodeMatcher::Exact(0x12), condition: UnitAttentionCondition::MediumMagazineRemoved });
        v.push(SenseRule { sense_key: CodeMatcher::Exact(0x6), asc: CodeMatcher::Exact(0x3B), ascq: CodeMatcher::Exact(0x13), condition: UnitAttentionCondition::MediumMagazineInserted });
        v.push(SenseRule { sense_key: CodeMatcher::Exact(0x6), asc: CodeMatcher::Exact(0x3B), ascq: CodeMatcher::Exact(0x14), condition: UnitAttentionCondition::MediumMagazineLocked });
        v.push(SenseRule { sense_key: CodeMatcher::Exact(0x6), asc: CodeMatcher::Exact(0x3B), ascq: CodeMatcher::Exact(0x15), condition: UnitAttentionCondition::MediumMagazineUnlocked });
        v.push(SenseRule { sense_key: CodeMatcher::Exact(0x6), asc: CodeMatcher::Exact(0x3F), ascq: CodeMatcher::Exact(0x00), condition: UnitAttentionCondition::TargetOperatingConditionsHaveChanged });
        v.push(SenseRule { sense_key: CodeMatcher::Exact(0x6), asc: CodeMatcher::Exact(0x3F), ascq: CodeMatcher::Exact(0x01), condition: UnitAttentionCondition::MicrocodeHasBeenChanged });
        v.push(SenseRule { sense_key: CodeMatcher::Exact(0x6), asc: CodeMatcher::Exact(0x3F), ascq: CodeMatcher::Exact(0x02), condition: UnitAttentionCondition::ChangedOperatingDefinition });
        v.push(SenseRule { sense_key: CodeMatcher::Exact(0x6), asc: CodeMatcher::Exact(0x3F), ascq: CodeMatcher::Exact(0x03), condition: UnitAttentionCondition::InquiryDataHasChanged });
        v.push(SenseRule { sense_key: CodeMatcher::Exact(0x6), asc: CodeMatcher::Exact(0x5A), ascq: CodeMatcher::Exact(0x00), condition: UnitAttentionCondition::OperatorRequestOrStateChangeInput });
        v.push(SenseRule { sense_key: CodeMatcher::Exact(0x6), asc: CodeMatcher::Exact(0x5A), ascq: CodeMatcher::Exact(0x01), condition: UnitAttentionCondition::OperatorMediumRemovalRequest });
        v.push(SenseRule { sense_key: CodeMatcher::Exact(0x6), asc: CodeMatcher::Exact(0x5A), ascq: CodeMatcher::Exact(0x02), condition: UnitAttentionCondition::OperatorSelectedWriteProtect });
        v.push(SenseRule { sense_key: CodeMatcher::Exact(0x6), asc: CodeMatcher::Exact(0x5A), ascq: CodeMatcher::Exact(0x03), condition: UnitAttentionCondition::OperatorSelectedWritePermit });
        v.push(SenseRule { sense_key: CodeMatcher::Exact(0x6), asc: CodeMatcher::Exact(0x5B), ascq: CodeMatcher::Exact(0x00), condition: UnitAttentionCondition::LogException });
        v.push(SenseRule { sense_key: CodeMatcher::Exact(0x6), asc: CodeMatcher::Exact(0x5B), ascq: CodeMatcher::Exact(0x01), condition: UnitAttentionCondition::ThresholdConditionMet });
        v.push(SenseRule { sense_key: CodeMatcher::Exact(0x6), asc: CodeMatcher::Exact(0x5B), ascq: CodeMatcher::Exact(0x02), condition: UnitAttentionCondition::LogCounterAtMaximum });
        v.push(SenseRule { sense_key: CodeMatcher::Exact(0x6), asc: CodeMatcher::Exact(0x5B), ascq: CodeMatcher::Exact(0x03), condition: UnitAttentionCondition::LogListCodesExhausted });
        v.push(SenseRule { sense_key: CodeMatcher::Exact(0x6), asc: CodeMatcher::Exact(0x5E), ascq: CodeMatcher::Exact(0x00), condition: UnitAttentionCondition::LowPowerConditionOn });
        v.push(SenseRule { sense_key: CodeMatcher::Exact(0x6), asc: CodeMatcher::Exact(0x5E), ascq: CodeMatcher::Exact(0x01), condition: UnitAttentionCondition::IdleConditionActivatedByTimer });
        v.push(SenseRule { sense_key: CodeMatcher::Exact(0x6), asc: CodeMatcher::Exact(0x5E), ascq: CodeMatcher::Exact(0x02), condition: UnitAttentionCondition::StandbyConditionActivatedByTimer });
        v.push(SenseRule { sense_key: CodeMatcher::Exact(0x6), asc: CodeMatcher::Exact(0x5E), ascq: CodeMatcher::Exact(0x03), condition: UnitAttentionCondition::IdleConditionActivatedByCommand });
        v.push(SenseRule { sense_key: CodeMatcher::Exact(0x6), asc: CodeMatcher::Exact(0x5E), ascq: CodeMatcher::Exact(0x04), condition: UnitAttentionCondition::StandbyConditionActivatedByCommand });
        proof {
            assert(v@ =~= Self::spec_rules());
        }
        v
    }

    /// Classifies a sense triple against this category: the first rule
    /// whose three patterns all match, in declared order, decides.
    pub fn from_codes(sense_key: u8, asc: u8, ascq: u8) -> (r: Option<Self>)
        ensures
            r == spec_classify(Self::spec_rules(), sense_key, asc, ascq),
    {
        let rules = Self::rules();
        classify(&rules, sense_key, asc, ascq)
    }
}

// ==== CDBOrParameterValidationError: 12 rules ====
#[derive(Clone, Copy, Debug, PartialEq, Eq)]
pub enum CDBOrParameterValidationError {
    /// PARAMETER LIST LENGTH ERROR
    ParameterListLengthError,
    /// INVALID COMMAND OPERATION CODE
    InvalidCommandOperationCode,
    /// LOGICAL BLOCK ADDRESS OUT OF RANGE
    LogicalBlockAddressOutOfRange,
    /// INVALID ELEMENT ADDRESS
    InvalidElementAddress,
    /// INVALID ADDRESS FOR WRITE
    InvalidAddressForWrite,
    /// INVALID WRITE CROSSING LAYER JUMP
    InvalidWriteCrossingLayerJump,
    /// INVALID FUNCTION
    InvalidFunction,
    /// INVALID FIELD IN CDB
    InvalidFieldInCdb,
    /// INVALID FIELD IN PARAMETER LIST
    InvalidFieldInParameterList,
    /// PARAMETER NOT SUPPORTED
    ParameterNotSupported,
    /// PARAMETER VALUE INVALID
    ParameterValueInvalid,
    /// THRESHOLD PARAMETERS NOT SUPPORTED
    ThresholdParametersNotSupporter,
}

impl CDBOrParameterValidationError {
    /// The ordered rule table of this category, in declared order.
    pub open spec fn spec_rules() -> Seq<SenseRule<CDBOrParameterValidationError>> {
        seq![
            SenseRule { sense_key: CodeMatcher::Exact(0x5), asc: CodeMatcher::Exact(0x1A), ascq: CodeMatcher::Exact(0x00), condition: CDBOrParameterValidationError::ParameterListLengthError },
            SenseRule { sense_key: CodeMatcher::Exact(0x5), asc: CodeMatcher::Exact(0x20), ascq: CodeMatcher::Exact(0x00), condition: CDBOrParameterValidationError::InvalidCommandOperationCode },
            SenseRule { sense_key: CodeMatcher::Exact(0x5), asc: CodeMatcher::Exact(0x21), ascq: CodeMatcher::Exact(0x00), condition: CDBOrParameterValidationError::LogicalBlockAddressOutOfRange },
            SenseRule { sense_key: CodeMatcher::Exact(0x5), asc: CodeMatcher::Exact(0x21), ascq: CodeMatcher::Exact(0x01), condition: CDBOrParameterValidationError::InvalidElementAddress },
            SenseRule { sense_key: CodeMatcher::Exact(0x5), asc: CodeMatcher::Exact(0x21), ascq: CodeMatcher::Exact(0x02), condition: CDBOrParameterValidationError::InvalidAddressForWrite },
            SenseRule { sense_key: CodeMatcher::Exact(0x5), asc: CodeMatcher::Exact(0x21), ascq: CodeMatcher::Exact(0x03), condition: CDBOrParameterValidationError::InvalidWriteCrossingLayerJump },
            SenseRule { sense_key: CodeMatcher::Exact(0x5), asc: CodeMatcher::Exact(0x22), ascq: CodeMatcher::Exact(0x00), condition: CDBOrParameterValidationError::InvalidFunction },
            SenseRule { sense_key: CodeMatcher::Exact(0x5), asc: CodeMatcher::Exact(0x24), ascq: CodeMatcher::Exact(0x00), condition: CDBOrParameterValidationError::InvalidFieldInCdb },
            SenseRule { sense_key: CodeMatcher::Exact(0x5), asc: CodeMatcher::Exact(0x26), ascq: CodeMatcher::Exact(0x00), condition: CDBOrParameterValidationError::InvalidFieldInParameterList },
            SenseRule { sense_key: CodeMatcher::Exact(0x5), asc: CodeMatcher::Exact(0x26), ascq: CodeMatcher::Exact(0x01), condition: CDBOrParameterValidationError::ParameterNotSupported },
            SenseRule { sense_key: CodeMatcher::Exact(0x5), asc: CodeMatcher::Exact(0x26), ascq: CodeMatcher::Exact(0x02), condition: CDBOrParameterValidationError::ParameterValueInvalid },
            SenseRule { sense_key: CodeMatcher::Exact(0x5), asc: CodeMatcher::Exact(0x26), ascq: CodeMatcher::Exact(0x03), condition: CDBOrParameterValidationError::ThresholdParametersNotSupporter },
        ]
    }

    /// Builds the rule table of this category.
    #[verifier::rlimit(100)]
    pub fn rules() -> (r: Vec<SenseRule<CDBOrParameterValidationError>>)
        ensures
            r@ == Self::spec_rules(),
    {
        let mut v: Vec<SenseRule<CDBOrParameterValidationError>> = Vec::new();
        v.push(SenseRule { sense_key: CodeMatcher::Exact(0x5), asc: CodeMatcher::Exact(0x1A), ascq: CodeMatcher::Exact(0x00), condition: CDBOrParameterValidationError::ParameterListLengthError });
        v.push(SenseRule { sense_key: CodeMatcher::Exact(0x5), asc: CodeMatcher::Exact(0x20), ascq: CodeMatcher::Exact(0x00), condition: CDBOrParameterValidationError::InvalidCommandOperationCode });
        v.push(SenseRule { sense_key: CodeMatcher::Exact(0x5), asc: CodeMatcher::Exact(0x21), ascq: CodeMatcher::Exact(0x00), condition: CDBOrParameterValidationError::LogicalBlockAddressOutOfRange });
        v.push(SenseRule { sense_key: CodeMatcher::Exact(0x5), asc: CodeMatcher::Exact(0x21), ascq: CodeMatcher::Exact(0x01), condition: CDBOrParameterValidationError::InvalidElementAddress });
        v.push(SenseRule { sense_key: CodeMatcher::Exact(0x5), asc: CodeMatcher::Exact(0x21), ascq: CodeMatcher::Exact(0x02), condition: CDBOrParameterValidationError::InvalidAddressForWrite });
        v.push(SenseRule { sense_key: CodeMatcher::Exact(0x5), asc: CodeMatcher::Exact(0x21), ascq: CodeMatcher::Exact(0x03), condition: CDBOrParameterValidationError::InvalidWriteCrossingLayerJump });
        v.push(SenseRule { sense_key: CodeMatcher::Exact(0x5), asc: CodeMatcher::Exact(0x22), ascq: CodeMatcher::Exact(0x00), condition: CDBOrParameterValidationError::InvalidFunction });
        v.push(SenseRule { sense_key: CodeMatcher::Exact(0x5), asc: CodeMatcher::Exact(0x24), ascq: CodeMatcher::Exact(0x00), condition: CDBOrParameterValidationError::InvalidFieldInCdb });
        v.push(SenseRule { sense_key: CodeMatcher::Exact(0x5), asc: CodeMatcher::Exact(0x26), ascq: CodeMatcher::Exact(0x00), condition: CDBOrParameterValidationError::InvalidFieldInParameterList });
        v.push(SenseRule { sense_key: CodeMatcher::Exact(0x5), asc: CodeMatcher::Exact(0x26), ascq: CodeMatcher::Exact(0x01), condition: CDBOrParameterValidationError::ParameterNotSupported });
        v.push(SenseRule { sense_key: CodeMatcher::Exact(0x5), asc: CodeMatcher::Exact(0x26), ascq: CodeMatcher::Exact(0x02), condition: CDBOrParameterValidationError::ParameterValueInvalid });
        v.push(SenseRule { sense_key: CodeMatcher::Exact(0x5), asc: CodeMatcher::Exact(0x26), ascq: CodeMatcher::Exact(0x03), condition: CDBOrParameterValidationError::ThresholdParametersNotSupporter });
        proof {
            assert(v@ =~= Self::spec_rules());
        }
        v
    }

    /// Classifies a sense triple against this category: the first rule
    /// whose three patterns all match, in declared order, decides.
    pub fn from_codes(sense_key: u8, asc: u8, ascq: u8) -> (r: Option<Self>)
        ensures
            r == spec_classify(Self::spec_rules(), sense_key, asc, ascq),
    {
        let rules = Self::rules();
        classify(&rules, sense_key, asc, ascq)
    }
}

// ==== ReadinessError: 22 rules ====
#[derive(Clone, Copy, Debug, PartialEq, Eq)]
pub enum ReadinessError {
    /// LOGICAL UNIT NOT READY, CAUSE NOT REPORTABLE
    LogicalUnitNotReadyCauseNotReportable,
    /// LOGICAL UNIT IS IN PROCESS OF BECOMING READY
    LogicalUnitIsInProcessOfBecomingReady,
    /// LOGICAL UNIT NOT READY, INITIALIZING CMD. REQUIRED
    LogicalUnitNotReadyInitializingCmdRequired,
    /// LOGICAL UNIT NOT READY, MANUAL INTERVENTION REQUIRED
    LogicalUnitNotReadyManualInterventionRequired,
    /// LOGICAL UNIT NOT READY, FORMAT IN PROGRESS
    LogicalUnitNotReadyFormatInProgress,
    /// LOGICAL UNIT NOT READY, OPERATION IN PROGRESS
    LogicalUnitNotReadyOperationInProgress,
    /// LOGICAL UNIT NOT READY, LONG WRITE IN PROGRESS
    LogicalUnitNotReadyLongWriteInProgress,
    /// WRITE ERROR RECOVERY NEEDED
    WriteErrorRecoveryNeeded,
    /// DEFECTS IN ERROR WINDOW
    DefectsInErrorWindow,
    /// INCOMPATIBLE MEDIUM INSTALLED
    IncompatibleMediumInstalled,
    /// CANNOT READ MEDIUM – UNKNOWN FORMAT
    CannotReadMediumUnknownFormat,
    /// CANNOT READ MEDIUM – INCOMPATIBLE FORMAT
    CannotReadMediumIncompatibleFormat,
    /// CLEANING CARTRIDGE INSTALLED
    CleaningCartridgeInstalled,
    /// CANNOT WRITE MEDIUM – UNKNOWN FORMAT
    CannotWriteMediumUnknownFormat,
    /// CANNOT WRITE MEDIUM – INCOMPATIBLE FORMAT
    CannotWriteMediumIncompatibleFormat,
    /// CANNOT FORMAT MEDIUM – INCOMPATIBLE MEDIUM
    CannotFormatMediumIncompatibleMedium,
    /// CLEANING FAILURE
    CleaningFailure,
    /// CANNOT WRITE MEDIUM – UNSUPPORTED MEDIUM VERSION
    CannotWriteMediumUnsupportedMediumVersion,
    /// MEDIUM NOT PRESENT
    MediumNotPresent,
    /// MEDIUM NOT PRESENT – TRAY CLOSED
    MediumNotPresentTrayClosed,
    /// MEDIUM NOT PRESENT – TRAY OPEN
    MediumNotPresentTrayOpen,
    /// LOGICAL UNIT HAS NOT SELF-CONFIGURED YET
    LogicalUnitHasNotSelfConfiguredYet,
}

impl ReadinessError {
    /// The ordered rule table of this category, in declared order.
    pub open spec fn spec_rules() -> Seq<SenseRule<ReadinessError>> {
        seq![
            SenseRule { sense_key: CodeMatcher::Exact(0x2), asc: CodeMatcher::Exact(0x04), ascq: CodeMatcher::Exact(0x00), condition: ReadinessError::LogicalUnitNotReadyCauseNotReportable },
            SenseRule { sense_key: CodeMatcher::Exact(0x2), asc: CodeMatcher::Exact(0x04), ascq: CodeMatcher::Exact(0x01), condition: ReadinessError::LogicalUnitIsInProcessOfBecomingReady },
            SenseRule { sense_key: CodeMatcher::Exact(0x2), asc: CodeMatcher::Exact(0x04), ascq: CodeMatcher::Exact(0x02), condition: ReadinessError::LogicalUnitNotReadyInitializingCmdRequired },
            SenseRule { sense_key: CodeMatcher::Exact(0x2), asc: CodeMatcher::Exact(0x04), ascq: CodeMatcher::Exact(0x03), condition: ReadinessError::LogicalUnitNotReadyManualInterventionRequired },
            SenseRule { sense_key: CodeMatcher::Exact(0x2), asc: CodeMatcher::Exact(0x04), ascq: CodeMatcher::Exact(0x04), condition: ReadinessError::LogicalUnitNotReadyFormatInProgress },
            SenseRule { sense_key: CodeMatcher::Exact(0x2), asc: CodeMatcher::Exact(0x04), ascq: CodeMatcher::Exact(0x07), condition: ReadinessError::LogicalUnitNotReadyOperationInProgress },
            SenseRule { sense_key: CodeMatcher::Exact(0x2), asc: CodeMatcher::Exact(0x04), ascq: CodeMatcher::Exact(0x08), condition: ReadinessError::LogicalUnitNotReadyLongWriteInProgress },
            SenseRule { sense_key: CodeMatcher::Exact(0x2), asc: CodeMatcher::Exact(0x0C), ascq: CodeMatcher::Exact(0x07), condition: ReadinessError::WriteErrorRecoveryNeeded },
            SenseRule { sense_key: CodeMatcher::Exact(0x2), asc: CodeMatcher::Exact(0x0C), ascq: CodeMatcher::Exact(0x0F), condition: ReadinessError::DefectsInErrorWindow },
            SenseRule { sense_key: CodeMatcher::Exact(0x2), asc: CodeMatcher::Exact(0x30), ascq: CodeMatcher::Exact(0x00), condition: ReadinessError::IncompatibleMediumInstalled },
            SenseRule { sense_key: CodeMatcher::Exact(0x2), asc: CodeMatcher::Exact(0x30), ascq: CodeMatcher::Exact(0x01), condition: ReadinessError::CannotReadMediumUnknownFormat },
            SenseRule { sense_key: CodeMatcher::OneOf(0x2, 0x5), asc: CodeMatcher::Exact(0x30), ascq: CodeMatcher::Exact(0x02), condition: ReadinessError::CannotReadMediumIncompatibleFormat },
            SenseRule { sense_key: CodeMatcher::Exact(0x2), asc: CodeMatcher::Exact(0x30), ascq: CodeMatcher::Exact(0x03), condition: ReadinessError::CleaningCartridgeInstalled },
            SenseRule { sense_key: CodeMatcher::OneOf(0x2, 0x5), asc: CodeMatcher::Exact(0x30), ascq: CodeMatcher::Exact(0x04), condition: ReadinessError::CannotWriteMediumUnknownFormat },
            SenseRule { sense_key: CodeMatcher::OneOf(0x2, 0x5), asc: CodeMatcher::Exact(0x30), ascq: CodeMatcher::Exact(0x05), condition: ReadinessError::CannotWriteMediumIncompatibleFormat },
            SenseRule { sense_key: CodeMatcher::OneOf(0x2, 0x5), asc: CodeMatcher::Exact(0x30), ascq: CodeMatcher::Exact(0x06), condition: ReadinessError::CannotFormatMediumIncompatibleMedium },
            SenseRule { sense_key: CodeMatcher::Exact(0x2), asc: CodeMatcher::Exact(0x30), ascq: CodeMatcher::Exact(0x07), condition: ReadinessError::CleaningFailure },
            SenseRule { sense_key: CodeMatcher::OneOf(0x2, 0x5), asc: CodeMatcher::Exact(0x30), ascq: CodeMatcher::Exact(0x11), condition: ReadinessError::CannotWriteMediumUnsupportedMediumVersion },
            SenseRule { sense_key: CodeMatcher::Exact(0x2), asc: CodeMatcher::Exact(0x3A), ascq: CodeMatcher::Exact(0x00), condition: ReadinessError::MediumNotPresent },
            SenseRule { sense_key: CodeMatcher::Exact(0x2), asc: CodeMatcher::Exact(0x3A), ascq: CodeMatcher::Exact(0x01), condition: ReadinessError::MediumNotPresentTrayClosed },
            SenseRule { sense_key: CodeMatcher::Exact(0x2), asc: CodeMatcher::Exact(0x3A), ascq: CodeMatcher::Exact(0x02), condition: ReadinessError::MediumNotPresentTrayOpen },
            SenseRule { sense_key: CodeMatcher::Exact(0x2), asc: CodeMatcher::Exact(0x3E), ascq: CodeMatcher::Exact(0x00), condition: ReadinessError::LogicalUnitHasNotSelfConfiguredYet },
        ]
    }

    /// Builds the rule table of this category.
    #[verifier::rlimit(100)]
    pub fn rules() -> (r: Vec<SenseRule<ReadinessError>>)
        ensures
            r@ == Self::spec_rules(),
    {
        let mut v: Vec<SenseRule<ReadinessError>> = Vec::new();
        v.push(SenseRule { sense_key: CodeMatcher::Exact(0x2), asc: CodeMatcher::Exact(0x04), ascq: CodeMatcher::Exact(0x00), condition: ReadinessError::LogicalUnitNotReadyCauseNotReportable });
        v.push(SenseRule { sense_key: CodeMatcher::Exact(0x2), asc: CodeMatcher::Exact(0x04), ascq: CodeMatcher::Exact(0x01), condition: ReadinessError::LogicalUnitIsInProcessOfBecomingReady });
        v.push(SenseRule { sense_key: CodeMatcher::Exact(0x2), asc: CodeMatcher::Exact(0x04), ascq: CodeMatcher::Exact(0x02), condition: ReadinessError::LogicalUnitNotReadyInitializingCmdRequired });
        v.push(SenseRule { sense_key: CodeMatcher::Exact(0x2), asc: CodeMatcher::Exact(0x04), ascq: CodeMatcher::Exact(0x03), condition: ReadinessError::LogicalUnitNotReadyManualInterventionRequired });
        v.push(SenseRule { sense_key: CodeMatcher::Exact(0x2), asc: CodeMatcher::Exact(0x04), ascq: CodeMatcher::Exact(0x04), condition: ReadinessError::LogicalUnitNotReadyFormatInProgress });
        v.push(SenseRule { sense_key: CodeMatcher::Exact(0x2), asc: CodeMatcher::Exact(0x04), ascq: CodeMatcher::Exact(0x07), condition: ReadinessError::LogicalUnitNotReadyOperationInProgress });
        v.push(SenseRule { sense_key: CodeMatcher::Exact(0x2), asc: CodeMatcher::Exact(0x04), ascq: CodeMatcher::Exact(0x08), condition: ReadinessError::LogicalUnitNotReadyLongWriteInProgress });
        v.push(SenseRule { sense_key: CodeMatcher::Exact(0x2), asc: CodeMatcher::Exact(0x0C), ascq: CodeMatcher::Exact(0x07), condition: ReadinessError::WriteErrorRecoveryNeeded });
        v.push(SenseRule { sense_key: CodeMatcher::Exact(0x2), asc: CodeMatcher::Exact(0x0C), ascq: CodeMatcher::Exact(0x0F), condition: ReadinessError::DefectsInErrorWindow });
        v.push(SenseRule { sense_key: CodeMatcher::Exact(0x2), asc: CodeMatcher::Exact(0x30), ascq: CodeMatcher::Exact(0x00), condition: ReadinessError::IncompatibleMediumInstalled });
        v.push(SenseRule { sense_key: CodeMatcher::Exact(0x2), asc: CodeMatcher::Exact(0x30), ascq: CodeMatcher::Exact(0x01), condition: ReadinessError::CannotReadMediumUnknownFormat });
        v.push(SenseRule { sense_key: CodeMatcher::OneOf(0x2, 0x5), asc: CodeMatcher::Exact(0x30), ascq: CodeMatcher::Exact(0x02), condition: ReadinessError::CannotReadMediumIncompatibleFormat });
        v.push(SenseRule { sense_key: CodeMatcher::Exact(0x2), asc: CodeMatcher::Exact(0x30), ascq: CodeMatcher::Exact(0x03), condition: ReadinessError::CleaningCartridgeInstalled });
        v.push(SenseRule { sense_key: CodeMatcher::OneOf(0x2, 0x5), asc: CodeMatcher::Exact(0x30), ascq: CodeMatcher::Exact(0x04), condition: ReadinessError::CannotWriteMediumUnknownFormat });
        v.push(SenseRule { sense_key: CodeMatcher::OneOf(0x2, 0x5), asc: CodeMatcher::Exact(0x30), ascq: CodeMatcher::Exact(0x05), condition: ReadinessError::CannotWriteMediumIncompatibleFormat });
        v.push(SenseRule { sense_key: CodeMatcher::OneOf(0x2, 0x5), asc: CodeMatcher::Exact(0x30), ascq: CodeMatcher::Exact(0x06), condition: ReadinessError::CannotFormatMediumIncompatibleMedium });
        v.push(SenseRule { sense_key: CodeMatcher::Exact(0x2), asc: CodeMatcher::Exact(0x30), ascq: CodeMatcher::Exact(0x07), condition: ReadinessError::CleaningFailure });
        v.push(SenseRule { sense_key: CodeMatcher::OneOf(0x2, 0x5), asc: CodeMatcher::Exact(0x30), ascq: CodeMatcher::Exact(0x11), condition: ReadinessError::CannotWriteMediumUnsupportedMediumVersion });
        v.push(SenseRule { sense_key: CodeMatcher::Exact(0x2), asc: CodeMatcher::Exact(0x3A), ascq: CodeMatcher::Exact(0x00), condition: ReadinessError::MediumNotPresent });
        v.push(SenseRule { sense_key: CodeMatcher::Exact(0x2), asc: CodeMatcher::Exact(0x3A), ascq: CodeMatcher::Exact(0x01), condition: ReadinessError::MediumNotPresentTrayClosed });
        v.push(SenseRule { sense_key: CodeMatcher::Exact(0x2), asc: CodeMatcher::Exact(0x3A), ascq: CodeMatcher::Exact(0x02), condition: ReadinessError::MediumNotPresentTrayOpen });
        v.push(SenseRule { sense_key: CodeMatcher::Exact(0x2), asc: CodeMatcher::Exact(0x3E), ascq: CodeMatcher::Exact(0x00), condition: ReadinessError::LogicalUnitHasNotSelfConfiguredYet });
        proof {
            assert(v@ =~= Self::spec_rules());
        }
        v
    }

    /// Classifies a sense triple against this category: the first rule
    /// whose three patterns all match, in declared order, decides.
    pub fn from_codes(sense_key: u8, asc: u8, ascq: u8) -> (r: Option<Self>)
        ensures
            r == spec_classify(Self::spec_rules(), sense_key, asc, ascq),
    {
        let rules = Self::rules();
        classify(&rules, sense_key, asc, ascq)
    }
}

// ==== ProtocolError: 22 rules ====
#[derive(Clone, Copy, Debug, PartialEq, Eq)]
pub enum ProtocolError {
    /// COMMAND SEQUENCE ERROR
    CommandSequenceError,
    /// CURRENT PROGRAM AREA IS NOT EMPTY
    CurrentProgramAreaIsNotEmpty,
    /// CURRENT PROGRAM AREA IS EMPTY
    CurrentProgramAreaIsEmpty,
    /// CANNOT WRITE — APPLICATION CODE MISMATCH
    CannotWriteApplicationCodeMismatch,
    /// CURRENT SESSION NOT FIXATED FOR APPEND
    CurrentSessionNotFixatedForAppend,
    /// MEDIUM NOT FORMATTED
    MediumNotFormatted,
    /// SAVING PARAMETERS NOT SUPPORTED
    SavingParametersNotSupported,
    /// INVALID BITS IN IDENTIFY MESSAGE
    InvalidBitsInIdentifyMessage,
    /// MESSAGE ERROR
    MessageError,
    /// MEDIUM REMOVAL PREVENTED
    MediumRemovalPrevented,
    /// ILLEGAL MODE FOR THIS TRACK
    IllegalModeForThisTrack,
    /// INVALID PACKET SIZE
    InvalidPacketSize,
    /// COPY PROTECTION KEY EXCHANGE FAILURE – AUTHENTICATION FAILURE
    CopyProtectionKeyExchangeFailureAuthenticationFailure,
    /// COPY PROTECTION KEY EXCHANGE FAILURE – KEY NOT PRESENT
    CopyProtectionKeyExchangeFailureKeyNotPresent,
    /// COPY PROTECTION KEY EXCHANGE FAILURE –KEY NOT ESTABLISHED
    CopyProtectionKeyExchangeFailureKeyNotEstablished,
    /// READ OF SCRAMBLED SECTOR WITHOUT AUTHENTICATION
    ReadOfScrambledSectorWithoutAuthentication,
    /// MEDIA REGION CODE IS MISMATCHED TO LOGICAL UNIT REGION
    MediaRegionCodeIsMismatchedToLogicalUnitRegion,
    /// LOGICAL UNIT REGION MUST BE PERMANENT/REGION RESET COUNT ERROR
    LogicalUnitRegionMustBePermanentRegionResetCountError,
    /// INSUFFICIENT BLOCK COUNT FOR BINDING NONCE RECORDING
    InsufficientBlockCountForBindingNonceRecording,
    /// CONFLICT IN BINDING NONCE RECORDING
    ConflictInBindingNonceRecording,
    /// EMPTY OR PARTIALLY WRITTEN RESERVED TRACK
    EmptyOrPartiallyWrittenReservedTrack,
    /// NO MORE TRACK RESERVATIONS ALLOWED
    NoMoreTrackReservationsAllowed,
}

impl ProtocolError {
    /// The ordered rule table of this category, in declared order.
    pub open spec fn spec_rules() -> Seq<SenseRule<ProtocolError>> {
        seq![
            SenseRule { sense_key: CodeMatcher::Exact(0x5), asc: CodeMatcher::Exact(0x2C), ascq: CodeMatcher::Exact(0x00), condition: ProtocolError::CommandSequenceError },
            SenseRule { sense_key: CodeMatcher::Exact(0x5), asc: CodeMatcher::Exact(0x2C), ascq: CodeMatcher::Exact(0x03), condition: ProtocolError::CurrentProgramAreaIsNotEmpty },
            SenseRule { sense_key: CodeMatcher::Exact(0x5), asc: CodeMatcher::Exact(0x2C), ascq: CodeMatcher::Exact(0x04), condition: ProtocolError::CurrentProgramAreaIsEmpty },
            SenseRule { sense_key: CodeMatcher::Exact(0x5), asc: CodeMatcher::Exact(0x30), ascq: CodeMatcher::Exact(0x08), condition: ProtocolError::CannotWriteApplicationCodeMismatch },
            SenseRule { sense_key: CodeMatcher::Exact(0x5), asc: CodeMatcher::Exact(0x30), ascq: CodeMatcher::Exact(0x09), condition: ProtocolError::CurrentSessionNotFixatedForAppend },
            SenseRule { sense_key: CodeMatcher::Exact(0x5), asc: CodeMatcher::Exact(0x30), ascq: CodeMatcher::Exact(0x10), condition: ProtocolError::MediumNotFormatted },
            SenseRule { sense_key: CodeMatcher::Exact(0x5), asc: CodeMatcher::Exact(0x39), ascq: CodeMatcher::Exact(0x00), condition: ProtocolError::SavingParametersNotSupported },
            SenseRule { sense_key: CodeMatcher::Exact(0x5), asc: CodeMatcher::Exact(0x3D), ascq: CodeMatcher::Exact(0x00), condition: ProtocolError::InvalidBitsInIdentifyMessage },
            SenseRule { sense_key: CodeMatcher::Exact(0x5), asc: CodeMatcher::Exact(0x43), ascq: CodeMatcher::Exact(0x00), condition: ProtocolError::MessageError },
            SenseRule { sense_key: CodeMatcher::Exact(0x5), asc: CodeMatcher::Exact(0x53), ascq: CodeMatcher::Exact(0x02), condition: ProtocolError::MediumRemovalPrevented },
            SenseRule { sense_key: CodeMatcher::Exact(0x5), asc: CodeMatcher::Exact(0x64), ascq: CodeMatcher::Exact(0x00), condition: ProtocolError::IllegalModeForThisTrack },
            SenseRule { sense_key: CodeMatcher::Exact(0x5), asc: CodeMatcher::Exact(0x64), ascq: CodeMatcher::Exact(0x01), condition: ProtocolError::InvalidPacketSize },
            SenseRule { sense_key: CodeMatcher::Exact(0x5), asc: CodeMatcher::Exact(0x6F), ascq: CodeMatcher::Exact(0x00), condition: ProtocolError::CopyProtectionKeyExchangeFailureAuthenticationFailure },
            SenseRule { sense_key: CodeMatcher::Exact(0x5), asc: CodeMatcher::Exact(0x6F), ascq: CodeMatcher::Exact(0x01), condition: ProtocolError::CopyProtectionKeyExchangeFailureKeyNotPresent },
            SenseRule { sense_key: CodeMatcher::Exact(0x5), asc: CodeMatcher::Exact(0x6F), ascq: CodeMatcher::Exact(0x02), condition: ProtocolError::CopyProtectionKeyExchangeFailureKeyNotEstablished },
            SenseRule { sense_key: CodeMatcher::Exact(0x5), asc: CodeMatcher::Exact(0x6F), ascq: CodeMatcher::Exact(0x03), condition: ProtocolError::ReadOfScrambledSectorWithoutAuthentication },
            SenseRule { sense_key: CodeMatcher::Exact(0x5), asc: CodeMatcher::Exact(0x6F), ascq: CodeMatcher::Exact(0x04), condition: ProtocolError::MediaRegionCodeIsMismatchedToLogicalUnitRegion },
            SenseRule { sense_key: CodeMatcher::Exact(0x5), asc: CodeMatcher::Exact(0x6F), ascq: CodeMatcher::Exact(0x05), condition: ProtocolError::LogicalUnitRegionMustBePermanentRegionResetCountError },
            SenseRule { sense_key: CodeMatcher::Exact(0x5), asc: CodeMatcher::Exact(0x6F), ascq: CodeMatcher::Exact(0x06), condition: ProtocolError::InsufficientBlockCountForBindingNonceRecording },
            SenseRule { sense_key: CodeMatcher::Exact(0x5), asc: CodeMatcher::Exact(0x6F), ascq: CodeMatcher::Exact(0x07), condition: ProtocolError::ConflictInBindingNonceRecording },
            SenseRule { sense_key: CodeMatcher::Exact(0x5), asc: CodeMatcher::Exact(0x72), ascq: CodeMatcher::Exact(0x04), condition: ProtocolError::EmptyOrPartiallyWrittenReservedTrack },
            SenseRule { sense_key: CodeMatcher::Exact(0x5), asc: CodeMatcher::Exact(0x72), ascq: CodeMatcher::Exact(0x05), condition: ProtocolError::NoMoreTrackReservationsAllowed },
        ]
    }

    /// Builds the rule table of this category.
    #[verifier::rlimit(100)]
    pub fn rules() -> (r: Vec<SenseRule<ProtocolError>>)
        ensures
            r@ == Self::spec_rules(),
    {
        let mut v: Vec<SenseRule<ProtocolError>> = Vec::new();
        v.push(SenseRule { sense_key: CodeMatcher::Exact(0x5), asc: CodeMatcher::Exact(0x2C), ascq: CodeMatcher::Exact(0x00), condition: ProtocolError::CommandSequenceError });
        v.push(SenseRule { sense_key: CodeMatcher::Exact(0x5), asc: CodeMatcher::Exact(0x2C), ascq: CodeMatcher::Exact(0x03), condition: ProtocolError::CurrentProgramAreaIsNotEmpty });
        v.push(SenseRule { sense_key: CodeMatcher::Exact(0x5), asc: CodeMatcher::Exact(0x2C), ascq: CodeMatcher::Exact(0x04), condition: ProtocolError::CurrentProgramAreaIsEmpty });
        v.push(SenseRule { sense_key: CodeMatcher::Exact(0x5), asc: CodeMatcher::Exact(0x30), ascq: CodeMatcher::Exact(0x08), condition: ProtocolError::CannotWriteApplicationCodeMismatch });
        v.push(SenseRule { sense_key: CodeMatcher::Exact(0x5), asc: CodeMatcher::Exact(0x30), ascq: CodeMatcher::Exact(0x09), condition: ProtocolError::CurrentSessionNotFixatedForAppend });
        v.push(SenseRule { sense_key: CodeMatcher::Exact(0x5), asc: CodeMatcher::Exact(0x30), ascq: CodeMatcher::Exact(0x10), condition: ProtocolError::MediumNotFormatted });
        v.push(SenseRule { sense_key: CodeMatcher::Exact(0x5), asc: CodeMatcher::Exact(0x39), ascq: CodeMatcher::Exact(0x00), condition: ProtocolError::SavingParametersNotSupported });
        v.push(SenseRule { sense_key: CodeMatcher::Exact(0x5), asc: CodeMatcher::Exact(0x3D), ascq: CodeMatcher::Exact(0x00), condition: ProtocolError::InvalidBitsInIdentifyMessage });
        v.push(SenseRule { sense_key: CodeMatcher::Exact(0x5), asc: CodeMatcher::Exact(0x43), ascq: CodeMatcher::Exact(0x00), condition: ProtocolError::MessageError });
        v.push(SenseRule { sense_key: CodeMatcher::Exact(0x5), asc: CodeMatcher::Exact(0x53), ascq: CodeMatcher::Exact(0x02), condition: ProtocolError::MediumRemovalPrevented });
        v.push(SenseRule { sense_key: CodeMatcher::Exact(0x5), asc: CodeMatcher::Exact(0x64), ascq: CodeMatcher::Exact(0x00), condition: ProtocolError::IllegalModeForThisTrack });
        v.push(SenseRule { sense_key: CodeMatcher::Exact(0x5), asc: CodeMatcher::Exact(0x64), ascq: CodeMatcher::Exact(0x01), condition: ProtocolError::InvalidPacketSize });
        v.push(SenseRule { sense_key: CodeMatcher::Exact(0x5), asc: CodeMatcher::Exact(0x6F), ascq: CodeMatcher::Exact(0x00), condition: ProtocolError::CopyProtectionKeyExchangeFailureAuthenticationFailure });
        v.push(SenseRule { sense_key: CodeMatcher::Exact(0x5), asc: CodeMatcher::Exact(0x6F), ascq: CodeMatcher::Exact(0x01), condition: ProtocolError::CopyProtectionKeyExchangeFailureKeyNotPresent });
        v.push(SenseRule { sense_key: CodeMatcher::Exact(0x5), asc: CodeMatcher::Exact(0x6F), ascq: CodeMatcher::Exact(0x02), condition: ProtocolError::CopyProtectionKeyExchangeFailureKeyNotEstablished });
        v.push(SenseRule { sense_key: CodeMatcher::Exact(0x5), asc: CodeMatcher::Exact(0x6F), ascq: CodeMatcher::Exact(0x03), condition: ProtocolError::ReadOfScrambledSectorWithoutAuthentication });
        v.push(SenseRule { sense_key: CodeMatcher::Exact(0x5), asc: CodeMatcher::Exact(0x6F), ascq: CodeMatcher::Exact(0x04), condition: ProtocolError::MediaRegionCodeIsMismatchedToLogicalUnitRegion });
        v.push(SenseRule { sense_key: CodeMatcher::Exact(0x5), asc: CodeMatcher::Exact(0x6F), ascq: CodeMatcher::Exact(0x05), condition: ProtocolError::LogicalUnitRegionMustBePermanentRegionResetCountError });
        v.push(SenseRule { sense_key: CodeMatcher::Exact(0x5), asc: CodeMatcher::Exact(0x6F), ascq: CodeMatcher::Exact(0x06), condition: ProtocolError::InsufficientBlockCountForBindingNonceRecording });
        v.push(SenseRule { sense_key: CodeMatcher::Exact(0x5), asc: CodeMatcher::Exact(0x6F), ascq: CodeMatcher::Exact(0x07), condition: ProtocolError::ConflictInBindingNonceRecording });
        v.push(SenseRule { sense_key: CodeMatcher::Exact(0x5), asc: CodeMatcher::Exact(0x72), ascq: CodeMatcher::Exact(0x04), condition: ProtocolError::EmptyOrPartiallyWrittenReservedTrack });
        v.push(SenseRule { sense_key: CodeMatcher::Exact(0x5), asc: CodeMatcher::Exact(0x72), ascq: CodeMatcher::Exact(0x05), condition: ProtocolError::NoMoreTrackReservationsAllowed });
        proof {
            assert(v@ =~= Self::spec_rules());
        }
        v
    }

    /// Classifies a sense triple against this category: the first rule
    /// whose three patterns all match, in declared order, decides.
    pub fn from_codes(sense_key: u8, asc: u8, ascq: u8) -> (r: Option<Self>)
        ensures
            r == spec_classify(Self::spec_rules(), sense_key, asc, ascq),
    {
        let rules = Self::rules();
        classify(&rules, sense_key, asc, ascq)
    }
}

// ==== GeneralMediaAccessError: 23 rules ====
#[derive(Clone, Copy, Debug, PartialEq, Eq)]
pub enum GeneralMediaAccessError {
    /// NO REFERENCE POSITION FOUND
    NoReferencePositionFound,
    /// TRACK FOLLOWING ERROR
    TrackFollowingError,
    /// TRACKING SERVO FAILURE
    TrackingServoFailure,
    /// FOCUS SERVO FAILURE
    FocusServoFailure,
    /// SPINDLE SERVO FAILURE
    SpindleServoFailure,
    /// RANDOM POSITIONING ERROR
    RandomPositioningError,
    /// MECHANICAL POSITIONING ERROR
    MechanicalPositioningError,
    /// INCOMPATIBLE MEDIUM INSTALLED
    IncompatibleMediumInstalled,
    /// CANNOT READ MEDIUM – UNKNOWN FORMAT
    CannotReadMediumUnknownFormat,
    /// CANNOT READ MEDIUM – INCOMPATIBLE FORMAT
    CannotReadMediumIncompatibleFormat,
    /// CLEANING CARTRIDGE INSTALLED
    CleaningCartridgeInstalled,
    /// CANNOT WRITE MEDIUM – UNKNOWN FORMAT
    CannotWriteMediumUnknownFormat,
    /// CANNOT WRITE MEDIUM – INCOMPATIBLE FORMAT
    CannotWriteMediumIncompatibleFormat,
    /// CANNOT FORMAT MEDIUM – INCOMPATIBLE MEDIUM
    CannotFormatMediumIncompatibleMedium,
    /// CLEANING FAILURE
    CleaningFailure,
    /// CANNOT WRITE – APPLICATION CODE MISMATCH
    CannotWriteApplicationCodeMismatch,
    /// CURRENT SESSION NOT FIXATED FOR APPEND
    CurrentSessionNotFixatedForAppend,
    /// MEDIUM NOT FORMATTED
    MediumNotFormatted,
    /// MEDIUM FORMAT CORRUPTED
    MediumFormatCorrupted,
    /// FORMAT COMMAND FAILED
    FormatCommandFailed,
    /// ZONED FORMATTING FAILED DUE TO SPARE LINKING
    ZonedFormattingFailedDueToSpareLinking,
    /// UNABLE TO RECOVER TABLE-OF-CONTENTS
    UnableToRecoverTableOfContents,
    /// CD CONTROL ERROR
    CdControlError,
}

impl GeneralMediaAccessError {
    /// The ordered rule table of this category, in declared order.
    pub open spec fn spec_rules() -> Seq<SenseRule<GeneralMediaAccessError>> {
        seq![
            SenseRule { sense_key: CodeMatcher::Exact(0x3), asc: CodeMatcher::Exact(0x06), ascq: CodeMatcher::Exact(0x00), condition: GeneralMediaAccessError::NoReferencePositionFound },
            SenseRule { sense_key: CodeMatcher::Exact(0x4), asc: CodeMatcher::Exact(0x09), ascq: CodeMatcher::Exact(0x00), condition: GeneralMediaAccessError::TrackFollowingError },
            SenseRule { sense_key: CodeMatcher::Exact(0x4), asc: CodeMatcher::Exact(0x09), ascq: CodeMatcher::Exact(0x01), condition: GeneralMediaAccessError::TrackingServoFailure },
            SenseRule { sense_key: CodeMatcher::Exact(0x4), asc: CodeMatcher::Exact(0x09), ascq: CodeMatcher::Exact(0x02), condition: GeneralMediaAccessError::FocusServoFailure },
            SenseRule { sense_key: CodeMatcher::Exact(0x4), asc: CodeMatcher::Exact(0x09), ascq: CodeMatcher::Exact(0x03), condition: GeneralMediaAccessError::SpindleServoFailure },
            SenseRule { sense_key: CodeMatcher::Exact(0x3), asc: CodeMatcher::Exact(0x15), ascq: CodeMatcher::Exact(0x00), condition: GeneralMediaAccessError::RandomPositioningError },
            SenseRule { sense_key: CodeMatcher::Exact(0x3), asc: CodeMatcher::Exact(0x15), ascq: CodeMatcher::Exact(0x01), condition: GeneralMediaAccessError::MechanicalPositioningError },
            SenseRule { sense_key: CodeMatcher::Exact(0x5), asc: CodeMatcher::Exact(0x30), ascq: CodeMatcher::Exact(0x00), condition: GeneralMediaAccessError::IncompatibleMediumInstalled },
            SenseRule { sense_key: CodeMatcher::Exact(0x5), asc: CodeMatcher::Exact(0x30), ascq: CodeMatcher::Exact(0x01), condition: GeneralMediaAccessError::CannotReadMediumUnknownFormat },
            SenseRule { sense_key: CodeMatcher::Exact(0x5), asc: CodeMatcher::Exact(0x30), ascq: CodeMatcher::Exact(0x02), condition: GeneralMediaAccessError::CannotReadMediumIncompatibleFormat },
            SenseRule { sense_key: CodeMatcher::Exact(0x5), asc: CodeMatcher::Exact(0x30), ascq: CodeMatcher::Exact(0x03), condition: GeneralMediaAccessError::CleaningCartridgeInstalled },
            SenseRule { sense_key: CodeMatcher::Exact(0x5), asc: CodeMatcher::Exact(0x30), ascq: CodeMatcher::Exact(0x04), condition: GeneralMediaAccessError::CannotWriteMediumUnknownFormat },
            SenseRule { sense_key: CodeMatcher::Exact(0x5), asc: CodeMatcher::Exact(0x30), ascq: CodeMatcher::Exact(0x05), condition: GeneralMediaAccessError::CannotWriteMediumIncompatibleFormat },
            SenseRule { sense_key: CodeMatcher::Exact(0x5), asc: CodeMatcher::Exact(0x30), ascq: CodeMatcher::Exact(0x06), condition: GeneralMediaAccessError::CannotFormatMediumIncompatibleMedium },
            SenseRule { sense_key: CodeMatcher::Exact(0x5), asc: CodeMatcher::Exact(0x30), ascq: CodeMatcher::Exact(0x07), condition: GeneralMediaAccessError::CleaningFailure },
            SenseRule { sense_key: CodeMatcher::Exact(0x5), asc: CodeMatcher::Exact(0x30), ascq: CodeMatcher::Exact(0x08), condition: GeneralMediaAccessError::CannotWriteApplicationCodeMismatch },
            SenseRule { sense_key: CodeMatcher::Exact(0x5), asc: CodeMatcher::Exact(0x30), ascq: CodeMatcher::Exact(0x09), condition: GeneralMediaAccessError::CurrentSessionNotFixatedForAppend },
            SenseRule { sense_key: CodeMatcher::Exact(0x5), asc: CodeMatcher::Exact(0x30), ascq: CodeMatcher::Exact(0x10), condition: GeneralMediaAccessError::MediumNotFormatted },
            SenseRule { sense_key: CodeMatcher::Exact(0x3), asc: CodeMatcher::Exact(0x31), ascq: CodeMatcher::Exact(0x00), condition: GeneralMediaAccessError::MediumFormatCorrupted },
            SenseRule { sense_key: CodeMatcher::Exact(0x3), asc: CodeMatcher::Exact(0x31), ascq: CodeMatcher::Exact(0x01), condition: GeneralMediaAccessError::FormatCommandFailed },
            SenseRule { sense_key: CodeMatcher::Exact(0x3), asc: CodeMatcher::Exact(0x31), ascq: CodeMatcher::Exact(0x02), condition: GeneralMediaAccessError::ZonedFormattingFailedDueToSpareLinking },
            SenseRule { sense_key: CodeMatcher::Exact(0x3), asc: CodeMatcher::Exact(0x57), ascq: CodeMatcher::Exact(0x00), condition: GeneralMediaAccessError::UnableToRecoverTableOfContents },
            SenseRule { sense_key: CodeMatcher::Exact(0x3), asc: CodeMatcher::Exact(0x73), ascq: CodeMatcher::Exact(0x00), condition: GeneralMediaAccessError::CdControlError },
        ]
    }

    /// Builds the rule table of this category.
    #[verifier::rlimit(100)]
    pub fn rules() -> (r: Vec<SenseRule<GeneralMediaAccessError>>)
        ensures
            r@ == Self::spec_rules(),
    {
        let mut v: Vec<SenseRule<GeneralMediaAccessError>> = Vec::new();
        v.push(SenseRule { sense_key: CodeMatcher::Exact(0x3), asc: CodeMatcher::Exact(0x06), ascq: CodeMatcher::Exact(0x00), condition: GeneralMediaAccessError::NoReferencePositionFound });
        v.push(SenseRule { sense_key: CodeMatcher::Exact(0x4), asc: CodeMatcher::Exact(0x09), ascq: CodeMatcher::Exact(0x00), condition: GeneralMediaAccessError::TrackFollowingError });
        v.push(SenseRule { sense_key: CodeMatcher::Exact(0x4), asc: CodeMatcher::Exact(0x09), ascq: CodeMatcher::Exact(0x01), condition: GeneralMediaAccessError::TrackingServoFailure });
        v.push(SenseRule { sense_key: CodeMatcher::Exact(0x4), asc: CodeMatcher::Exact(0x09), ascq: CodeMatcher::Exact(0x02), condition: GeneralMediaAccessError::FocusServoFailure });
        v.push(SenseRule { sense_key: CodeMatcher::Exact(0x4), asc: CodeMatcher::Exact(0x09), ascq: CodeMatcher::Exact(0x03), condition: GeneralMediaAccessError::SpindleServoFailure });
        v.push(SenseRule { sense_key: CodeMatcher::Exact(0x3), asc: CodeMatcher::Exact(0x15), ascq: CodeMatcher::Exact(0x00), condition: GeneralMediaAccessError::RandomPositioningError });
        v.push(SenseRule { sense_key: CodeMatcher::Exact(0x3), asc: CodeMatcher::Exact(0x15), ascq: CodeMatcher::Exact(0x01), condition: GeneralMediaAccessError::MechanicalPositioningError });
        v.push(SenseRule { sense_key: CodeMatcher::Exact(0x5), asc: CodeMatcher::Exact(0x30), ascq: CodeMatcher::Exact(0x00), condition: GeneralMediaAccessError::IncompatibleMediumInstalled });
        v.push(SenseRule { sense_key: CodeMatcher::Exact(0x5), asc: CodeMatcher::Exact(0x30), ascq: CodeMatcher::Exact(0x01), condition: GeneralMediaAccessError::CannotReadMediumUnknownFormat });
        v.push(SenseRule { sense_key: CodeMatcher::Exact(0x5), asc: CodeMatcher::Exact(0x30), ascq: CodeMatcher::Exact(0x02), condition: GeneralMediaAccessError::CannotReadMediumIncompatibleFormat });
        v.push(SenseRule { sense_key: CodeMatcher::Exact(0x5), asc: CodeMatcher::Exact(0x30), ascq: CodeMatcher::Exact(0x03), condition: GeneralMediaAccessError::CleaningCartridgeInstalled });
        v.push(SenseRule { sense_key: CodeMatcher::Exact(0x5), asc: CodeMatcher::Exact(0x30), ascq: CodeMatcher::Exact(0x04), condition: GeneralMediaAccessError::CannotWriteMediumUnknownFormat });
        v.push(SenseRule { sense_key: CodeMatcher::Exact(0x5), asc: CodeMatcher::Exact(0x30), ascq: CodeMatcher::Exact(0x05), condition: GeneralMediaAccessError::CannotWriteMediumIncompatibleFormat });
        v.push(SenseRule { sense_key: CodeMatcher::Exact(0x5), asc: CodeMatcher::Exact(0x30), ascq: CodeMatcher::Exact(0x06), condition: GeneralMediaAccessError::CannotFormatMediumIncompatibleMedium });
        v.push(SenseRule { sense_key: CodeMatcher::Exact(0x5), asc: CodeMatcher::Exact(0x30), ascq: CodeMatcher::Exact(0x07), condition: GeneralMediaAccessError::CleaningFailure });
        v.push(SenseRule { sense_key: CodeMatcher::Exact(0x5), asc: CodeMatcher::Exact(0x30), ascq: CodeMatcher::Exact(0x08), condition: GeneralMediaAccessError::CannotWriteApplicationCodeMismatch });
        v.push(SenseRule { sense_key: CodeMatcher::Exact(0x5), asc: CodeMatcher::Exact(0x30), ascq: CodeMatcher::Exact(0x09), condition: GeneralMediaAccessError::CurrentSessionNotFixatedForAppend });
        v.push(SenseRule { sense_key: CodeMatcher::Exact(0x5), asc: CodeMatcher::Exact(0x30), ascq: CodeMatcher::Exact(0x10), condition: GeneralMediaAccessError::MediumNotFormatted });
        v.push(SenseRule { sense_key: CodeMatcher::Exact(0x3), asc: CodeMatcher::Exact(0x31), ascq: CodeMatcher::Exact(0x00), condition: GeneralMediaAccessError::MediumFormatCorrupted });
        v.push(SenseRule { sense_key: CodeMatcher::Exact(0x3), asc: CodeMatcher::Exact(0x31), ascq: CodeMatcher::Exact(0x01), condition: GeneralMediaAccessError::FormatCommandFailed });
        v.push(SenseRule { sense_key: CodeMatcher::Exact(0x3), asc: CodeMatcher::Exact(0x31), ascq: CodeMatcher::Exact(0x02), condition: GeneralMediaAccessError::ZonedFormattingFailedDueToSpareLinking });
        v.push(SenseRule { sense_key: CodeMatcher::Exact(0x3), asc: CodeMatcher::Exact(0x57), ascq: CodeMatcher::Exact(0x00), condition: GeneralMediaAccessError::UnableToRecoverTableOfContents });
        v.push(SenseRule { sense_key: CodeMatcher::Exact(0x3), asc: CodeMatcher::Exact(0x73), ascq: CodeMatcher::Exact(0x00), condition: GeneralMediaAccessError::CdControlError });
        proof {
            assert(v@ =~= Self::spec_rules());
        }
        v
    }

    /// Classifies a sense triple against this category: the first rule
    /// whose three patterns all match, in declared order, decides.
    pub fn from_codes(sense_key: u8, asc: u8, ascq: u8) -> (r: Option<Self>)
        ensures
            r == spec_classify(Self::spec_rules(), sense_key, asc, ascq),
    {
        let rules = Self::rules();
        classify(&rules, sense_key, asc, ascq)
    }
}

// ==== ReadingError: 33 rules ====
#[derive(Clone, Copy, Debug, PartialEq, Eq)]
pub enum ReadingError {
    /// UNRECOVERED READ ERROR
    UnrecoveredReadError,
    /// READ RETRIES EXHAUSTED
    ReadRetriesExhausted,
    /// ERROR TOO LONG TO CORRECT
    ErrorTooLongToCorrect,
    /// L-EC UNCORRECTABLE ERROR
    LECUncorrectableError,
    /// CIRC UNRECOVERED ERROR
    CircUnrecoveredError,
    /// ERROR READING UPC/EAN NUMBER
    ErrorReadingUpcEanNumber,
    /// ERROR READING ISRC NUMBER
    ErrorReadingIsrcNumber,
    /// READ ERROR – LOSS OF STREAMING
    ReadErrorLossOfStreaming,
    /// RANDOM POSITIONING ERROR
    RandomPositioningError,
    /// MECHANICAL POSITIONING ERROR
    MechanicalPositioningError,
    /// POSITIONING ERROR DETECTED BY READ OF MEDIUM
    PositioningErrorDetectedByReadOfMedium,
    /// RECOVERED DATA WITH NO ERROR CORRECTION APPLIED
    RecoveredDataWithNoErrorCorrectionApplied,
    /// RECOVERED DATA WITH RETRIES
    RecoveredDataWithRetries,
    /// RECOVERED DATA WITH POSITIVE HEAD OFFSET
    RecoveredDataWithPositiveHeadOffset,
    /// RECOVERED DATA WITH NEGATIVE HEAD OFFSET
    RecoveredDataWithNegativeHeadOffset,
    /// RECOVERED DATA WITH RETRIES AND/OR CIRC APPLIED
    RecoveredDataWithRetriesAndOrcIrcApplied,
    /// RECOVERED DATA USING PREVIOUS SECTOR ID
    RecoveredDataUsingPreviousSectorId,
    /// RECOVERED DATA WITHOUT ECC – RECOMMEND REASSIGNMENT
    RecoveredDataWithoutEccRecommendReassignment,
    /// RECOVERED DATA WITHOUT ECC – RECOMMEND REWRITE
    RecoveredDataWithoutEccRecommendRewrite,
    /// RECOVERED DATA WITHOUT ECC – DATA REWRITTEN
    RecoveredDataWithoutEccDataRewritten,
    /// RECOVERED DATA WITH ERROR CORRECTION APPLIED
    RecoveredDataWithErrorCorrectionApplied,
    /// RECOVERED DATA WITH ERROR CORR. & RETRIES APPLIED
    RecoveredDataWithErrorCorrRetriesApplied,
    /// RECOVERED DATA – DATA AUTO-REALLOCATED
    RecoveredDataDataAutoReallocated,
    /// RECOVERED DATA WITH CIRC
    RecoveredDataWithCirc,
    /// RECOVERED DATA WITH L-EC
    RecoveredDataWithLEC,
    /// RECOVERED DATA – RECOMMEND REASSIGNMENT
    RecoveredDataRecommendReassignment,
    /// RECOVERED DATA – RECOMMEND REWRITE
    RecoveredDataRecommendRewrite,
    /// RECOVERED DATA WITH LINKING
    RecoveredDataWithLinking,
    /// INCOMPATIBLE MEDIUM INSTALLED
    IncompatibleMediumInstalled,
    /// CANNOT READ MEDIUM – UNKNOWN FORMAT
    CannotReadMediumUnknownFormat,
    /// CANNOT READ MEDIUM – INCOMPATIBLE FORMAT
    CannotReadMediumIncompatibleFormat,
    /// CLEANING CARTRIDGE INSTALLED
    CleaningCartridgeInstalled,
    /// BLANK CHECK
    BlankCheck,
}

impl ReadingError {
    /// The ordered rule table of this category, in declared order.
    pub open spec fn spec_rules() -> Seq<SenseRule<ReadingError>> {
        seq![
            SenseRule { sense_key: CodeMatcher::Exact(0x3), asc: CodeMatcher::Exact(0x11), ascq: CodeMatcher::Exact(0x00), condition: ReadingError::UnrecoveredReadError },
            SenseRule { sense_key: CodeMatcher::Exact(0x3), asc: CodeMatcher::Exact(0x11), ascq: CodeMatcher::Exact(0x01), condition: ReadingError::ReadRetriesExhausted },
            SenseRule { sense_key: CodeMatcher::Exact(0x3), asc: CodeMatcher::Exact(0x11), ascq: CodeMatcher::Exact(0x02), condition: ReadingError::ErrorTooLongToCorrect },
            SenseRule { sense_key: CodeMatcher::Exact(0x3), asc: CodeMatcher::Exact(0x11), ascq: CodeMatcher::Exact(0x05), condition: ReadingError::LECUncorrectableError },
            SenseRule { sense_key: CodeMatcher::Exact(0x3), asc: CodeMatcher::Exact(0x11), ascq: CodeMatcher::Exact(0x06), condition: ReadingError::CircUnrecoveredError },
            SenseRule { sense_key: CodeMatcher::Exact(0x3), asc: CodeMatcher::Exact(0x11), ascq: CodeMatcher::Exact(0x0F), condition: ReadingError::ErrorReadingUpcEanNumber },
            SenseRule { sense_key: CodeMatcher::Exact(0x3), asc: CodeMatcher::Exact(0x11), ascq: CodeMatcher::Exact(0x10), condition: ReadingError::ErrorReadingIsrcNumber },
            SenseRule { sense_key: CodeMatcher::Exact(0xB), asc: CodeMatcher::Exact(0x11), ascq: CodeMatcher::Exact(0x11), condition: ReadingError::ReadErrorLossOfStreaming },
            SenseRule { sense_key: CodeMatcher::Exact(0x3), asc: CodeMatcher::Exact(0x15), ascq: CodeMatcher::Exact(0x00), condition: ReadingError::RandomPositioningError },
            SenseRule { sense_key: CodeMatcher::Exact(0x3), asc: CodeMatcher::Exact(0x15), ascq: CodeMatcher::Exact(0x01), condition: ReadingError::MechanicalPositioningError },
            SenseRule { sense_key: CodeMatcher::Exact(0x3), asc: CodeMatcher::Exact(0x15), ascq: CodeMatcher::Exact(0x02), condition: ReadingError::PositioningErrorDetectedByReadOfMedium },
            SenseRule { sense_key: CodeMatcher::Exact(0x1), asc: CodeMatcher::Exact(0x17), ascq: CodeMatcher::Exact(0x00), condition: ReadingError::RecoveredDataWithNoErrorCorrectionApplied },
            SenseRule { sense_key: CodeMatcher::Exact(0x1), asc: CodeMatcher::Exact(0x17), ascq: CodeMatcher::Exact(0x01), condition: ReadingError::RecoveredDataWithRetries },
            SenseRule { sense_key: CodeMatcher::Exact(0x1), asc: CodeMatcher::Exact(0x17), ascq: CodeMatcher::Exact(0x02), condition: ReadingError::RecoveredDataWithPositiveHeadOffset },
            SenseRule { sense_key: CodeMatcher::Exact(0x1), asc: CodeMatcher::Exact(0x17), ascq: CodeMatcher::Exact(0x03), condition: ReadingError::RecoveredDataWithNegativeHeadOffset },
            SenseRule { sense_key: CodeMatcher::Exact(0x1), asc: CodeMatcher::Exact(0x17), ascq: CodeMatcher::Exact(0x04), condition: ReadingError::RecoveredDataWithRetriesAndOrcIrcApplied },
            SenseRule { sense_key: CodeMatcher::Exact(0x1), asc: CodeMatcher::Exact(0x17), ascq: CodeMatcher::Exact(0x05), condition: ReadingError::RecoveredDataUsingPreviousSectorId },
            SenseRule { sense_key: CodeMatcher::Exact(0x1), asc: CodeMatcher::Exact(0x17), ascq: CodeMatcher::Exact(0x07), condition: ReadingError::RecoveredDataWithoutEccRecommendReassignment },
            SenseRule { sense_key: CodeMatcher::Exact(0x1), asc: CodeMatcher::Exact(0x17), ascq: CodeMatcher::Exact(0x08), condition: ReadingError::RecoveredDataWithoutEccRecommendRewrite },
            SenseRule { sense_key: CodeMatcher::Exact(0x1), asc: CodeMatcher::Exact(0x17), ascq: CodeMatcher::Exact(0x09), condition: ReadingError::RecoveredDataWithoutEccDataRewritten },
            SenseRule { sense_key: CodeMatcher::Exact(0x1), asc: CodeMatcher::Exact(0x18), ascq: CodeMatcher::Exact(0x00), condition: ReadingError::RecoveredDataWithErrorCorrectionApplied },
            SenseRule { sense_key: CodeMatcher::Exact(0x1), asc: CodeMatcher::Exact(0x18), ascq: CodeMatcher::Exact(0x01), condition: ReadingError::RecoveredDataWithErrorCorrRetriesApplied },
            SenseRule { sense_key: CodeMatcher::Exact(0x1), asc: CodeMatcher::Exact(0x18), ascq: CodeMatcher::Exact(0x02), condition: ReadingError::RecoveredDataDataAutoReallocated },
            SenseRule { sense_key: CodeMatcher::Exact(0x1), asc: CodeMatcher::Exact(0x18), ascq: CodeMatcher::Exact(0x03), condition: ReadingError::RecoveredDataWithCirc },
            SenseRule { sense_key: CodeMatcher::Exact(0x1), asc: CodeMatcher::Exact(0x18), ascq: CodeMatcher::Exact(0x04), condition: ReadingError::RecoveredDataWithLEC },
            SenseRule { sense_key: CodeMatcher::Exact(0x1), asc: CodeMatcher::Exact(0x18), ascq: CodeMatcher::Exact(0x05), condition: ReadingError::RecoveredDataRecommendReassignment },
            SenseRule { sense_key: CodeMatcher::Exact(0x1), asc: CodeMatcher::Exact(0x18), ascq: CodeMatcher::Exact(0x06), condition: ReadingError::RecoveredDataRecommendRewrite },
            SenseRule { sense_key: CodeMatcher::Exact(0x1), asc: CodeMatcher::Exact(0x18), ascq: CodeMatcher::Exact(0x08), condition: ReadingError::RecoveredDataWithLinking },
            SenseRule { sense_key: CodeMatcher::OneOf(0x2, 0x5), asc: CodeMatcher::Exact(0x30), ascq: CodeMatcher::Exact(0x00), condition: ReadingError::IncompatibleMediumInstalled },
            SenseRule { sense_key: CodeMatcher::OneOf(0x2, 0x5), asc: CodeMatcher::Exact(0x30), ascq: CodeMatcher::Exact(0x01), condition: ReadingError::CannotReadMediumUnknownFormat },
            SenseRule { sense_key: CodeMatcher::OneOf(0x2, 0x5), asc: CodeMatcher::Exact(0x30), ascq: CodeMatcher::Exact(0x02), condition: ReadingError::CannotReadMediumIncompatibleFormat },
            SenseRule { sense_key: CodeMatcher::OneOf(0x2, 0x5), asc: CodeMatcher::Exact(0x30), ascq: CodeMatcher::Exact(0x03), condition: ReadingError::CleaningCartridgeInstalled },
            SenseRule { sense_key: CodeMatcher::Exact(0x8), asc: CodeMatcher::Wildcard, ascq: CodeMatcher::Wildcard, condition: ReadingError::BlankCheck },
        ]
    }

    /// Builds the rule table of this category.
    #[verifier::rlimit(100)]
    pub fn rules() -> (r: Vec<SenseRule<ReadingError>>)
        ensures
            r@ == Self::spec_rules(),
    {
        let mut v: Vec<SenseRule<ReadingError>> = Vec::new();
        v.push(SenseRule { sense_key: CodeMatcher::Exact(0x3), asc: CodeMatcher::Exact(0x11), ascq: CodeMatcher::Exact(0x00), condition: ReadingError::UnrecoveredReadError });
        v.push(SenseRule { sense_key: CodeMatcher::Exact(0x3), asc: CodeMatcher::Exact(0x11), ascq: CodeMatcher::Exact(0x01), condition: ReadingError::ReadRetriesExhausted });
        v.push(SenseRule { sense_key: CodeMatcher::Exact(0x3), asc: CodeMatcher::Exact(0x11), ascq: CodeMatcher::Exact(0x02), condition: ReadingError::ErrorTooLongToCorrect });
        v.push(SenseRule { sense_key: CodeMatcher::Exact(0x3), asc: CodeMatcher::Exact(0x11), ascq: CodeMatcher::Exact(0x05), condition: ReadingError::LECUncorrectableError });
        v.push(SenseRule { sense_key: CodeMatcher::Exact(0x3), asc: CodeMatcher::Exact(0x11), ascq: CodeMatcher::Exact(0x06), condition: ReadingError::CircUnrecoveredError });
        v.push(SenseRule { sense_key: CodeMatcher::Exact(0x3), asc: CodeMatcher::Exact(0x11), ascq: CodeMatcher::Exact(0x0F), condition: ReadingError::ErrorReadingUpcEanNumber });
        v.push(SenseRule { sense_key: CodeMatcher::Exact(0x3), asc: CodeMatcher::Exact(0x11), ascq: CodeMatcher::Exact(0x10), condition: ReadingError::ErrorReadingIsrcNumber });
        v.push(SenseRule { sense_key: CodeMatcher::Exact(0xB), asc: CodeMatcher::Exact(0x11), ascq: CodeMatcher::Exact(0x11), condition: ReadingError::ReadErrorLossOfStreaming });
        v.push(SenseRule { sense_key: CodeMatcher::Exact(0x3), asc: CodeMatcher::Exact(0x15), ascq: CodeMatcher::Exact(0x00), condition: ReadingError::RandomPositioningError });
        v.push(SenseRule { sense_key: CodeMatcher::Exact(0x3), asc: CodeMatcher::Exact(0x15), ascq: CodeMatcher::Exact(0x01), condition: ReadingError::MechanicalPositioningError });
        v.push(SenseRule { sense_key: CodeMatcher::Exact(0x3), asc: CodeMatcher::Exact(0x15), ascq: CodeMatcher::Exact(0x02), condition: ReadingError::PositioningErrorDetectedByReadOfMedium });
        v.push(SenseRule { sense_key: CodeMatcher::Exact(0x1), asc: CodeMatcher::Exact(0x17), ascq: CodeMatcher::Exact(0x00), condition: ReadingError::RecoveredDataWithNoErrorCorrectionApplied });
        v.push(SenseRule { sense_key: CodeMatcher::Exact(0x1), asc: CodeMatcher::Exact(0x17), ascq: CodeMatcher::Exact(0x01), condition: ReadingError::RecoveredDataWithRetries });
        v.push(SenseRule { sense_key: CodeMatcher::Exact(0x1), asc: CodeMatcher::Exact(0x17), ascq: CodeMatcher::Exact(0x02), condition: ReadingError::RecoveredDataWithPositiveHeadOffset });
        v.push(SenseRule { sense_key: CodeMatcher::Exact(0x1), asc: CodeMatcher::Exact(0x17), ascq: CodeMatcher::Exact(0x03), condition: ReadingError::RecoveredDataWithNegativeHeadOffset });
        v.push(SenseRule { sense_key: CodeMatcher::Exact(0x1), asc: CodeMatcher::Exact(0x17), ascq: CodeMatcher::Exact(0x04), condition: ReadingError::RecoveredDataWithRetriesAndOrcIrcApplied });
        v.push(SenseRule { sense_key: CodeMatcher::Exact(0x1), asc: CodeMatcher::Exact(0x17), ascq: CodeMatcher::Exact(0x05), condition: ReadingError::RecoveredDataUsingPreviousSectorId });
        v.push(SenseRule { sense_key: CodeMatcher::Exact(0x1), asc: CodeMatcher::Exact(0x17), ascq: CodeMatcher::Exact(0x07), condition: ReadingError::RecoveredDataWithoutEccRecommendReassignment });
        v.push(SenseRule { sense_key: CodeMatcher::Exact(0x1), asc: CodeMatcher::Exact(0x17), ascq: CodeMatcher::Exact(0x08), condition: ReadingError::RecoveredDataWithoutEccRecommendRewrite });
        v.push(SenseRule { sense_key: CodeMatcher::Exact(0x1), asc: CodeMatcher::Exact(0x17), ascq: CodeMatcher::Exact(0x09), condition: ReadingError::RecoveredDataWithoutEccDataRewritten });
        v.push(SenseRule { sense_key: CodeMatcher::Exact(0x1), asc: CodeMatcher::Exact(0x18), ascq: CodeMatcher::Exact(0x00), condition: ReadingError::RecoveredDataWithErrorCorrectionApplied });
        v.push(SenseRule { sense_key: CodeMatcher::Exact(0x1), asc: CodeMatcher::Exact(0x18), ascq: CodeMatcher::Exact(0x01), condition: ReadingError::RecoveredDataWithErrorCorrRetriesApplied });
        v.push(SenseRule { sense_key: CodeMatcher::Exact(0x1), asc: CodeMatcher::Exact(0x18), ascq: CodeMatcher::Exact(0x02), condition: ReadingError::RecoveredDataDataAutoReallocated });
        v.push(SenseRule { sense_key: CodeMatcher::Exact(0x1), asc: CodeMatcher::Exact(0x18), ascq: CodeMatcher::Exact(0x03), condition: ReadingError::RecoveredDataWithCirc });
        v.push(SenseRule { sense_key: CodeMatcher::Exact(0x1), asc: CodeMatcher::Exact(0x18), ascq: CodeMatcher::Exact(0x04), condition: ReadingError::RecoveredDataWithLEC });
        v.push(SenseRule { sense_key: CodeMatcher::Exact(0x1), asc: CodeMatcher::Exact(0x18), ascq: CodeMatcher::Exact(0x05), condition: ReadingError::RecoveredDataRecommendReassignment });
        v.push(SenseRule { sense_key: CodeMatcher::Exact(0x1), asc: CodeMatcher::Exact(0x18), ascq: CodeMatcher::Exact(0x06), condition: ReadingError::RecoveredDataRecommendRewrite });
        v.push(SenseRule { sense_key: CodeMatcher::Exact(0x1), asc: CodeMatcher::Exact(0x18), ascq: CodeMatcher::Exact(0x08), condition: ReadingError::RecoveredDataWithLinking });
        v.push(SenseRule { sense_key: CodeMatcher::OneOf(0x2, 0x5), asc: CodeMatcher::Exact(0x30), ascq: CodeMatcher::Exact(0x00), condition: ReadingError::IncompatibleMediumInstalled });
        v.push(SenseRule { sense_key: CodeMatcher::OneOf(0x2, 0x5), asc: CodeMatcher::Exact(0x30), ascq: CodeMatcher::Exact(0x01), condition: ReadingError::CannotReadMediumUnknownFormat });
        v.push(SenseRule { sense_key: CodeMatcher::OneOf(0x2, 0x5), asc: CodeMatcher::Exact(0x30), ascq: CodeMatcher::Exact(0x02), condition: ReadingError::CannotReadMediumIncompatibleFormat });
        v.push(SenseRule { sense_key: CodeMatcher::OneOf(0x2, 0x5), asc: CodeMatcher::Exact(0x30), ascq: CodeMatcher::Exact(0x03), condition: ReadingError::CleaningCartridgeInstalled });
        v.push(SenseRule { sense_key: CodeMatcher::Exact(0x8), asc: CodeMatcher::Wildcard, ascq: CodeMatcher::Wildcard, condition: ReadingError::BlankCheck });
        proof {
            assert(v@ =~= Self::spec_rules());
        }
        v
    }

    /// Classifies a sense triple against this category: the first rule
    /// whose three patterns all match, in declared order, decides.
    pub fn from_codes(sense_key: u8, asc: u8, ascq: u8) -> (r: Option<Self>)
        ensures
            r == spec_classify(Self::spec_rules(), sense_key, asc, ascq),
    {
        let rules = Self::rules();
        classify(&rules, sense_key, asc, ascq)
    }
}

// ==== WritingError: 49 rules ====
#[derive(Clone, Copy, Debug, PartialEq, Eq)]
pub enum WritingError {
    /// WRITE ERROR
    WriteError,
    /// WRITE ERROR – RECOVERY NEEDED
    WriteErrorRecoveryNeeded,
    /// WRITE ERROR – RECOVERY FAILED
    WriteErrorRecoveryFailed,
    /// WRITE ERROR – LOSS OF STREAMING
    WriteErrorLossOfStreaming,
    /// WRITE ERROR – PADDING BLOCKS ADDED
    WriteErrorPaddingBlocksAdded,
    /// WRITE PROTECTED
    WriteProtected,
    /// HARDWARE WRITE PROTECTED
    HardwareWriteProtected,
    /// LOGICAL UNIT SOFTWARE WRITE PROTECTED
    LogicalUnitSoftwareWriteProtected,
    /// ASSOCIATED WRITE PROTECT
    AssociatedWriteProtect,
    /// PERSISTENT WRITE PROTECT
    PersistentWriteProtect,
    /// PERMANENT WRITE PROTECT
    PermanentWriteProtect,
    /// CONDITIONAL WRITE PROTECT
    ConditionalWriteProtect,
    /// CANNOT WRITE MEDIUM – UNKNOWN FORMAT
    CannotWriteMediumUnknownFormat,
    /// CANNOT WRITE MEDIUM – INCOMPATIBLE FORMAT
    CannotWriteMediumIncompatibleFormat,
    /// CANNOT FORMAT MEDIUM – INCOMPATIBLE MEDIUM
    CannotFormatMediumIncompatibleMedium,
    /// CLEANING FAILURE
    CleaningFailure,
    /// CANNOT WRITE – APPLICATION CODE MISMATCH
    CannotWriteApplicationCodeMismatch,
    /// CURRENT SESSION NOT FIXATED FOR APPEND
    CurrentSessionNotFixatedForAppend,
    /// MEDIUM NOT FORMATTED
    MediumNotFormatted,
    /// CANNOT WRITE MEDIUM – UNSUPPORTED MEDIUM VERSION
    CannotWriteMediumUnsupportedMediumVersion,
    /// MEDIUM FORMAT CORRUPTED
    MediumFormatCorrupted,
    /// FORMAT COMMAND FAILED
    FormatCommandFailed,
    /// ZONED FORMATTING FAILED DUE TO SPARE LINKING
    ZonedFormattingFailedDueToSpareLinking,
    /// NO DEFECT SPARE LOCATION AVAILABLE
    NoDefectSpareLocationAvailable,
    /// ERASE FAILURE
    EraseFailure,
    /// ERASE FAILURE – INCOMPLETE ERASE OPERATION DETECTED
    EraseFailureIncompleteEraseOperationDetected,
    /// FAILURE PREDICTION THRESHOLD EXCEEDED
    FailurePredictionThresholdExceeded,
    /// MEDIA FAILURE PREDICTION THRESHOLD EXCEEDED
    MediaFailurePredictionThresholdExceeded,
    /// LOGICAL UNIT FAILURE PREDICTION THRESHOLD EXCEEDED
    LogicalUnitFailurePredictionThresholdExceeded,
    /// FAILURE PREDICTION THRESHOLD EXCEEDED – Predicted Spare Area Exhaustion
    FailurePredictionThresholdExceededPredictedSpareAreaExhaustion,
    /// FAILURE PREDICTION THRESHOLD EXCEEDED (FALSE)
    FailurePredictionThresholdExceededFalse,
    /// SESSION FIXATION ERROR
    SessionFixationError,
    /// SESSION FIXATION ERROR WRITING LEAD-IN
    SessionFixationErrorWritingLeadIn,
    /// SESSION FIXATION ERROR WRITING LEAD-OUT
    SessionFixationErrorWritingLeadOut,
    /// SESSION FIXATION ERROR – INCOMPLETE TRACK IN SESSION
    SessionFixationErrorIncompleteTrackInSession,
    /// EMPTY OR PARTIALLY WRITTEN RESERVED TRACK
    EmptyOrPartiallyWrittenReservedTrack,
    /// NO MORE TRACK RESERVATIONS ALLOWED
    NoMoreTrackReservationsAllowed,
    /// RMZ EXTENSION IS NOT ALLOWED
    RmzExtensionIsNotAllowed,
    /// NO MORE TEST ZONE EXTENSIONS ARE ALLOWED
    NoMoreTestZoneExtensionsAreAllowed,
    /// POWER CALIBRATION AREA ALMOST FULL
    PowerCalibrationAreaAlmostFull,
    /// POWER CALIBRATION AREA IS FULL
    PowerCalibrationAreaIsFull,
    /// POWER CALIBRATION AREA ERROR
    PowerCalibrationAreaError,
    /// PROGRAM MEMORY AREA UPDATE FAILURE
    ProgramMemoryAreaUpdateFailure,
    /// PROGRAM MEMORY AREA IS FULL
    ProgramMemoryAreaIsFull,
    /// RMA/PMA IS ALMOST FULL
    RmaPmaIsAlmostFull,
    /// CURRENT POWER CALIBRATION AREA IS ALMOST FULL
    CurrentPowerCalibrationAreaIsAlmostFull,
    /// CURRENT POWER CALIBRATION AREA IS FULL
    CurrentPowerCalibrationAreaIsFull,
    /// RDZ IS FULL
    RdzIsFull,
    /// BLANK CHECK
    BlankCheck,
}

impl WritingError {
    /// The ordered rule table of this category, in declared order.
    pub open spec fn spec_rules() -> Seq<SenseRule<WritingError>> {
        seq![
            SenseRule { sense_key: CodeMatcher::Exact(0x3), asc: CodeMatcher::Exact(0x0C), ascq: CodeMatcher::Exact(0x00), condition: WritingError::WriteError },
            SenseRule { sense_key: CodeMatcher::Exact(0x3), asc: CodeMatcher::Exact(0x0C), ascq: CodeMatcher::Exact(0x07), condition: WritingError::WriteErrorRecoveryNeeded },
            SenseRule { sense_key: CodeMatcher::Exact(0x3), asc: CodeMatcher::Exact(0x0C), ascq: CodeMatcher::Exact(0x08), condition: WritingError::WriteErrorRecoveryFailed },
            SenseRule { sense_key: CodeMatcher::Exact(0x3), asc: CodeMatcher::Exact(0x0C), ascq: CodeMatcher::Exact(0x09), condition: WritingError::WriteErrorLossOfStreaming },
            SenseRule { sense_key: CodeMatcher::Exact(0x3), asc: CodeMatcher::Exact(0x0C), ascq: CodeMatcher::Exact(0x0A), condition: WritingError::WriteErrorPaddingBlocksAdded },
            SenseRule { sense_key: CodeMatcher::Exact(0x7), asc: CodeMatcher::Exact(0x27), ascq: CodeMatcher::Exact(0x00), condition: WritingError::WriteProtected },
            SenseRule { sense_key: CodeMatcher::Exact(0x7), asc: CodeMatcher::Exact(0x27), ascq: CodeMatcher::Exact(0x01), condition: WritingError::HardwareWriteProtected },
            SenseRule { sense_key: CodeMatcher::Exact(0x7), asc: CodeMatcher::Exact(0x27), ascq: CodeMatcher::Exact(0x02), condition: WritingError::LogicalUnitSoftwareWriteProtected },
            SenseRule { sense_key: CodeMatcher::Exact(0x7), asc: CodeMatcher::Exact(0x27), ascq: CodeMatcher::Exact(0x03), condition: WritingError::AssociatedWriteProtect },
            SenseRule { sense_key: CodeMatcher::Exact(0x7), asc: CodeMatcher::Exact(0x27), ascq: CodeMatcher::Exact(0x04), condition: WritingError::PersistentWriteProtect },
            SenseRule { sense_key: CodeMatcher::Exact(0x7), asc: CodeMatcher::Exact(0x27), ascq: CodeMatcher::Exact(0x05), condition: WritingError::PermanentWriteProtect },
            SenseRule { sense_key: CodeMatcher::Exact(0x7), asc: CodeMatcher::Exact(0x27), ascq: CodeMatcher::Exact(0x06), condition: WritingError::ConditionalWriteProtect },
            SenseRule { sense_key: CodeMatcher::Exact(0x2), asc: CodeMatcher::Exact(0x30), ascq: CodeMatcher::Exact(0x04), condition: WritingError::CannotWriteMediumUnknownFormat },
            SenseRule { sense_key: CodeMatcher::Exact(0x2), asc: CodeMatcher::Exact(0x30), ascq: CodeMatcher::Exact(0x05), condition: WritingError::CannotWriteMediumIncompatibleFormat },
            SenseRule { sense_key: CodeMatcher::Exact(0x2), asc: CodeMatcher::Exact(0x30), ascq: CodeMatcher::Exact(0x06), condition: WritingError::CannotFormatMediumIncompatibleMedium },
            SenseRule { sense_key: CodeMatcher::Exact(0x2), asc: CodeMatcher::Exact(0x30), ascq: CodeMatcher::Exact(0x07), condition: WritingError::CleaningFailure },
            SenseRule { sense_key: CodeMatcher::Exact(0x5), asc: CodeMatcher::Exact(0x30), ascq: CodeMatcher::Exact(0x08), condition: WritingError::CannotWriteApplicationCodeMismatch },
            SenseRule { sense_key: CodeMatcher::Exact(0x5), asc: CodeMatcher::Exact(0x30), ascq: CodeMatcher::Exact(0x09), condition: WritingError::CurrentSessionNotFixatedForAppend },
            SenseRule { sense_key: CodeMatcher::Exact(0x5), asc: CodeMatcher::Exact(0x30), ascq: CodeMatcher::Exact(0x10), condition: WritingError::MediumNotFormatted },
            SenseRule { sense_key: CodeMatcher::Exact(0x2), asc: CodeMatcher::Exact(0x30), ascq: CodeMatcher::Exact(0x11), condition: WritingError::CannotWriteMediumUnsupportedMediumVersion },
            SenseRule { sense_key: CodeMatcher::Exact(0x3), asc: CodeMatcher::Exact(0x31), ascq: CodeMatcher::Exact(0x00), condition: WritingError::MediumFormatCorrupted },
            SenseRule { sense_key: CodeMatcher::Exact(0x3), asc: CodeMatcher::Exact(0x31), ascq: CodeMatcher::Exact(0x01), condition: WritingError::FormatCommandFailed },
            SenseRule { sense_key: CodeMatcher::Exact(0x3), asc: CodeMatcher::Exact(0x31), ascq: CodeMatcher::Exact(0x02), condition: WritingError::ZonedFormattingFailedDueToSpareLinking },
            SenseRule { sense_key: CodeMatcher::Exact(0x3), asc: CodeMatcher::Exact(0x32), ascq: CodeMatcher::Exact(0x00), condition: WritingError::NoDefectSpareLocationAvailable },
            SenseRule { sense_key: CodeMatcher::Exact(0x3), asc: CodeMatcher::Exact(0x51), ascq: CodeMatcher::Exact(0x00), condition: WritingError::EraseFailure },
            SenseRule { sense_key: CodeMatcher::Exact(0x3), asc: CodeMatcher::Exact(0x51), ascq: CodeMatcher::Exact(0x01), condition: WritingError::EraseFailureIncompleteEraseOperationDetected },
            SenseRule { sense_key: CodeMatcher::OneOf(0x1, 0x3), asc: CodeMatcher::Exact(0x5D), ascq: CodeMatcher::Exact(0x00), condition: WritingError::FailurePredictionThresholdExceeded },
            SenseRule { sense_key: CodeMatcher::OneOf(0x1, 0x3), asc: CodeMatcher::Exact(0x5D), ascq: CodeMatcher::Exact(0x01), condition: WritingError::MediaFailurePredictionThresholdExceeded },
            SenseRule { sense_key: CodeMatcher::OneOf(0x1, 0x3), asc: CodeMatcher::Exact(0x5D), ascq: CodeMatcher::Exact(0x02), condition: WritingError::LogicalUnitFailurePredictionThresholdExceeded },
            SenseRule { sense_key: CodeMatcher::OneOf(0x1, 0x3), asc: CodeMatcher::Exact(0x5D), ascq: CodeMatcher::Exact(0x03), condition: WritingError::FailurePredictionThresholdExceededPredictedSpareAreaExhaustion },
            SenseRule { sense_key: CodeMatcher::Exact(0x1), asc: CodeMatcher::Exact(0x5D), ascq: CodeMatcher::Exact(0xFF), condition: WritingError::FailurePredictionThresholdExceededFalse },
            SenseRule { sense_key: CodeMatcher::Exact(0x3), asc: CodeMatcher::Exact(0x72), ascq: CodeMatcher::Exact(0x00), condition: WritingError::SessionFixationError },
            SenseRule { sense_key: CodeMatcher::Exact(0x3), asc: CodeMatcher::Exact(0x72), ascq: CodeMatcher::Exact(0x01), condition: WritingError::SessionFixationErrorWritingLeadIn },
            SenseRule { sense_key: CodeMatcher::Exact(0x3), asc: CodeMatcher::Exact(0x72), ascq: CodeMatcher::Exact(0x02), condition: WritingError::SessionFixationErrorWritingLeadOut },
            SenseRule { sense_key: CodeMatcher::Exact(0x5), asc: CodeMatcher::Exact(0x72), ascq: CodeMatcher::Exact(0x03), condition: WritingError::SessionFixationErrorIncompleteTrackInSession },
            SenseRule { sense_key: CodeMatcher::Exact(0x5), asc: CodeMatcher::Exact(0x72), ascq: CodeMatcher::Exact(0x04), condition: WritingError::EmptyOrPartiallyWrittenReservedTrack },
            SenseRule { sense_key: CodeMatcher::Exact(0x5), asc: CodeMatcher::Exact(0x72), ascq: CodeMatcher::Exact(0x05), condition: WritingError::NoMoreTrackReservationsAllowed },
            SenseRule { sense_key: CodeMatcher::Exact(0x5), asc: CodeMatcher::Exact(0x72), ascq: CodeMatcher::Exact(0x06), condition: WritingError::RmzExtensionIsNotAllowed },
            SenseRule { sense_key: CodeMatcher::Exact(0x5), asc: CodeMatcher::Exact(0x72), ascq: CodeMatcher::Exact(0x07), condition: WritingError::NoMoreTestZoneExtensionsAreAllowed },
            SenseRule { sense_key: CodeMatcher::Exact(0x1), asc: CodeMatcher::Exact(0x73), ascq: CodeMatcher::Exact(0x01), condition: WritingError::PowerCalibrationAreaAlmostFull },
            SenseRule { sense_key: CodeMatcher::Exact(0x3), asc: CodeMatcher::Exact(0x73), ascq: CodeMatcher::Exact(0x02), condition: WritingError::PowerCalibrationAreaIsFull },
            SenseRule { sense_key: CodeMatcher::Exact(0x3), asc: CodeMatcher::Exact(0x73), ascq: CodeMatcher::Exact(0x03), condition: WritingError::PowerCalibrationAreaError },
            SenseRule { sense_key: CodeMatcher::Exact(0x3), asc: CodeMatcher::Exact(0x73), ascq: CodeMatcher::Exact(0x04), condition: WritingError::ProgramMemoryAreaUpdateFailure },
            SenseRule { sense_key: CodeMatcher::Exact(0x3), asc: CodeMatcher::Exact(0x73), ascq: CodeMatcher::Exact(0x05), condition: WritingError::ProgramMemoryAreaIsFull },
            SenseRule { sense_key: CodeMatcher::Exact(0x1), asc: CodeMatcher::Exact(0x73), ascq: CodeMatcher::Exact(0x06), condition: WritingError::RmaPmaIsAlmostFull },
            SenseRule { sense_key: CodeMatcher::Exact(0x3), asc: CodeMatcher::Exact(0x73), ascq: CodeMatcher::Exact(0x10), condition: WritingError::CurrentPowerCalibrationAreaIsAlmostFull },
            SenseRule { sense_key: CodeMatcher::Exact(0x3), asc: CodeMatcher::Exact(0x73), ascq: CodeMatcher::Exact(0x11), condition: WritingError::CurrentPowerCalibrationAreaIsFull },
            SenseRule { sense_key: CodeMatcher::Exact(0x5), asc: CodeMatcher::Exact(0x73), ascq: CodeMatcher::Exact(0x17), condition: WritingError::RdzIsFull },
            SenseRule { sense_key: CodeMatcher::Exact(0x8), asc: CodeMatcher::Wildcard, ascq: CodeMatcher::Wildcard, condition: WritingError::BlankCheck },
        ]
    }

    /// Builds the rule table of this category.
    #[verifier::rlimit(100)]
    pub fn rules() -> (r: Vec<SenseRule<WritingError>>)
        ensures
            r@ == Self::spec_rules(),
    {
        let mut v: Vec<SenseRule<WritingError>> = Vec::new();
        v.push(SenseRule { sense_key: CodeMatcher::Exact(0x3), asc: CodeMatcher::Exact(0x0C), ascq: CodeMatcher::Exact(0x00), condition: WritingError::WriteError });
        v.push(SenseRule { sense_key: CodeMatcher::Exact(0x3), asc: CodeMatcher::Exact(0x0C), ascq: CodeMatcher::Exact(0x07), condition: WritingError::WriteErrorRecoveryNeeded });
        v.push(SenseRule { sense_key: CodeMatcher::Exact(0x3), asc: CodeMatcher::Exact(0x0C), ascq: CodeMatcher::Exact(0x08), condition: WritingError::WriteErrorRecoveryFailed });
        v.push(SenseRule { sense_key: CodeMatcher::Exact(0x3), asc: CodeMatcher::Exact(0x0C), ascq: CodeMatcher::Exact(0x09), condition: WritingError::WriteErrorLossOfStreaming });
        v.push(SenseRule { sense_key: CodeMatcher::Exact(0x3), asc: CodeMatcher::Exact(0x0C), ascq: CodeMatcher::Exact(0x0A), condition: WritingError::WriteErrorPaddingBlocksAdded });
        v.push(SenseRule { sense_key: CodeMatcher::Exact(0x7), asc: CodeMatcher::Exact(0x27), ascq: CodeMatcher::Exact(0x00), condition: WritingError::WriteProtected });
        v.push(SenseRule { sense_key: CodeMatcher::Exact(0x7), asc: CodeMatcher::Exact(0x27), ascq: CodeMatcher::Exact(0x01), condition: WritingError::HardwareWriteProtected });
        v.push(SenseRule { sense_key: CodeMatcher::Exact(0x7), asc: CodeMatcher::Exact(0x27), ascq: CodeMatcher::Exact(0x02), condition: WritingError::LogicalUnitSoftwareWriteProtected });
        v.push(SenseRule { sense_key: CodeMatcher::Exact(0x7), asc: CodeMatcher::Exact(0x27), ascq: CodeMatcher::Exact(0x03), condition: WritingError::AssociatedWriteProtect });
        v.push(SenseRule { sense_key: CodeMatcher::Exact(0x7), asc: CodeMatcher::Exact(0x27), ascq: CodeMatcher::Exact(0x04), condition: WritingError::PersistentWriteProtect });
        v.push(SenseRule { sense_key: CodeMatcher::Exact(0x7), asc: CodeMatcher::Exact(0x27), ascq: CodeMatcher::Exact(0x05), condition: WritingError::PermanentWriteProtect });
        v.push(SenseRule { sense_key: CodeMatcher::Exact(0x7), asc: CodeMatcher::Exact(0x27), ascq: CodeMatcher::Exact(0x06), condition: WritingError::ConditionalWriteProtect });
        v.push(SenseRule { sense_key: CodeMatcher::Exact(0x2), asc: CodeMatcher::Exact(0x30), ascq: CodeMatcher::Exact(0x04), condition: WritingError::CannotWriteMediumUnknownFormat });
        v.push(SenseRule { sense_key: CodeMatcher::Exact(0x2), asc: CodeMatcher::Exact(0x30), ascq: CodeMatcher::Exact(0x05), condition: WritingError::CannotWriteMediumIncompatibleFormat });
        v.push(SenseRule { sense_key: CodeMatcher::Exact(0x2), asc: CodeMatcher::Exact(0x30), ascq: CodeMatcher::Exact(0x06), condition: WritingError::CannotFormatMediumIncompatibleMedium });
        v.push(SenseRule { sense_key: CodeMatcher::Exact(0x2), asc: CodeMatcher::Exact(0x30), ascq: CodeMatcher::Exact(0x07), condition: WritingError::CleaningFailure });
        v.push(SenseRule { sense_key: CodeMatcher::Exact(0x5), asc: CodeMatcher::Exact(0x30), ascq: CodeMatcher::Exact(0x08), condition: WritingError::CannotWriteApplicationCodeMismatch });
        v.push(SenseRule { sense_key: CodeMatcher::Exact(0x5), asc: CodeMatcher::Exact(0x30), ascq: CodeMatcher::Exact(0x09), condition: WritingError::CurrentSessionNotFixatedForAppend });
        v.push(SenseRule { sense_key: CodeMatcher::Exact(0x5), asc: CodeMatcher::Exact(0x30), ascq: CodeMatcher::Exact(0x10), condition: WritingError::MediumNotFormatted });
        v.push(SenseRule { sense_key: CodeMatcher::Exact(0x2), asc: CodeMatcher::Exact(0x30), ascq: CodeMatcher::Exact(0x11), condition: WritingError::CannotWriteMediumUnsupportedMediumVersion });
        v.push(SenseRule { sense_key: CodeMatcher::Exact(0x3), asc: CodeMatcher::Exact(0x31), ascq: CodeMatcher::Exact(0x00), condition: WritingError::MediumFormatCorrupted });
        v.push(SenseRule { sense_key: CodeMatcher::Exact(0x3), asc: CodeMatcher::Exact(0x31), ascq: CodeMatcher::Exact(0x01), condition: WritingError::FormatCommandFailed });
        v.push(SenseRule { sense_key: CodeMatcher::Exact(0x3), asc: CodeMatcher::Exact(0x31), ascq: CodeMatcher::Exact(0x02), condition: WritingError::ZonedFormattingFailedDueToSpareLinking });
        v.push(SenseRule { sense_key: CodeMatcher::Exact(0x3), asc: CodeMatcher::Exact(0x32), ascq: CodeMatcher::Exact(0x00), condition: WritingError::NoDefectSpareLocationAvailable });
        v.push(SenseRule { sense_key: CodeMatcher::Exact(0x3), asc: CodeMatcher::Exact(0x51), ascq: CodeMatcher::Exact(0x00), condition: WritingError::EraseFailure });
        v.push(SenseRule { sense_key: CodeMatcher::Exact(0x3), asc: CodeMatcher::Exact(0x51), ascq: CodeMatcher::Exact(0x01), condition: WritingError::EraseFailureIncompleteEraseOperationDetected });
        v.push(SenseRule { sense_key: CodeMatcher::OneOf(0x1, 0x3), asc: CodeMatcher::Exact(0x5D), ascq: CodeMatcher::Exact(0x00), condition: WritingError::FailurePredictionThresholdExceeded });
        v.push(SenseRule { sense_key: CodeMatcher::OneOf(0x1, 0x3), asc: CodeMatcher::Exact(0x5D), ascq: CodeMatcher::Exact(0x01), condition: WritingError::MediaFailurePredictionThresholdExceeded });
        v.push(SenseRule { sense_key: CodeMatcher::OneOf(0x1, 0x3), asc: CodeMatcher::Exact(0x5D), ascq: CodeMatcher::Exact(0x02), condition: WritingError::LogicalUnitFailurePredictionThresholdExceeded });
        v.push(SenseRule { sense_key: CodeMatcher::OneOf(0x1, 0x3), asc: CodeMatcher::Exact(0x5D), ascq: CodeMatcher::Exact(0x03), condition: WritingError::FailurePredictionThresholdExceededPredictedSpareAreaExhaustion });
        v.push(SenseRule { sense_key: CodeMatcher::Exact(0x1), asc: CodeMatcher::Exact(0x5D), ascq: CodeMatcher::Exact(0xFF), condition: WritingError::FailurePredictionThresholdExceededFalse });
        v.push(SenseRule { sense_key: CodeMatcher::Exact(0x3), asc: CodeMatcher::Exact(0x72), ascq: CodeMatcher::Exact(0x00), condition: WritingError::SessionFixationError });
        v.push(SenseRule { sense_key: CodeMatcher::Exact(0x3), asc: CodeMatcher::Exact(0x72), ascq: CodeMatcher::Exact(0x01), condition: WritingError::SessionFixationErrorWritingLeadIn });
        v.push(SenseRule { sense_key: CodeMatcher::Exact(0x3), asc: CodeMatcher::Exact(0x72), ascq: CodeMatcher::Exact(0x02), condition: WritingError::SessionFixationErrorWritingLeadOut });
        v.push(SenseRule { sense_key: CodeMatcher::Exact(0x5), asc: CodeMatcher::Exact(0x72), ascq: CodeMatcher::Exact(0x03), condition: WritingError::SessionFixationErrorIncompleteTrackInSession });
        v.push(SenseRule { sense_key: CodeMatcher::Exact(0x5), asc: CodeMatcher::Exact(0x72), ascq: CodeMatcher::Exact(0x04), condition: WritingError::EmptyOrPartiallyWrittenReservedTrack });
        v.push(SenseRule { sense_key: CodeMatcher::Exact(0x5), asc: CodeMatcher::Exact(0x72), ascq: CodeMatcher::Exact(0x05), condition: WritingError::NoMoreTrackReservationsAllowed });
        v.push(SenseRule { sense_key: CodeMatcher::Exact(0x5), asc: CodeMatcher::Exact(0x72), ascq: CodeMatcher::Exact(0x06), condition: WritingError::RmzExtensionIsNotAllowed });
        v.push(SenseRule { sense_key: CodeMatcher::Exact(0x5), asc: CodeMatcher::Exact(0x72), ascq: CodeMatcher::Exact(0x07), condition: WritingError::NoMoreTestZoneExtensionsAreAllowed });
        v.push(SenseRule { sense_key: CodeMatcher::Exact(0x1), asc: CodeMatcher::Exact(0x73), ascq: CodeMatcher::Exact(0x01), condition: WritingError::PowerCalibrationAreaAlmostFull });
        v.push(SenseRule { sense_key: CodeMatcher::Exact(0x3), asc: CodeMatcher::Exact(0x73), ascq: CodeMatcher::Exact(0x02), condition: WritingError::PowerCalibrationAreaIsFull });
        v.push(SenseRule { sense_key: CodeMatcher::Exact(0x3), asc: CodeMatcher::Exact(0x73), ascq: CodeMatcher::Exact(0x03), condition: WritingError::PowerCalibrationAreaError });
        v.push(SenseRule { sense_key: CodeMatcher::Exact(0x3), asc: CodeMatcher::Exact(0x73), ascq: CodeMatcher::Exact(0x04), condition: WritingError::ProgramMemoryAreaUpdateFailure });
        v.push(SenseRule { sense_key: CodeMatcher::Exact(0x3), asc: CodeMatcher::Exact(0x73), ascq: CodeMatcher::Exact(0x05), condition: WritingError::ProgramMemoryAreaIsFull });
        v.push(SenseRule { sense_key: CodeMatcher::Exact(0x1), asc: CodeMatcher::Exact(0x73), ascq: CodeMatcher::Exact(0x06), condition: WritingError::RmaPmaIsAlmostFull });
        v.push(SenseRule { sense_key: CodeMatcher::Exact(0x3), asc: CodeMatcher::Exact(0x73), ascq: CodeMatcher::Exact(0x10), condition: WritingError::CurrentPowerCalibrationAreaIsAlmostFull });
        v.push(SenseRule { sense_key: CodeMatcher::Exact(0x3), asc: CodeMatcher::Exact(0x73), ascq: CodeMatcher::Exact(0x11), condition: WritingError::CurrentPowerCalibrationAreaIsFull });
        v.push(SenseRule { sense_key: CodeMatcher::Exact(0x5), asc: CodeMatcher::Exact(0x73), ascq: CodeMatcher::Exact(0x17), condition: WritingError::RdzIsFull });
        v.push(SenseRule { sense_key: CodeMatcher::Exact(0x8), asc: CodeMatcher::Wildcard, ascq: CodeMatcher::Wildcard, condition: WritingError::BlankCheck });
        proof {
            assert(v@ =~= Self::spec_rules());
        }
        v
    }

    /// Classifies a sense triple against this category: the first rule
    /// whose three patterns all match, in declared order, decides.
    pub fn from_codes(sense_key: u8, asc: u8, ascq: u8) -> (r: Option<Self>)
        ensures
            r == spec_classify(Self::spec_rules(), sense_key, asc, ascq),
    {
        let rules = Self::rules();
        classify(&rules, sense_key, asc, ascq)
    }
}

// ==== HardwareFailure: 30 rules ====
#[derive(Clone, Copy, Debug, PartialEq, Eq)]
pub enum HardwareFailure {
    /// CLEANING REQUESTED
    CleaningRequested,
    /// LOGICAL UNIT DOES NOT RESPOND TO SELECTION
    LogicalUnitDoesNotRespondToSelection,
    /// LOGICAL UNIT COMMUNICATION FAILURE
    LogicalUnitCommunicationFailure,
    /// LOGICAL UNIT COMMUNICATION TIMEOUT
    LogicalUnitCommunicationTimeout,
    /// LOGICAL UNIT COMMUNICATION PARITY ERROR
    LogicalUnitCommunicationParityError,
    /// LOGICAL UNIT COMMUNICATION CRC ERROR (ULTRA-DMA/32)
    LogicalUnitCommunicationCrcErrorUltraDma32,
    /// TRACK FOLLOWING ERROR
    TrackFollowingError,
    /// TRACKING SERVO FAILURE
    TrackingServoFailure,
    /// FOCUS SERVO FAILURE
    FocusServoFailure,
    /// SPINDLE SERVO FAILURE
    SpindleServoFailure,
    /// HEAD SELECT FAULT
    HeadSelectFault,
    /// RANDOM POSITIONING ERROR
    RandomPositioningError,
    /// MECHANICAL POSITIONING ERROR
    MechanicalPositioningError,
    /// SYNCHRONOUS DATA TRANSFER ERROR
    SynchronousDataTransferError,
    /// MECHANICAL POSITIONING OR CHANGER ERROR
    MechanicalPositioningOrChangerError,
    /// LOGICAL UNIT FAILURE
    LogicalUnitFailure,
    /// TIMEOUT ON LOGICAL UNIT
    TimeoutOnLogicalUnit,
    /// DIAGNOSTIC FAILURE ON COMPONENT NN (80H-FFH)
    DiagnosticFailureOnComponentNN,
    /// INTERNAL TARGET FAILURE
    InternalTargetFailure,
    /// UNSUCCESSFUL SOFT RESET
    UnsuccessfulSoftReset,
    /// SCSI PARITY ERROR
    ScsiParityError,
    /// COMMAND PHASE ERROR
    CommandPhaseError,
    /// DATA PHASE ERROR
    DataPhaseError,
    /// LOGICAL UNIT FAILED SELF-CONFIGURATION
    LogicalUnitFailedSelfConfiguration,
    /// MEDIA LOAD OR EJECT FAILED
    MediaLoadOrEjectFailed,
    /// FAILURE PREDICTION THRESHOLD EXCEEDED – Predicted Media failure
    FailurePredictionThresholdExceededPredictedMediaFailure,
    /// LOGICAL UNIT FAILURE PREDICTION THRESHOLD EXCEEDED
    LogicalUnitFailurePredictionThresholdExceeded,
    /// FAILURE PREDICTION THRESHOLD EXCEEDED – Predicted Spare Area Exhaustion
    FailurePredictionThresholdExceededPredictedSpareAreaExhaustion,
    /// FAILURE PREDICTION THRESHOLD EXCEEDED (FALSE)
    FailurePredictionThresholdExceededFalse,
    /// VOLTAGE FAULT
    VoltageFault,
}

impl HardwareFailure {
    /// The ordered rule table of this category, in declared order.
    pub open spec fn spec_rules() -> Seq<SenseRule<HardwareFailure>> {
        seq![
            SenseRule { sense_key: CodeMatcher::Exact(0x4), asc: CodeMatcher::Exact(0x00), ascq: CodeMatcher::Exact(0x17), condition: HardwareFailure::CleaningRequested },
            SenseRule { sense_key: CodeMatcher::Exact(0x4), asc: CodeMatcher::Exact(0x05), ascq: CodeMatcher::Exact(0x00), condition: HardwareFailure::LogicalUnitDoesNotRespondToSelection },
            SenseRule { sense_key: CodeMatcher::Exact(0x4), asc: CodeMatcher::Exact(0x08), ascq: CodeMatcher::Exact(0x00), condition: HardwareFailure::LogicalUnitCommunicationFailure },
            SenseRule { sense_key: CodeMatcher::Exact(0x4), asc: CodeMatcher::Exact(0x08), ascq: CodeMatcher::Exact(0x01), condition: HardwareFailure::LogicalUnitCommunicationTimeout },
            SenseRule { sense_key: CodeMatcher::Exact(0x4), asc: CodeMatcher::Exact(0x08), ascq: CodeMatcher::Exact(0x02), condition: HardwareFailure::LogicalUnitCommunicationParityError },
            SenseRule { sense_key: CodeMatcher::Exact(0x4), asc: CodeMatcher::Exact(0x08), ascq: CodeMatcher::Exact(0x03), condition: HardwareFailure::LogicalUnitCommunicationCrcErrorUltraDma32 },
            SenseRule { sense_key: CodeMatcher::Exact(0x4), asc: CodeMatcher::Exact(0x09), ascq: CodeMatcher::Exact(0x00), condition: HardwareFailure::TrackFollowingError },
            SenseRule { sense_key: CodeMatcher::Exact(0x4), asc: CodeMatcher::Exact(0x09), ascq: CodeMatcher::Exact(0x01), condition: HardwareFailure::TrackingServoFailure },
            SenseRule { sense_key: CodeMatcher::Exact(0x4), asc: CodeMatcher::Exact(0x09), ascq: CodeMatcher::Exact(0x02), condition: HardwareFailure::FocusServoFailure },
            SenseRule { sense_key: CodeMatcher::Exact(0x4), asc: CodeMatcher::Exact(0x09), ascq: CodeMatcher::Exact(0x03), condition: HardwareFailure::SpindleServoFailure },
            SenseRule { sense_key: CodeMatcher::Exact(0x4), asc: CodeMatcher::Exact(0x09), ascq: CodeMatcher::Exact(0x04), condition: HardwareFailure::HeadSelectFault },
            SenseRule { sense_key: CodeMatcher::Exact(0x4), asc: CodeMatcher::Exact(0x15), ascq: CodeMatcher::Exact(0x00), condition: HardwareFailure::RandomPositioningError },
            SenseRule { sense_key: CodeMatcher::Exact(0x4), asc: CodeMatcher::Exact(0x15), ascq: CodeMatcher::Exact(0x01), condition: HardwareFailure::MechanicalPositioningError },
            SenseRule { sense_key: CodeMatcher::Exact(0x4), asc: CodeMatcher::Exact(0x1B), ascq: CodeMatcher::Exact(0x00), condition: HardwareFailure::SynchronousDataTransferError },
            SenseRule { sense_key: CodeMatcher::Exact(0x4), asc: CodeMatcher::Exact(0x3B), ascq: CodeMatcher::Exact(0x16), condition: HardwareFailure::MechanicalPositioningOrChangerError },
            SenseRule { sense_key: CodeMatcher::Exact(0x4), asc: CodeMatcher::Exact(0x3E), ascq: CodeMatcher::Exact(0x01), condition: HardwareFailure::LogicalUnitFailure },
            SenseRule { sense_key: CodeMatcher::Exact(0x4), asc: CodeMatcher::Exact(0x3E), ascq: CodeMatcher::Exact(0x02), condition: HardwareFailure::TimeoutOnLogicalUnit },
            SenseRule { sense_key: CodeMatcher::Exact(0x4), asc: CodeMatcher::Exact(0x40), ascq: CodeMatcher::Range(Some(0x80), Some(0xFF)), condition: HardwareFailure::DiagnosticFailureOnComponentNN },
            SenseRule { sense_key: CodeMatcher::Exact(0x4), asc: CodeMatcher::Exact(0x44), ascq: CodeMatcher::Exact(0x00), condition: HardwareFailure::InternalTargetFailure },
            SenseRule { sense_key: CodeMatcher::Exact(0x4), asc: CodeMatcher::Exact(0x46), ascq: CodeMatcher::Exact(0x00), condition: HardwareFailure::UnsuccessfulSoftReset },
            SenseRule { sense_key: CodeMatcher::Exact(0x4), asc: CodeMatcher::Exact(0x47), ascq: CodeMatcher::Exact(0x00), condition: HardwareFailure::ScsiParityError },
            SenseRule { sense_key: CodeMatcher::Exact(0x4), asc: CodeMatcher::Exact(0x4A), ascq: CodeMatcher::Exact(0x00), condition: HardwareFailure::CommandPhaseError },
            SenseRule { sense_key: CodeMatcher::Exact(0x4), asc: CodeMatcher::Exact(0x4B), ascq: CodeMatcher::Exact(0x00), condition: HardwareFailure::DataPhaseError },
            SenseRule { sense_key: CodeMatcher::Exact(0x4), asc: CodeMatcher::Exact(0x4C), ascq: CodeMatcher::Exact(0x00), condition: HardwareFailure::LogicalUnitFailedSelfConfiguration },
            SenseRule { sense_key: CodeMatcher::Exact(0x4), asc: CodeMatcher::Exact(0x53), ascq: CodeMatcher::Exact(0x00), condition: HardwareFailure::MediaLoadOrEjectFailed },
            SenseRule { sense_key: CodeMatcher::Exact(0x1), asc: CodeMatcher::Exact(0x5D), ascq: CodeMatcher::Exact(0x01), condition: HardwareFailure::FailurePredictionThresholdExceededPredictedMediaFailure },
            SenseRule { sense_key: CodeMatcher::Exact(0x1), asc: CodeMatcher::Exact(0x5D), ascq: CodeMatcher::Exact(0x02), condition: HardwareFailure::LogicalUnitFailurePredictionThresholdExceeded },
            SenseRule { sense_key: CodeMatcher::Exact(0x1), asc: CodeMatcher::Exact(0x5D), ascq: CodeMatcher::Exact(0x03), condition: HardwareFailure::FailurePredictionThresholdExceededPredictedSpareAreaExhaustion },
            SenseRule { sense_key: CodeMatcher::Exact(0x1), asc: CodeMatcher::Exact(0x5D), ascq: CodeMatcher::Exact(0xFF), condition: HardwareFailure::FailurePredictionThresholdExceededFalse },
            SenseRule { sense_key: CodeMatcher::Exact(0x4), asc: CodeMatcher::Exact(0x65), ascq: CodeMatcher::Exact(0x00), condition: HardwareFailure::VoltageFault },
        ]
    }

    /// Builds the rule table of this category.
    #[verifier::rlimit(100)]
    pub fn rules() -> (r: Vec<SenseRule<HardwareFailure>>)
        ensures
            r@ == Self::spec_rules(),
    {
        let mut v: Vec<SenseRule<HardwareFailure>> = Vec::new();
        v.push(SenseRule { sense_key: CodeMatcher::Exact(0x4), asc: CodeMatcher::Exact(0x00), ascq: CodeMatcher::Exact(0x17), condition: HardwareFailure::CleaningRequested });
        v.push(SenseRule { sense_key: CodeMatcher::Exact(0x4), asc: CodeMatcher::Exact(0x05), ascq: CodeMatcher::Exact(0x00), condition: HardwareFailure::LogicalUnitDoesNotRespondToSelection });
        v.push(SenseRule { sense_key: CodeMatcher::Exact(0x4), asc: CodeMatcher::Exact(0x08), ascq: CodeMatcher::Exact(0x00), condition: HardwareFailure::LogicalUnitCommunicationFailure });
        v.push(SenseRule { sense_key: CodeMatcher::Exact(0x4), asc: CodeMatcher::Exact(0x08), ascq: CodeMatcher::Exact(0x01), condition: HardwareFailure::LogicalUnitCommunicationTimeout });
        v.push(SenseRule { sense_key: CodeMatcher::Exact(0x4), asc: CodeMatcher::Exact(0x08), ascq: CodeMatcher::Exact(0x02), condition: HardwareFailure::LogicalUnitCommunicationParityError });
        v.push(SenseRule { sense_key: CodeMatcher::Exact(0x4), asc: CodeMatcher::Exact(0x08), ascq: CodeMatcher::Exact(0x03), condition: HardwareFailure::LogicalUnitCommunicationCrcErrorUltraDma32 });
        v.push(SenseRule { sense_key: CodeMatcher::Exact(0x4), asc: CodeMatcher::Exact(0x09), ascq: CodeMatcher::Exact(0x00), condition: HardwareFailure::TrackFollowingError });
        v.push(SenseRule { sense_key: CodeMatcher::Exact(0x4), asc: CodeMatcher::Exact(0x09), ascq: CodeMatcher::Exact(0x01), condition: HardwareFailure::TrackingServoFailure });
        v.push(SenseRule { sense_key: CodeMatcher::Exact(0x4), asc: CodeMatcher::Exact(0x09), ascq: CodeMatcher::Exact(0x02), condition: HardwareFailure::FocusServoFailure });
        v.push(SenseRule { sense_key: CodeMatcher::Exact(0x4), asc: CodeMatcher::Exact(0x09), ascq: CodeMatcher::Exact(0x03), condition: HardwareFailure::SpindleServoFailure });
        v.push(SenseRule { sense_key: CodeMatcher::Exact(0x4), asc: CodeMatcher::Exact(0x09), ascq: CodeMatcher::Exact(0x04), condition: HardwareFailure::HeadSelectFault });
        v.push(SenseRule { sense_key: CodeMatcher::Exact(0x4), asc: CodeMatcher::Exact(0x15), ascq: CodeMatcher::Exact(0x00), condition: HardwareFailure::RandomPositioningError });
        v.push(SenseRule { sense_key: CodeMatcher::Exact(0x4), asc: CodeMatcher::Exact(0x15), ascq: CodeMatcher::Exact(0x01), condition: HardwareFailure::MechanicalPositioningError });
        v.push(SenseRule { sense_key: CodeMatcher::Exact(0x4), asc: CodeMatcher::Exact(0x1B), ascq: CodeMatcher::Exact(0x00), condition: HardwareFailure::SynchronousDataTransferError });
        v.push(SenseRule { sense_key: CodeMatcher::Exact(0x4), asc: CodeMatcher::Exact(0x3B), ascq: CodeMatcher::Exact(0x16), condition: HardwareFailure::MechanicalPositioningOrChangerError });
        v.push(SenseRule { sense_key: CodeMatcher::Exact(0x4), asc: CodeMatcher::Exact(0x3E), ascq: CodeMatcher::Exact(0x01), condition: HardwareFailure::LogicalUnitFailure });
        v.push(SenseRule { sense_key: CodeMatcher::Exact(0x4), asc: CodeMatcher::Exact(0x3E), ascq: CodeMatcher::Exact(0x02), condition: HardwareFailure::TimeoutOnLogicalUnit });
        v.push(SenseRule { sense_key: CodeMatcher::Exact(0x4), asc: CodeMatcher::Exact(0x40), ascq: CodeMatcher::Range(Some(0x80), Some(0xFF)), condition: HardwareFailure::DiagnosticFailureOnComponentNN });
        v.push(SenseRule { sense_key: CodeMatcher::Exact(0x4), asc: CodeMatcher::Exact(0x44), ascq: CodeMatcher::Exact(0x00), condition: HardwareFailure::InternalTargetFailure });
        v.push(SenseRule { sense_key: CodeMatcher::Exact(0x4), asc: CodeMatcher::Exact(0x46), ascq: CodeMatcher::Exact(0x00), condition: HardwareFailure::UnsuccessfulSoftReset });
        v.push(SenseRule { sense_key: CodeMatcher::Exact(0x4), asc: CodeMatcher::Exact(0x47), ascq: CodeMatcher::Exact(0x00), condition: HardwareFailure::ScsiParityError });
        v.push(SenseRule { sense_key: CodeMatcher::Exact(0x4), asc: CodeMatcher::Exact(0x4A), ascq: CodeMatcher::Exact(0x00), condition: HardwareFailure::CommandPhaseError });
        v.push(SenseRule { sense_key: CodeMatcher::Exact(0x4), asc: CodeMatcher::Exact(0x4B), ascq: CodeMatcher::Exact(0x00), condition: HardwareFailure::DataPhaseError });
        v.push(SenseRule { sense_key: CodeMatcher::Exact(0x4), asc: CodeMatcher::Exact(0x4C), ascq: CodeMatcher::Exact(0x00), condition: HardwareFailure::LogicalUnitFailedSelfConfiguration });
        v.push(SenseRule { sense_key: CodeMatcher::Exact(0x4), asc: CodeMatcher::Exact(0x53), ascq: CodeMatcher::Exact(0x00), condition: HardwareFailure::MediaLoadOrEjectFailed });
        v.push(SenseRule { sense_key: CodeMatcher::Exact(0x1), asc: CodeMatcher::Exact(0x5D), ascq: CodeMatcher::Exact(0x01), condition: HardwareFailure::FailurePredictionThresholdExceededPredictedMediaFailure });
        v.push(SenseRule { sense_key: CodeMatcher::Exact(0x1), asc: CodeMatcher::Exact(0x5D), ascq: CodeMatcher::Exact(0x02), condition: HardwareFailure::LogicalUnitFailurePredictionThresholdExceeded });
        v.push(SenseRule { sense_key: CodeMatcher::Exact(0x1), asc: CodeMatcher::Exact(0x5D), ascq: CodeMatcher::Exact(0x03), condition: HardwareFailure::FailurePredictionThresholdExceededPredictedSpareAreaExhaustion });
        v.push(SenseRule { sense_key: CodeMatcher::Exact(0x1), asc: CodeMatcher::Exact(0x5D), ascq: CodeMatcher::Exact(0xFF), condition: HardwareFailure::FailurePredictionThresholdExceededFalse });
        v.push(SenseRule { sense_key: CodeMatcher::Exact(0x4), asc: CodeMatcher::Exact(0x65), ascq: CodeMatcher::Exact(0x00), condition: HardwareFailure::VoltageFault });
        proof {
            assert(v@ =~= Self::spec_rules());
        }
        v
    }

    /// Classifies a sense triple against this category: the first rule
    /// whose three patterns all match, in declared order, decides.
    pub fn from_codes(sense_key: u8, asc: u8, ascq: u8) -> (r: Option<Self>)
        ensures
            r == spec_classify(Self::spec_rules(), sense_key, asc, ascq),
    {
        let rules = Self::rules();
        classify(&rules, sense_key, asc, ascq)
    }
}

// ==== NonATAPIEnvironmentError: 27 rules ====
#[derive(Clone, Copy, Debug, PartialEq, Eq)]
pub enum NonATAPIEnvironmentError {
    /// I/O PROCESS TERMINATED
    IOProcessTerminated,
    /// MULTIPLE PERIPHERAL DEVICES SELECTED
    MultiplePeripheralDevicesSelected,
    /// LOGICAL UNIT COMMUNICATION CRC ERROR (ULTRA-DMA/32)
    LogicalUnitCommunicationCrcErrorUltraDma32,
    /// HEAD SELECT FAULT
    HeadSelectFault,
    /// WARNING
    Warning,
    /// WARNING – SPECIFIED TEMPERATURE EXCEEDED
    WarningSpecifiedTemperatureExceeded,
    /// WARNING – ENCLOSURE DEGRADED
    WarningEnclosureDegraded,
    /// SYNCHRONOUS DATA TRANSFER ERROR
    SynchronousDataTransferError,
    /// LOGICAL UNIT NOT SUPPORTED
    LogicalUnitNotSupported,
    /// RESERVATIONS PREEMPTED
    ReservationsPreempted,
    /// COPY CANNOT EXECUTE SINCE INITIATOR CANNOT DISCONNECT
    CopyCannotExecuteSinceInitiatorCannotDisconnect,
    /// COMMANDS CLEARED BY ANOTHER INITIATOR
    CommandsClearedByAnotherInitiator,
    /// ENCLOSURE FAILURE
    EnclosureFailure,
    /// ENCLOSURE SERVICES FAILURE
    EnclosureServicesFailure,
    /// UNSUPPORTED ENCLOSURE FUNCTION
    UnsupportedEnclosureFunction,
    /// ENCLOSURE SERVICES UNAVAILABLE
    EnclosureServicesUnavailable,
    /// ENCLOSURE SERVICES TRANSFER FAILURE
    EnclosureServicesTransferFailure,
    /// ENCLOSURE SERVICES TRANSFER REFUSED
    EnclosureServicesTransferRefused,
    /// INVALID BITS IN IDENTIFY MESSAGE
    InvalidBitsInIdentifyMessage,
    /// MESSAGE ERROR
    MessageError,
    /// SELECT OR RESELECT FAILURE
    SelectOrReselectFailure,
    /// SCSI PARITY ERROR
    ScsiParityError,
    /// INITIATOR DETECTED ERROR MESSAGE RECEIVED
    InitiatorDetectedErrorMessageReceived,
    /// INVALID MESSAGE ERROR
    InvalidMessageError,
    /// COMMAND PHASE ERROR
    CommandPhaseError,
    /// DATA PHASE ERROR
    DataPhaseError,
    /// TAGGED OVERLAPPED COMMANDS (NN = QUEUE TAG)
    TaggedOverlappedCommandsNN,
}

impl NonATAPIEnvironmentError {
    /// The ordered rule table of this category, in declared order.
    pub open spec fn spec_rules() -> Seq<SenseRule<NonATAPIEnvironmentError>> {
        seq![
            SenseRule { sense_key: CodeMatcher::Exact(0xB), asc: CodeMatcher::Exact(0x00), ascq: CodeMatcher::Exact(0x06), condition: NonATAPIEnvironmentError::IOProcessTerminated },
            SenseRule { sense_key: CodeMatcher::Exact(0x5), asc: CodeMatcher::Exact(0x07), ascq: CodeMatcher::Exact(0x00), condition: NonATAPIEnvironmentError::MultiplePeripheralDevicesSelected },
            SenseRule { sense_key: CodeMatcher::Exact(0x4), asc: CodeMatcher::Exact(0x08), ascq: CodeMatcher::Exact(0x03), condition: NonATAPIEnvironmentError::LogicalUnitCommunicationCrcErrorUltraDma32 },
            SenseRule { sense_key: CodeMatcher::Exact(0x4), asc: CodeMatcher::Exact(0x09), ascq: CodeMatcher::Exact(0x04), condition: NonATAPIEnvironmentError::HeadSelectFault },
            SenseRule { sense_key: CodeMatcher::Exact(0x1), asc: CodeMatcher::Exact(0x0B), ascq: CodeMatcher::Exact(0x00), condition: NonATAPIEnvironmentError::Warning },
            SenseRule { sense_key: CodeMatcher::Exact(0x1), asc: CodeMatcher::Exact(0x0B), ascq: CodeMatcher::Exact(0x01), condition: NonATAPIEnvironmentError::WarningSpecifiedTemperatureExceeded },
            SenseRule { sense_key: CodeMatcher::Exact(0x1), asc: CodeMatcher::Exact(0x0B), ascq: CodeMatcher::Exact(0x02), condition: NonATAPIEnvironmentError::WarningEnclosureDegraded },
            SenseRule { sense_key: CodeMatcher::Exact(0x4), asc: CodeMatcher::Exact(0x1B), ascq: CodeMatcher::Exact(0x00), condition: NonATAPIEnvironmentError::SynchronousDataTransferError },
            SenseRule { sense_key: CodeMatcher::Exact(0x5), asc: CodeMatcher::Exact(0x25), ascq: CodeMatcher::Exact(0x00), condition: NonATAPIEnvironmentError::LogicalUnitNotSupported },
            SenseRule { sense_key: CodeMatcher::Exact(0x6), asc: CodeMatcher::Exact(0x2A), ascq: CodeMatcher::Exact(0x03), condition: NonATAPIEnvironmentError::ReservationsPreempted },
            SenseRule { sense_key: CodeMatcher::Exact(0x5), asc: CodeMatcher::Exact(0x2B), ascq: CodeMatcher::Exact(0x00), condition: NonATAPIEnvironmentError::CopyCannotExecuteSinceInitiatorCannotDisconnect },
            SenseRule { sense_key: CodeMatcher::Exact(0x6), asc: CodeMatcher::Exact(0x2F), ascq: CodeMatcher::Exact(0x00), condition: NonATAPIEnvironmentError::CommandsClearedByAnotherInitiator },
            SenseRule { sense_key: CodeMatcher::Wildcard, asc: CodeMatcher::Exact(0x34), ascq: CodeMatcher::Exact(0x00), condition: NonATAPIEnvironmentError::EnclosureFailure },
            SenseRule { sense_key: CodeMatcher::Wildcard, asc: CodeMatcher::Exact(0x35), ascq: CodeMatcher::Exact(0x00), condition: NonATAPIEnvironmentError::EnclosureServicesFailure },
            SenseRule { sense_key: CodeMatcher::Wildcard, asc: CodeMatcher::Exact(0x35), ascq: CodeMatcher::Exact(0x01), condition: NonATAPIEnvironmentError::UnsupportedEnclosureFunction },
            SenseRule { sense_key: CodeMatcher::Wildcard, asc: CodeMatcher::Exact(0x35), ascq: CodeMatcher::Exact(0x02), condition: NonATAPIEnvironmentError::EnclosureServicesUnavailable },
            SenseRule { sense_key: CodeMatcher::Wildcard, asc: CodeMatcher::Exact(0x35), ascq: CodeMatcher::Exact(0x03), condition: NonATAPIEnvironmentError::EnclosureServicesTransferFailure },
            SenseRule { sense_key: CodeMatcher::Wildcard, asc: CodeMatcher::Exact(0x35), ascq: CodeMatcher::Exact(0x04), condition: NonATAPIEnvironmentError::EnclosureServicesTransferRefused },
            SenseRule { sense_key: CodeMatcher::Exact(0x5), asc: CodeMatcher::Exact(0x3D), ascq: CodeMatcher::Exact(0x00), condition: NonATAPIEnvironmentError::InvalidBitsInIdentifyMessage },
            SenseRule { sense_key: CodeMatcher::Exact(0x5), asc: CodeMatcher::Exact(0x43), ascq: CodeMatcher::Exact(0x00), condition: NonATAPIEnvironmentError::MessageError },
            SenseRule { sense_key: CodeMatcher::Exact(0xB), asc: CodeMatcher::Exact(0x45), ascq: CodeMatcher::Exact(0x00), condition: NonATAPIEnvironmentError::SelectOrReselectFailure },
            SenseRule { sense_key: CodeMatcher::Exact(0x4), asc: CodeMatcher::Exact(0x47), ascq: CodeMatcher::Exact(0x00), condition: NonATAPIEnvironmentError::ScsiParityError },
            SenseRule { sense_key: CodeMatcher::Exact(0xB), asc: CodeMatcher::Exact(0x48), ascq: CodeMatcher::Exact(0x00), condition: NonATAPIEnvironmentError::InitiatorDetectedErrorMessageReceived },
            SenseRule { sense_key: CodeMatcher::Exact(0xB), asc: CodeMatcher::Exact(0x49), ascq: CodeMatcher::Exact(0x00), condition: NonATAPIEnvironmentError::InvalidMessageError },
            SenseRule { sense_key: CodeMatcher::Exact(0x4), asc: CodeMatcher::Exact(0x4A), ascq: CodeMatcher::Exact(0x00), condition: NonATAPIEnvironmentError::CommandPhaseError },
            SenseRule { sense_key: CodeMatcher::Exact(0x4), asc: CodeMatcher::Exact(0x4B), ascq: CodeMatcher::Exact(0x00), condition: NonATAPIEnvironmentError::DataPhaseError },
            SenseRule { sense_key: CodeMatcher::Exact(0xB), asc: CodeMatcher::Exact(0x4D), ascq: CodeMatcher::Wildcard, condition: NonATAPIEnvironmentError::TaggedOverlappedCommandsNN },
        ]
    }

    /// Builds the rule table of this category.
    #[verifier::rlimit(100)]
    pub fn rules() -> (r: Vec<SenseRule<NonATAPIEnvironmentError>>)
        ensures
            r@ == Self::spec_rules(),
    {
        let mut v: Vec<SenseRule<NonATAPIEnvironmentError>> = Vec::new();
        v.push(SenseRule { sense_key: CodeMatcher::Exact(0xB), asc: CodeMatcher::Exact(0x00), ascq: CodeMatcher::Exact(0x06), condition: NonATAPIEnvironmentError::IOProcessTerminated });
        v.push(SenseRule { sense_key: CodeMatcher::Exact(0x5), asc: CodeMatcher::Exact(0x07), ascq: CodeMatcher::Exact(0x00), condition: NonATAPIEnvironmentError::MultiplePeripheralDevicesSelected });
        v.push(SenseRule { sense_key: CodeMatcher::Exact(0x4), asc: CodeMatcher::Exact(0x08), ascq: CodeMatcher::Exact(0x03), condition: NonATAPIEnvironmentError::LogicalUnitCommunicationCrcErrorUltraDma32 });
        v.push(SenseRule { sense_key: CodeMatcher::Exact(0x4), asc: CodeMatcher::Exact(0x09), ascq: CodeMatcher::Exact(0x04), condition: NonATAPIEnvironmentError::HeadSelectFault });
        v.push(SenseRule { sense_key: CodeMatcher::Exact(0x1), asc: CodeMatcher::Exact(0x0B), ascq: CodeMatcher::Exact(0x00), condition: NonATAPIEnvironmentError::Warning });
        v.push(SenseRule { sense_key: CodeMatcher::Exact(0x1), asc: CodeMatcher::Exact(0x0B), ascq: CodeMatcher::Exact(0x01), condition: NonATAPIEnvironmentError::WarningSpecifiedTemperatureExceeded });
        v.push(SenseRule { sense_key: CodeMatcher::Exact(0x1), asc: CodeMatcher::Exact(0x0B), ascq: CodeMatcher::Exact(0x02), condition: NonATAPIEnvironmentError::WarningEnclosureDegraded });
        v.push(SenseRule { sense_key: CodeMatcher::Exact(0x4), asc: CodeMatcher::Exact(0x1B), ascq: CodeMatcher::Exact(0x00), condition: NonATAPIEnvironmentError::SynchronousDataTransferError });
        v.push(SenseRule { sense_key: CodeMatcher::Exact(0x5), asc: CodeMatcher::Exact(0x25), ascq: CodeMatcher::Exact(0x00), condition: NonATAPIEnvironmentError::LogicalUnitNotSupported });
        v.push(SenseRule { sense_key: CodeMatcher::Exact(0x6), asc: CodeMatcher::Exact(0x2A), ascq: CodeMatcher::Exact(0x03), condition: NonATAPIEnvironmentError::ReservationsPreempted });
        v.push(SenseRule { sense_key: CodeMatcher::Exact(0x5), asc: CodeMatcher::Exact(0x2B), ascq: CodeMatcher::Exact(0x00), condition: NonATAPIEnvironmentError::CopyCannotExecuteSinceInitiatorCannotDisconnect });
        v.push(SenseRule { sense_key: CodeMatcher::Exact(0x6), asc: CodeMatcher::Exact(0x2F), ascq: CodeMatcher::Exact(0x00), condition: NonATAPIEnvironmentError::CommandsClearedByAnotherInitiator });
        v.push(SenseRule { sense_key: CodeMatcher::Wildcard, asc: CodeMatcher::Exact(0x34), ascq: CodeMatcher::Exact(0x00), condition: NonATAPIEnvironmentError::EnclosureFailure });
        v.push(SenseRule { sense_key: CodeMatcher::Wildcard, asc: CodeMatcher::Exact(0x35), ascq: CodeMatcher::Exact(0x00), condition: NonATAPIEnvironmentError::EnclosureServicesFailure });
        v.push(SenseRule { sense_key: CodeMatcher::Wildcard, asc: CodeMatcher::Exact(0x35), ascq: CodeMatcher::Exact(0x01), condition: NonATAPIEnvironmentError::UnsupportedEnclosureFunction });
        v.push(SenseRule { sense_key: CodeMatcher::Wildcard, asc: CodeMatcher::Exact(0x35), ascq: CodeMatcher::Exact(0x02), condition: NonATAPIEnvironmentError::EnclosureServicesUnavailable });
        v.push(SenseRule { sense_key: CodeMatcher::Wildcard, asc: CodeMatcher::Exact(0x35), ascq: CodeMatcher::Exact(0x03), condition: NonATAPIEnvironmentError::EnclosureServicesTransferFailure });
        v.push(SenseRule { sense_key: CodeMatcher::Wildcard, asc: CodeMatcher::Exact(0x35), ascq: CodeMatcher::Exact(0x04), condition: NonATAPIEnvironmentError::EnclosureServicesTransferRefused });
        v.push(SenseRule { sense_key: CodeMatcher::Exact(0x5), asc: CodeMatcher::Exact(0x3D), ascq: CodeMatcher::Exact(0x00), condition: NonATAPIEnvironmentError::InvalidBitsInIdentifyMessage });
        v.push(SenseRule { sense_key: CodeMatcher::Exact(0x5), asc: CodeMatcher::Exact(0x43), ascq: CodeMatcher::Exact(0x00), condition: NonATAPIEnvironmentError::MessageError });
        v.push(SenseRule { sense_key: CodeMatcher::Exact(0xB), asc: CodeMatcher::Exact(0x45), ascq: CodeMatcher::Exact(0x00), condition: NonATAPIEnvironmentError::SelectOrReselectFailure });
        v.push(SenseRule { sense_key: CodeMatcher::Exact(0x4), asc: CodeMatcher::Exact(0x47), ascq: CodeMatcher::Exact(0x00), condition: NonATAPIEnvironmentError::ScsiParityError });
        v.push(SenseRule { sense_key: CodeMatcher::Exact(0xB), asc: CodeMatcher::Exact(0x48), ascq: CodeMatcher::Exact(0x00), condition: NonATAPIEnvironmentError::InitiatorDetectedErrorMessageReceived });
        v.push(SenseRule { sense_key: CodeMatcher::Exact(0xB), asc: CodeMatcher::Exact(0x49), ascq: CodeMatcher::Exact(0x00), condition: NonATAPIEnvironmentError::InvalidMessageError });
        v.push(SenseRule { sense_key: CodeMatcher::Exact(0x4), asc: CodeMatcher::Exact(0x4A), ascq: CodeMatcher::Exact(0x00), condition: NonATAPIEnvironmentError::CommandPhaseError });
        v.push(SenseRule { sense_key: CodeMatcher::Exact(0x4), asc: CodeMatcher::Exact(0x4B), ascq: CodeMatcher::Exact(0x00), condition: NonATAPIEnvironmentError::DataPhaseError });
        v.push(SenseRule { sense_key: CodeMatcher::Exact(0xB), asc: CodeMatcher::Exact(0x4D), ascq: CodeMatcher::Wildcard, condition: NonATAPIEnvironmentError::TaggedOverlappedCommandsNN });
        proof {
            assert(v@ =~= Self::spec_rules());
        }
        v
    }

    /// Classifies a sense triple against this category: the first rule
    /// whose three patterns all match, in declared order, decides.
    pub fn from_codes(sense_key: u8, asc: u8, ascq: u8) -> (r: Option<Self>)
        ensures
            r == spec_classify(Self::spec_rules(), sense_key, asc, ascq),
    {
        let rules = Self::rules();
        classify(&rules, sense_key, asc, ascq)
    }
}

} // verus!
