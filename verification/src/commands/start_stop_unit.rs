//! START STOP UNIT (operation code 0x1B): spins the disc up or down, loads
//! or ejects the medium, jumps to a format layer, or changes the power
//! condition.

use vstd::prelude::*;
use crate::cdb::{Cdb, Control};

verus! {

/// Operation code of START STOP UNIT.
pub const START_STOP_UNIT_OP_CODE: u8 = 0x1B;

/// A power condition the drive can be asked to enter.
#[derive(Clone, Copy, Debug, PartialEq, Eq, Structural)]
pub enum PowerCondition {
    NoChange,
    Idle,
    StandBy,
    Sleep,
}

impl PowerCondition {
    /// The four-bit field value of this power condition.
    pub open spec fn spec_as_u8(self) -> u8 {
        match self {
            PowerCondition::NoChange => 0x0,
            PowerCondition::Idle => 0x2,
            PowerCondition::StandBy => 0x3,
            PowerCondition::Sleep => 0x5,
        }
    }

    /// Encodes this power condition as its four-bit field value.
    pub fn as_u8(self) -> (r: u8)
        ensures
            r == self.spec_as_u8(),
    {
        match self {
            PowerCondition::NoChange => 0x0,
            PowerCondition::Idle => 0x2,
            PowerCondition::StandBy => 0x3,
            PowerCondition::Sleep => 0x5,
        }
    }
}

/// The operation a START STOP UNIT command requests.
#[derive(Clone, Copy, Debug, PartialEq, Eq, Structural)]
pub enum LoadEjectOperation {
    StopDisc,
    StartDisc,
    EjectIfPermitted,
    LoadAndStartDisc,
    /// Jump to the given format layer, two bits wide.
    JumpToFormatLayer(u8),
    ChangePowerCondition(PowerCondition),
}

impl LoadEjectOperation {
    /// The five control quantities the operation packs into the CDB:
    /// format-layer flag, format-layer number, load/eject bit, start bit and
    /// power-condition field.
    pub open spec fn spec_fields(self) -> (u8, u8, u8, u8, u8) {
        match self {
            LoadEjectOperation::StopDisc => (0u8, 0u8, 0u8, 0u8, 0u8),
            LoadEjectOperation::StartDisc => (0u8, 0u8, 0u8, 1u8, 0u8),
            LoadEjectOperation::EjectIfPermitted => (0u8, 0u8, 1u8, 0u8, 0u8),
            LoadEjectOperation::LoadAndStartDisc => (0u8, 0u8, 1u8, 1u8, 0u8),
            LoadEjectOperation::JumpToFormatLayer(n) => (1u8, (n & 0x03) as u8, 1u8, 1u8, 0u8),
            LoadEjectOperation::ChangePowerCondition(c) => (0u8, 0u8, 0u8, 0u8, c.spec_as_u8()),
        }
    }
}

/// The START STOP UNIT command: a 6-byte CDB.
#[derive(Clone, Copy, Debug)]
pub struct StartStopUnit {
    /// Return status immediately instead of waiting for completion.
    pub immediate: bool,
    pub load_eject_operation: LoadEjectOperation,
    pub control: Control,
}

impl StartStopUnit {
    /// A command requesting `operation`, immediately or synchronously.
    pub fn new(immediate: bool, operation: LoadEjectOperation, control: Control) -> (r:
        StartStopUnit)
        ensures
            r.immediate == immediate,
            r.load_eject_operation == operation,
            r.control == control,
    {
        StartStopUnit { immediate, load_eject_operation: operation, control }
    }
}

impl Cdb for StartStopUnit {
    open spec fn wf(&self) -> bool {
        true
    }

    open spec fn spec_cdb(&self) -> Seq<u8> {
        let f = self.load_eject_operation.spec_fields();
        seq![
            START_STOP_UNIT_OP_CODE,
            if self.immediate {
                1u8
            } else {
                0u8
            },
            0u8,
            f.1,
            ((f.4 * 16 + f.0 * 4 + f.2 * 2 + f.3) as u8),
            self.control.0,
        ]
    }

    open spec fn spec_allocation_len(&self) -> usize {
        0
    }

    fn as_cdb(&self) -> (r: Vec<u8>) {
        let (fl, fl_num, loej, start, pow_cond): (u8, u8, u8, u8, u8) = match self
            .load_eject_operation {
            LoadEjectOperation::StopDisc => (0, 0, 0, 0, 0),
            LoadEjectOperation::StartDisc => (0, 0, 0, 1, 0),
            LoadEjectOperation::EjectIfPermitted => (0, 0, 1, 0, 0),
            LoadEjectOperation::LoadAndStartDisc => (0, 0, 1, 1, 0),
            LoadEjectOperation::JumpToFormatLayer(n) => (1, n & 0x03, 1, 1, 0),
            LoadEjectOperation::ChangePowerCondition(c) => (0, 0, 0, 0, c.as_u8()),
        };
        let mut bytes: Vec<u8> = Vec::new();
        bytes.push(START_STOP_UNIT_OP_CODE);
        bytes.push(if self.immediate {
            1
        } else {
            0
        });
        bytes.push(0);
        bytes.push(fl_num);
        bytes.push(pow_cond * 16 + fl * 4 + loej * 2 + start);
        bytes.push(self.control.raw());
        proof {
            assert(bytes@ =~= self.spec_cdb());
        }
        bytes
    }

    fn allocation_len(&self) -> (r: usize) {
        0
    }
}

} // verus!
