//! Command Descriptor Block basics shared by all commands: the CONTROL byte,
//! the group code that fixes a CDB's length, and the trait every typed
//! command implements to produce its byte encoding and its response-buffer
//! allocation length.

use vstd::prelude::*;

verus! {

/// CONTROL byte of a CDB: two vendor-specific bits, three reserved bits, and
/// the NACA, obsolete and link bits. Carried opaquely.
#[derive(Clone, Copy, Debug, PartialEq, Eq, Structural)]
pub struct Control(pub u8);

impl Control {
    /// The raw CONTROL byte.
    pub fn raw(self) -> (r: u8)
        ensures
            r == self.0,
    {
        self.0
    }
}

/// The group code of an operation code's top three bits, which fixes the
/// length of the CDB.
#[derive(Clone, Copy, Debug, PartialEq, Eq, Structural)]
pub enum GroupCode {
    Cmd6,
    Cmd10,
    Cmd12,
    Cmd16,
}

impl GroupCode {
    /// The CDB length that this group code fixes.
    pub open spec fn spec_cdb_len(self) -> usize {
        match self {
            GroupCode::Cmd6 => 6,
            GroupCode::Cmd10 => 10,
            GroupCode::Cmd12 => 12,
            GroupCode::Cmd16 => 16,
        }
    }

    /// The length in bytes of a CDB of this group.
    pub fn cdb_len(self) -> (r: usize)
        ensures
            r == self.spec_cdb_len(),
    {
        match self {
            GroupCode::Cmd6 => 6,
            GroupCode::Cmd10 => 10,
            GroupCode::Cmd12 => 12,
            GroupCode::Cmd16 => 16,
        }
    }
}

/// A typed command that encodes into a fixed-length CDB and declares how
/// large a response buffer its execution must allocate.
pub trait Cdb: Sized {
    /// Well-formedness of the command's fields: what encoding and allocation
    /// demand of them.
    spec fn wf(&self) -> bool;

    /// The exact bytes of this command's CDB.
    spec fn spec_cdb(&self) -> Seq<u8>;

    /// The response-buffer allocation length this command declares.
    spec fn spec_allocation_len(&self) -> usize;

    /// Encodes the command into its CDB bytes.
    fn as_cdb(&self) -> (r: Vec<u8>)
        requires
            self.wf(),
        ensures
            r@ == self.spec_cdb(),
    ;

    /// The number of response bytes to allocate before execution.
    fn allocation_len(&self) -> (r: usize)
        requires
            self.wf(),
        ensures
            r == self.spec_allocation_len(),
    ;
}

} // verus!
