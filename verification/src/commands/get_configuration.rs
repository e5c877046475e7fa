//! GET CONFIGURATION (operation code 0x46): queries the drive's feature
//! descriptors. The response is an eight-byte header (data length, reserved
//! bytes, current profile) followed by the self-describing feature records.

use vstd::prelude::*;
use crate::cdb::{Cdb, Control};
use crate::features::{FeatureDescriptor, parse_features, spec_descriptor_ok, spec_kept, spec_records};
use crate::features::types::Profile;
use crate::util::{be16_bytes, be16, be32, spec_be16, spec_be32};

verus! {

/// Operation code of GET CONFIGURATION.
pub const GET_CONFIGURATION_OP_CODE: u8 = 0x46;

/// Bytes of the feature header that precede the descriptor records.
pub const FEATURE_HEADER_LEN: usize = 8;

/// A malformed GET CONFIGURATION response.
#[derive(Clone, Copy, Debug, PartialEq, Eq, Structural)]
pub enum Error {
    /// Fewer bytes than the eight-byte feature header.
    IncompleteHeader(usize),
    /// The header's data length disagrees with the bytes received.
    LengthMismatch { received: usize, data_length: u32 },
}

/// The RT field: which feature descriptors the drive shall return.
#[derive(Clone, Copy, Debug, PartialEq, Eq, Structural)]
pub enum RTField {
    /// All feature descriptors the drive supports, regardless of currency.
    All,
    /// Only the descriptors whose current bit is set.
    Current,
    /// The one descriptor named by the starting feature number, header only
    /// if the drive does not support it.
    Supported,
}

impl RTField {
    /// The two-bit field value of this selection.
    pub open spec fn spec_as_u8(self) -> u8 {
        match self {
            RTField::All => 0,
            RTField::Current => 1,
            RTField::Supported => 2,
        }
    }

    /// Encodes this selection as its two-bit field value.
    pub fn as_u8(self) -> (r: u8)
        ensures
            r == self.spec_as_u8(),
    {
        match self {
            RTField::All => 0,
            RTField::Current => 1,
            RTField::Supported => 2,
        }
    }
}

/// The GET CONFIGURATION command: a 10-byte CDB.
#[derive(Clone, Copy, Debug)]
pub struct GetConfiguration {
    pub rt: RTField,
    pub starting_feature_number: u16,
    pub allocation_length: u16,
    pub control: Control,
}

impl GetConfiguration {
    /// A command asking for the descriptors `rt` selects, starting at the
    /// given feature number, into a response buffer of the given length.
    pub fn new(rt: RTField, starting_feature_number: u16, allocation_length: u16, control: Control)
        -> (r: GetConfiguration)
        ensures
            r.rt == rt,
            r.starting_feature_number == starting_feature_number,
            r.allocation_length == allocation_length,
            r.control == control,
    {
        GetConfiguration { rt, starting_feature_number, allocation_length, control }
    }
}

impl Cdb for GetConfiguration {
    open spec fn wf(&self) -> bool {
        true
    }

    open spec fn spec_cdb(&self) -> Seq<u8> {
        seq![
            GET_CONFIGURATION_OP_CODE,
            self.rt.spec_as_u8(),
            (self.starting_feature_number / 256) as u8,
            (self.starting_feature_number % 256) as u8,
            0u8,
            0u8,
            0u8,
            (self.allocation_length / 256) as u8,
            (self.allocation_length % 256) as u8,
            self.control.0,
        ]
    }

    open spec fn spec_allocation_len(&self) -> usize {
        self.allocation_length as usize
    }

    fn as_cdb(&self) -> (r: Vec<u8>) {
        let mut bytes: Vec<u8> = Vec::new();
        bytes.push(GET_CONFIGURATION_OP_CODE);
        bytes.push(self.rt.as_u8());
        let (s0, s1) = be16_bytes(self.starting_feature_number);
        bytes.push(s0);
        bytes.push(s1);
        bytes.push(0);
        bytes.push(0);
        bytes.push(0);
        let (a0, a1) = be16_bytes(self.allocation_length);
        bytes.push(a0);
        bytes.push(a1);
        bytes.push(self.control.raw());
        proof {
            assert(bytes@ =~= self.spec_cdb());
        }
        bytes
    }

    fn allocation_len(&self) -> (r: usize) {
        self.allocation_length as usize
    }
}

/// A decoded GET CONFIGURATION response.
#[derive(Clone, Debug, PartialEq, Eq)]
pub struct GetConfigurationResponse {
    /// Bytes in the response after the data-length field itself.
    pub data_length: u32,
    /// The drive's current profile.
    pub current_profile: Profile,
    /// The decoded feature descriptors, in stream order.
    pub descriptors: Vec<FeatureDescriptor>,
}

impl GetConfigurationResponse {
    /// Decodes a GET CONFIGURATION response: the eight-byte header must be
    /// present and its data length must equal the bytes that follow it; the
    /// descriptor records after the header decode by the feature parser.
    pub fn try_from(value: Vec<u8>) -> (r: Result<GetConfigurationResponse, Error>)
        ensures
            value@.len() < 8 <==> r == Err::<GetConfigurationResponse, Error>(
                Error::IncompleteHeader(value@.len() as usize),
            ),
            value@.len() >= 8 && value@.len() - 4 != spec_be32(
                value@[0],
                value@[1],
                value@[2],
                value@[3],
            ) ==> r == Err::<GetConfigurationResponse, Error>(
                (Error::LengthMismatch {
                    received: (value@.len() - 4) as usize,
                    data_length: (spec_be32(value@[0], value@[1], value@[2], value@[3]) as u32),
                }),
            ),
            value@.len() >= 8 && value@.len() - 4 == spec_be32(
                value@[0],
                value@[1],
                value@[2],
                value@[3],
            ) ==> (r matches Ok(resp) && {
                let kept = spec_kept(spec_records(value@.skip(8)));
                &&& resp.data_length == spec_be32(value@[0], value@[1], value@[2], value@[3])
                &&& resp.current_profile == Profile::spec_from(
                    spec_be16(value@[6], value@[7]) as u16,
                )
                &&& resp.descriptors@.len() == kept.len()
                &&& forall|i: int|
                    0 <= i < kept.len() ==> spec_descriptor_ok(
                        kept[i],
                        #[trigger] resp.descriptors@[i],
                    )
            }),
    {
        let response_len = value.len();
        if response_len < FEATURE_HEADER_LEN {
            return Err(Error::IncompleteHeader(response_len));
        }
        let data_length = be32(value[0], value[1], value[2], value[3]);
        let current_profile = Profile::from(be16(value[6], value[7]));
        if (response_len - 4) as u64 != data_length as u64 {
            return Err(Error::LengthMismatch { received: response_len - 4, data_length });
        }
        let records = vstd::slice::slice_to_vec(
            vstd::slice::slice_subrange(value.as_slice(), 8, response_len),
        );
        proof {
            assert(records@ =~= value@.skip(8));
        }
        let descriptors = parse_features(records);
        Ok(GetConfigurationResponse { data_length, current_profile, descriptors })
    }
}

} // verus!
