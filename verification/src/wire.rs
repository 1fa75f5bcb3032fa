//! The pprof message and its encoder.
//!
//! The message type and the encoder are `pprof`'s (generated from the format's
//! schema, on top of `protobuf`). Nothing here is proved: each item states what
//! the generated message type and the encoder do.

use vstd::prelude::*;
use pprof::protos::Message;
use crate::tables::{string_views, LocationRow, ProfileContent, SampleRowView, ValueTypeRow};

verus! {

/// `pprof::protos::Profile`, the profile message of the pprof format. Opaque.
#[verifier::external_type_specification]
#[verifier::external_body]
pub struct ExProfile(pprof::protos::Profile);

/// What a message holds in its string table, sample types, samples, locations
/// and times, if it holds nothing else: no mapping, no function, no comment,
/// no period, no unknown field, no label on a sample and no line on a
/// location. Of a message that holds more, nothing is said.
pub uninterp spec fn message_content(message: pprof::protos::Profile) -> Option<ProfileContent>;

/// The bytes that the encoder writes for a message that holds `content` and
/// nothing else.
pub uninterp spec fn profile_encoding(content: ProfileContent) -> Seq<u8>;

/// The largest message that the encoder writes: `i32::MAX` bytes.
pub open spec fn max_encoded_len() -> int {
    0x7fff_ffff
}

/// `Profile::new`, then the string table and the two times are set: a message
/// with these and no sample type, sample or location.
#[verifier::external_body]
pub(crate) fn new_message(
    strings: Vec<String>,
    time_nanos: i64,
    duration_nanos: i64,
) -> (message: pprof::protos::Profile)
    ensures
        message_content(message) == Some(
            ProfileContent {
                strings: string_views(strings@),
                sample_types: Seq::empty(),
                samples: Seq::empty(),
                locations: Seq::empty(),
                time_nanos,
                duration_nanos,
            },
        ),
{
    let mut message = pprof::protos::Profile::new();
    message.string_table = strings;
    message.time_nanos = time_nanos;
    message.duration_nanos = duration_nanos;
    message
}

/// Appends a `ValueType` with the indices of `row` to the message's sample
/// types.
#[verifier::external_body]
pub(crate) fn push_sample_type(message: &mut pprof::protos::Profile, row: ValueTypeRow)
    requires
        message_content(*old(message)) is Some,
    ensures
        message_content(*final(message)) == Some(
            ProfileContent {
                sample_types: message_content(*old(message))->0.sample_types.push(row),
                ..message_content(*old(message))->0
            },
        ),
{
    let mut value_type = pprof::protos::ValueType::new();
    value_type.ty = row.ty;
    value_type.unit = row.unit;
    message.sample_type.push(value_type);
}

/// Appends a `Sample` with these location numbers and values, and no label,
/// to the message's samples.
#[verifier::external_body]
pub(crate) fn push_sample(
    message: &mut pprof::protos::Profile,
    location_ids: Vec<u64>,
    values: Vec<i64>,
)
    requires
        message_content(*old(message)) is Some,
    ensures
        message_content(*final(message)) == Some(
            ProfileContent {
                samples: message_content(*old(message))->0.samples.push(
                    SampleRowView { location_ids: location_ids@, values: values@ },
                ),
                ..message_content(*old(message))->0
            },
        ),
{
    let mut sample = pprof::protos::Sample::new();
    sample.location_id = location_ids;
    sample.value = values;
    message.sample.push(sample);
}

/// Appends a `Location` with the number and address of `row`, and no line, to
/// the message's locations.
#[verifier::external_body]
pub(crate) fn push_location(message: &mut pprof::protos::Profile, row: LocationRow)
    requires
        message_content(*old(message)) is Some,
    ensures
        message_content(*final(message)) == Some(
            ProfileContent {
                locations: message_content(*old(message))->0.locations.push(row),
                ..message_content(*old(message))->0
            },
        ),
{
    let mut location = pprof::protos::Location::new();
    location.id = row.id;
    location.address = row.address;
    message.location.push(location);
}

/// `Message::write_to_vec` into an empty vector: the encoded message. The
/// encoder refuses a message whose encoding is longer than `i32::MAX` bytes,
/// and no other.
#[verifier::external_body]
pub(crate) fn encode_message(message: &pprof::protos::Profile) -> (bytes: Option<Vec<u8>>)
    requires
        message_content(*message) is Some,
    ensures
        match bytes {
            Some(bytes) => {
                &&& bytes@ == profile_encoding(message_content(*message)->0)
                &&& bytes@.len() <= max_encoded_len()
            },
            None => profile_encoding(message_content(*message)->0).len() > max_encoded_len(),
        },
{
    let mut bytes = Vec::new();
    match message.write_to_vec(&mut bytes) {
        Ok(()) => Some(bytes),
        Err(_) => None,
    }
}

} // verus!
