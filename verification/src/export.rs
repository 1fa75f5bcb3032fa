//! Writing a report as a pprof profile.

use vstd::prelude::*;
use crate::report::{Report, ReportView};
use crate::tables::{
    layout_error, profile_of, string_views, ProfileContent, ProfileTables, SerializationError,
};
use crate::wire::{
    encode_message, max_encoded_len, message_content, new_message, profile_encoding,
    push_location, push_sample, push_sample_type,
};

verus! {

/// What writing a profile with the tables `content` gives: its encoding, unless
/// that is larger than the encoder accepts.
pub open spec fn written(content: ProfileContent) -> Result<Seq<u8>, SerializationError> {
    if profile_encoding(content).len() <= max_encoded_len() {
        Ok(profile_encoding(content))
    } else {
        Err(SerializationError::MessageTooLarge)
    }
}

/// What exporting `report` gives: the encoding of the profile it is laid out
/// as, or the reason why it cannot be laid out or written.
pub open spec fn exported(report: ReportView) -> Result<Seq<u8>, SerializationError> {
    match layout_error(report) {
        Some(e) => Err(e),
        None => written(profile_of(report)),
    }
}

/// A result with the bytes replaced by their sequence.
pub open spec fn bytes_view(outcome: Result<Vec<u8>, SerializationError>) -> Result<
    Seq<u8>,
    SerializationError,
> {
    match outcome {
        Ok(bytes) => Ok(bytes@),
        Err(e) => Err(e),
    }
}

/// A copy of `strings`, string for string.
fn clone_strings(strings: &Vec<String>) -> (copy: Vec<String>)
    ensures
        string_views(copy@) == string_views(strings@),
{
    let mut copy: Vec<String> = Vec::new();
    let mut i: usize = 0;
    while i < strings.len()
        invariant
            i <= strings.len(),
            string_views(copy@) == string_views(strings@).take(i as int),
        decreases strings.len() - i,
    {
        let ghost before = copy@;
        let s = strings[i].clone();
        copy.push(s);
        assert(string_views(copy@) =~= string_views(before).push(s@));
        assert(string_views(strings@).take(i + 1) =~= string_views(strings@).take(i as int).push(
            strings@[i as int]@,
        ));
        i += 1;
    }
    assert(string_views(strings@).take(i as int) =~= string_views(strings@));
    copy
}

/// Writes profiles in the pprof interchange format.
///
/// The bytes depend on the report alone: no clock is read and nothing else of
/// the process goes into them. Writing the bytes to a file is the caller's
/// part.
pub struct ProfileExporter;

impl ProfileExporter {
    /// Encodes the tables of a profile: fills a message with them, row for
    /// row, and has it encoded.
    pub fn write(tables: &ProfileTables) -> (outcome: Result<Vec<u8>, SerializationError>)
        ensures
            bytes_view(outcome) == written(tables@),
    {
        let mut message = new_message(
            clone_strings(&tables.string_table),
            tables.time_nanos,
            tables.duration_nanos,
        );
        let mut i: usize = 0;
        assert(tables@.sample_types.take(0) =~= Seq::empty());
        while i < tables.sample_types.len()
            invariant
                i <= tables.sample_types.len(),
                message_content(message) == Some(
                    ProfileContent {
                        sample_types: tables@.sample_types.take(i as int),
                        samples: Seq::empty(),
                        locations: Seq::empty(),
                        ..tables@
                    },
                ),
            decreases tables.sample_types.len() - i,
        {
            push_sample_type(&mut message, tables.sample_types[i]);
            assert(tables@.sample_types.take(i as int).push(tables@.sample_types[i as int])
                =~= tables@.sample_types.take(i + 1));
            i += 1;
        }
        assert(tables@.sample_types.take(i as int) =~= tables@.sample_types);
        let mut i: usize = 0;
        assert(tables@.samples.take(0) =~= Seq::empty());
        while i < tables.samples.len()
            invariant
                i <= tables.samples.len(),
                message_content(message) == Some(
                    ProfileContent {
                        samples: tables@.samples.take(i as int),
                        locations: Seq::empty(),
                        ..tables@
                    },
                ),
            decreases tables.samples.len() - i,
        {
            let row = &tables.samples[i];
            push_sample(&mut message, row.location_ids.clone(), row.values.clone());
            assert(tables@.samples.take(i as int).push(row@) =~= tables@.samples.take(i + 1));
            i += 1;
        }
        assert(tables@.samples.take(i as int) =~= tables@.samples);
        let mut i: usize = 0;
        assert(tables@.locations.take(0) =~= Seq::empty());
        while i < tables.locations.len()
            invariant
                i <= tables.locations.len(),
                message_content(message) == Some(
                    ProfileContent { locations: tables@.locations.take(i as int), ..tables@ },
                ),
            decreases tables.locations.len() - i,
        {
            push_location(&mut message, tables.locations[i]);
            assert(tables@.locations.take(i as int).push(tables@.locations[i as int])
                =~= tables@.locations.take(i + 1));
            i += 1;
        }
        assert(tables@.locations.take(i as int) =~= tables@.locations);
        match encode_message(&message) {
            Some(bytes) => Ok(bytes),
            None => Err(SerializationError::MessageTooLarge),
        }
    }

    /// Exports `report` as a pprof profile: lays it out as tables, then
    /// encodes them.
    pub fn export(report: &Report) -> (outcome: Result<Vec<u8>, SerializationError>)
        ensures
            bytes_view(outcome) == exported(report@),
    {
        match ProfileTables::of(report) {
            Ok(tables) => ProfileExporter::write(&tables),
            Err(e) => Err(e),
        }
    }
}

} // verus!
