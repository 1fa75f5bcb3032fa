//! The tables of an exported profile: strings, sample types, samples and
//! locations, as the pprof format lays them out.

use vstd::prelude::*;
use crate::report::{
    all_of_arity, sample_type_views, Report, ReportView, SampleTypeDescriptor,
    SampleTypeDescriptorView,
};
use crate::sample::{sample_views, Sample, SampleView};

verus! {

/// Why a report could not be laid out or written as a profile.
#[derive(Clone, Copy, Debug, PartialEq, Eq, Structural)]
pub enum SerializationError {
    /// The time from start to end does not fit the format's 64-bit duration.
    DurationOverflow,
    /// The string table has more entries than the format's indices can name.
    StringTableOverflow,
    /// The encoded profile would be larger than the encoder accepts.
    MessageTooLarge,
}

/// A sample type of a profile: its name and its unit's name, as indices into
/// the string table.
#[derive(Clone, Copy, Debug, PartialEq, Eq, Structural)]
pub struct ValueTypeRow {
    /// Where the name stands in the string table.
    pub ty: i64,
    /// Where the unit's name stands in the string table.
    pub unit: i64,
}

/// A location of a profile: one frame of the frame table.
#[derive(Clone, Copy, Debug, PartialEq, Eq, Structural)]
pub struct LocationRow {
    /// The location's number: its place in the frame table, counted from 1.
    pub id: u64,
    /// The frame identifier.
    pub address: u64,
}

/// What a [`SampleRow`] holds.
pub struct SampleRowView {
    /// The numbers of the locations of the stack, innermost first.
    pub location_ids: Seq<u64>,
    /// The measurements.
    pub values: Seq<i64>,
}

/// A sample of a profile: its stack as location numbers, and its values.
#[derive(Debug, PartialEq, Eq)]
pub struct SampleRow {
    /// The numbers of the locations of the stack, innermost first.
    pub location_ids: Vec<u64>,
    /// The measurements.
    pub values: Vec<i64>,
}

impl View for SampleRow {
    type V = SampleRowView;

    open spec fn view(&self) -> SampleRowView {
        SampleRowView { location_ids: self.location_ids@, values: self.values@ }
    }
}

/// What a profile holds, table by table.
pub struct ProfileContent {
    /// The string table.
    pub strings: Seq<Seq<char>>,
    /// The sample types.
    pub sample_types: Seq<ValueTypeRow>,
    /// The samples.
    pub samples: Seq<SampleRowView>,
    /// The locations.
    pub locations: Seq<LocationRow>,
    /// The start of the run, in nanoseconds since the epoch.
    pub time_nanos: i64,
    /// The length of the run, in nanoseconds.
    pub duration_nanos: i64,
}

/// A report laid out as the tables of the pprof format.
#[derive(Debug, PartialEq, Eq)]
pub struct ProfileTables {
    /// The string table. Its first entry is the empty string.
    pub string_table: Vec<String>,
    /// One row per declared sample type.
    pub sample_types: Vec<ValueTypeRow>,
    /// One row per sample, in the report's order.
    pub samples: Vec<SampleRow>,
    /// One row per distinct frame.
    pub locations: Vec<LocationRow>,
    /// The start of the run, in nanoseconds since the epoch.
    pub time_nanos: i64,
    /// The length of the run, in nanoseconds.
    pub duration_nanos: i64,
}

/// The strings of `table` as sequences of characters.
pub open spec fn string_views(table: Seq<String>) -> Seq<Seq<char>> {
    table.map_values(|s: String| s@)
}

/// The views of the sample rows of `rows`, in order.
pub open spec fn sample_row_views(rows: Seq<SampleRow>) -> Seq<SampleRowView> {
    rows.map_values(|r: SampleRow| r@)
}

impl View for ProfileTables {
    type V = ProfileContent;

    open spec fn view(&self) -> ProfileContent {
        ProfileContent {
            strings: string_views(self.string_table@),
            sample_types: self.sample_types@,
            samples: sample_row_views(self.samples@),
            locations: self.locations@,
            time_nanos: self.time_nanos,
            duration_nanos: self.duration_nanos,
        }
    }
}

/// The distinct items of `items`, each where it first occurs.
pub open spec fn first_occurrences<T>(items: Seq<T>) -> Seq<T>
    decreases items.len(),
{
    if items.len() == 0 {
        Seq::empty()
    } else {
        let before = first_occurrences(items.drop_last());
        if before.contains(items.last()) {
            before
        } else {
            before.push(items.last())
        }
    }
}

/// Every frame of every stack, sample after sample.
pub open spec fn all_frames(samples: Seq<SampleView>) -> Seq<u64>
    decreases samples.len(),
{
    if samples.len() == 0 {
        Seq::empty()
    } else {
        all_frames(samples.drop_last()) + samples.last().stack
    }
}

/// The name and the unit's name of every sample type, type after type.
pub open spec fn type_strings(types: Seq<SampleTypeDescriptorView>) -> Seq<Seq<char>>
    decreases types.len(),
{
    if types.len() == 0 {
        Seq::empty()
    } else {
        type_strings(types.drop_last()).push(types.last().name).push(
            types.last().unit.spec_name(),
        )
    }
}

/// The frame table: each frame of the samples once, where it first occurs.
pub open spec fn frame_table(samples: Seq<SampleView>) -> Seq<u64> {
    first_occurrences(all_frames(samples))
}

/// The string table: the empty string first, as the format demands, then each
/// name and unit name once, where it first occurs.
pub open spec fn string_table(types: Seq<SampleTypeDescriptorView>) -> Seq<Seq<char>> {
    first_occurrences(seq![Seq::<char>::empty()] + type_strings(types))
}

/// The locations of a frame table: frame `i` gets the number `i + 1`, since
/// the format keeps 0 for "no location".
pub open spec fn location_rows(frames: Seq<u64>) -> Seq<LocationRow> {
    Seq::new(frames.len(), |i: int| LocationRow { id: (i + 1) as u64, address: frames[i] })
}

/// The row of `sample`: each frame of its stack as the number of that frame's
/// location.
pub open spec fn sample_row(frames: Seq<u64>, sample: SampleView) -> SampleRowView {
    SampleRowView {
        location_ids: sample.stack.map_values(|frame: u64| (frames.index_of(frame) + 1) as u64),
        values: sample.values,
    }
}

/// The row of `sample_type`: where its name and its unit's name stand in the
/// string table.
pub open spec fn value_type_row(
    strings: Seq<Seq<char>>,
    sample_type: SampleTypeDescriptorView,
) -> ValueTypeRow {
    ValueTypeRow {
        ty: strings.index_of(sample_type.name) as i64,
        unit: strings.index_of(sample_type.unit.spec_name()) as i64,
    }
}

/// The profile that `report` is laid out as.
pub open spec fn profile_of(report: ReportView) -> ProfileContent {
    let frames = frame_table(report.samples);
    let strings = string_table(report.sample_types);
    ProfileContent {
        strings,
        sample_types: report.sample_types.map_values(
            |t: SampleTypeDescriptorView| value_type_row(strings, t),
        ),
        samples: report.samples.map_values(|s: SampleView| sample_row(frames, s)),
        locations: location_rows(frames),
        time_nanos: report.timing.start_nanos,
        duration_nanos: (report.timing.end_nanos - report.timing.start_nanos) as i64,
    }
}

/// Why `report` cannot be laid out as a profile, if it cannot.
pub open spec fn layout_error(report: ReportView) -> Option<SerializationError> {
    let duration = report.timing.end_nanos - report.timing.start_nanos;
    if duration < i64::MIN || duration > i64::MAX {
        Some(SerializationError::DurationOverflow)
    } else if string_table(report.sample_types).len() > i64::MAX {
        Some(SerializationError::StringTableOverflow)
    } else {
        None
    }
}

/// Whether a profile is one that a reader of the format accepts: the string
/// table starts with the empty string, every index into it exists, the
/// locations are numbered 1, 2, 3 and so on, every sample names existing
/// locations and carries one value per sample type.
pub open spec fn valid_profile(content: ProfileContent) -> bool {
    &&& content.strings.len() > 0
    &&& content.strings[0] == Seq::<char>::empty()
    &&& forall|i: int|
        0 <= i < content.sample_types.len() ==> {
            &&& 0 <= (#[trigger] content.sample_types[i]).ty < content.strings.len()
            &&& 0 <= content.sample_types[i].unit < content.strings.len()
        }
    &&& forall|i: int|
        0 <= i < content.locations.len() ==> (#[trigger] content.locations[i]).id == i + 1
    &&& forall|i: int, j: int|
        0 <= i < content.samples.len() && 0 <= j < content.samples[i].location_ids.len() ==> 1
            <= #[trigger] content.samples[i].location_ids[j] <= content.locations.len()
    &&& forall|i: int|
        0 <= i < content.samples.len() ==> (#[trigger] content.samples[i]).values.len()
            == content.sample_types.len()
}

/// Taking one more item in: it is appended unless it is there already.
pub proof fn lemma_first_occurrences_push<T>(items: Seq<T>, item: T)
    ensures
        first_occurrences(items.push(item)) == if first_occurrences(items).contains(item) {
            first_occurrences(items)
        } else {
            first_occurrences(items).push(item)
        },
{
    assert(items.push(item).drop_last() =~= items);
}

/// The first occurrences hold exactly the items of the sequence they were
/// taken from.
pub proof fn lemma_first_occurrences_contains<T>(items: Seq<T>, x: T)
    ensures
        first_occurrences(items).contains(x) <==> items.contains(x),
    decreases items.len(),
{
    if items.len() > 0 {
        let init = items.drop_last();
        let last = items.last();
        lemma_first_occurrences_contains(init, x);
        let before = first_occurrences(init);
        let table = first_occurrences(items);
        if items.contains(x) {
            let i = choose|i: int| 0 <= i < items.len() && items[i] == x;
            if i < init.len() {
                assert(init[i] == x);
                assert(init.contains(x));
                let k = choose|k: int| 0 <= k < before.len() && before[k] == x;
                assert(table[k] == x);
            } else if !before.contains(last) {
                assert(table[before.len() as int] == x);
            }
        }
        if table.contains(x) {
            let k = choose|k: int| 0 <= k < table.len() && table[k] == x;
            if k < before.len() {
                assert(before[k] == x);
                assert(before.contains(x));
                let i = choose|i: int| 0 <= i < init.len() && init[i] == x;
                assert(items[i] == x);
            } else {
                assert(items[items.len() - 1] == x);
            }
        }
    }
}

/// The first occurrences hold no item twice.
pub proof fn lemma_first_occurrences_distinct<T>(items: Seq<T>)
    ensures
        first_occurrences(items).no_duplicates(),
    decreases items.len(),
{
    if items.len() > 0 {
        lemma_first_occurrences_distinct(items.drop_last());
    }
}

/// The first occurrences start with the item that the sequence starts with.
pub proof fn lemma_first_occurrences_first<T>(items: Seq<T>)
    requires
        items.len() > 0,
    ensures
        first_occurrences(items).len() > 0,
        first_occurrences(items)[0] == items[0],
    decreases items.len(),
{
    if items.len() > 1 {
        lemma_first_occurrences_first(items.drop_last());
    } else {
        assert(items.drop_last().len() == 0);
        assert(!first_occurrences(items.drop_last()).contains(items.last()));
    }
}

/// In a sequence without duplicates an item is found where it stands.
pub proof fn lemma_index_of_unique<T>(table: Seq<T>, i: int)
    requires
        table.no_duplicates(),
        0 <= i < table.len(),
    ensures
        table.index_of(table[i]) == i,
{
    let x = table[i];
    let k = table.index_of(x);
    assert(0 <= k < table.len() && table[k] == x);
}

/// Every frame of every sample is among all frames.
pub proof fn lemma_all_frames_contains(samples: Seq<SampleView>, i: int, j: int)
    requires
        0 <= i < samples.len(),
        0 <= j < samples[i].stack.len(),
    ensures
        all_frames(samples).contains(samples[i].stack[j]),
    decreases samples.len(),
{
    let init = samples.drop_last();
    let all = all_frames(samples);
    if i == samples.len() - 1 {
        assert(all[all_frames(init).len() + j] == samples[i].stack[j]);
    } else {
        lemma_all_frames_contains(init, i, j);
        assert(init[i] == samples[i]);
        let k = choose|k: int|
            0 <= k < all_frames(init).len() && all_frames(init)[k] == init[i].stack[j];
        assert(all[k] == samples[i].stack[j]);
    }
}

/// The name and the unit's name of every sample type are among the type
/// strings.
pub proof fn lemma_type_strings_contains(types: Seq<SampleTypeDescriptorView>, i: int)
    requires
        0 <= i < types.len(),
    ensures
        type_strings(types).contains(types[i].name),
        type_strings(types).contains(types[i].unit.spec_name()),
    decreases types.len(),
{
    let init = types.drop_last();
    let all = type_strings(types);
    let n = type_strings(init).len() as int;
    if i == types.len() - 1 {
        assert(all[n] == types[i].name);
        assert(all[n + 1] == types[i].unit.spec_name());
    } else {
        lemma_type_strings_contains(init, i);
        let k = choose|k: int| 0 <= k < n && type_strings(init)[k] == init[i].name;
        assert(all[k] == types[i].name);
        let u = choose|u: int| 0 <= u < n && type_strings(init)[u] == init[i].unit.spec_name();
        assert(all[u] == types[i].unit.spec_name());
    }
}

/// The layout is valid. The profile that a report is laid out as is one that a
/// reader of the format accepts. It holds of every report that can be laid
/// out, whose samples carry one value per declared sample type, and whose
/// distinct frames can be numbered with 64 bits.
pub proof fn lemma_layout_is_valid(report: ReportView)
    requires
        layout_error(report) is None,
        all_of_arity(report.samples, report.sample_types.len()),
        frame_table(report.samples).len() <= u64::MAX,
    ensures
        valid_profile(profile_of(report)),
{
    let content = profile_of(report);
    let frames = frame_table(report.samples);
    let strings = string_table(report.sample_types);
    let all = seq![Seq::<char>::empty()] + type_strings(report.sample_types);
    lemma_first_occurrences_first(all);
    assert forall|i: int| 0 <= i < content.sample_types.len() implies {
        &&& 0 <= (#[trigger] content.sample_types[i]).ty < content.strings.len()
        &&& 0 <= content.sample_types[i].unit < content.strings.len()
    } by {
        let sample_type = report.sample_types[i];
        lemma_type_strings_contains(report.sample_types, i);
        let n = choose|n: int|
            0 <= n < type_strings(report.sample_types).len() && type_strings(
                report.sample_types,
            )[n] == sample_type.name;
        assert(all[n + 1] == sample_type.name);
        let u = choose|u: int|
            0 <= u < type_strings(report.sample_types).len() && type_strings(
                report.sample_types,
            )[u] == sample_type.unit.spec_name();
        assert(all[u + 1] == sample_type.unit.spec_name());
        lemma_first_occurrences_contains(all, sample_type.name);
        lemma_first_occurrences_contains(all, sample_type.unit.spec_name());
        let ty = strings.index_of(sample_type.name);
        assert(0 <= ty < strings.len() && strings[ty] == sample_type.name);
        let unit = strings.index_of(sample_type.unit.spec_name());
        assert(0 <= unit < strings.len() && strings[unit] == sample_type.unit.spec_name());
    }
    assert forall|i: int, j: int|
        0 <= i < content.samples.len() && 0 <= j < content.samples[i].location_ids.len() implies 1
        <= #[trigger] content.samples[i].location_ids[j] <= content.locations.len() by {
        let frame = report.samples[i].stack[j];
        lemma_all_frames_contains(report.samples, i, j);
        lemma_first_occurrences_contains(all_frames(report.samples), frame);
        let k = frames.index_of(frame);
        assert(0 <= k < frames.len() && frames[k] == frame);
    }
}

/// Whether `frame` stands in `table`.
fn frame_known(table: &Vec<u64>, frame: u64) -> (known: bool)
    ensures
        known == table@.contains(frame),
{
    let mut i: usize = 0;
    while i < table.len()
        invariant
            i <= table.len(),
            forall|j: int| 0 <= j < i ==> table@[j] != frame,
        decreases table.len() - i,
    {
        if table[i] == frame {
            return true;
        }
        i += 1;
    }
    false
}

/// Where `frame` stands in `table`.
fn frame_position(table: &Vec<u64>, frame: u64) -> (i: usize)
    requires
        table@.contains(frame),
    ensures
        i < table.len(),
        table@[i as int] == frame,
{
    let mut i: usize = 0;
    while table[i] != frame
        invariant
            i < table.len(),
            table@.contains(frame),
            forall|j: int| 0 <= j < i ==> table@[j] != frame,
        decreases table.len() - i,
    {
        i += 1;
    }
    i
}

/// Whether `s` stands in `table`.
fn string_known(table: &Vec<String>, s: &String) -> (known: bool)
    ensures
        known == string_views(table@).contains(s@),
{
    let mut i: usize = 0;
    while i < table.len()
        invariant
            i <= table.len(),
            forall|j: int| 0 <= j < i ==> string_views(table@)[j] != s@,
        decreases table.len() - i,
    {
        if table[i] == *s {
            assert(string_views(table@)[i as int] == s@);
            return true;
        }
        i += 1;
    }
    false
}

/// Where `s` stands in `table`.
fn string_position(table: &Vec<String>, s: &String) -> (i: usize)
    requires
        string_views(table@).contains(s@),
    ensures
        i < table.len(),
        string_views(table@)[i as int] == s@,
{
    let mut i: usize = 0;
    while table[i] != *s
        invariant
            i < table.len(),
            string_views(table@).contains(s@),
            forall|j: int| 0 <= j < i ==> string_views(table@)[j] != s@,
        decreases table.len() - i,
    {
        i += 1;
    }
    i
}

/// The frame table of `samples`.
pub fn build_frame_table(samples: &Vec<Sample>) -> (table: Vec<u64>)
    ensures
        table@ == frame_table(sample_views(samples@)),
{
    let ghost views = sample_views(samples@);
    let mut table: Vec<u64> = Vec::new();
    let mut i: usize = 0;
    assert(views.take(0) =~= Seq::empty());
    while i < samples.len()
        invariant
            i <= samples.len(),
            views == sample_views(samples@),
            table@ == frame_table(views.take(i as int)),
        decreases samples.len() - i,
    {
        let stack = &samples[i].stack;
        let ghost done = all_frames(views.take(i as int));
        let mut j: usize = 0;
        assert(done + stack@.take(0) =~= done);
        while j < stack.len()
            invariant
                j <= stack.len(),
                table@ == first_occurrences(done + stack@.take(j as int)),
            decreases stack.len() - j,
        {
            let frame: u64 = stack[j];
            proof {
                lemma_first_occurrences_push(done + stack@.take(j as int), frame);
                assert((done + stack@.take(j as int)).push(frame) =~= done + stack@.take(j + 1));
            }
            if !frame_known(&table, frame) {
                table.push(frame);
            }
            j += 1;
        }
        proof {
            assert(stack@.take(j as int) =~= stack@);
            assert(views.take(i + 1).drop_last() =~= views.take(i as int));
            assert(views.take(i + 1).last().stack == stack@);
        }
        i += 1;
    }
    assert(views.take(i as int) =~= views);
    table
}

/// The string table of `types`.
pub fn build_string_table(types: &Vec<SampleTypeDescriptor>) -> (table: Vec<String>)
    ensures
        string_views(table@) == string_table(sample_type_views(types@)),
{
    let ghost views = sample_type_views(types@);
    let ghost empty = seq![Seq::<char>::empty()];
    let mut table: Vec<String> = Vec::new();
    table.push(String::new());
    proof {
        lemma_first_occurrences_push(Seq::<Seq<char>>::empty(), Seq::<char>::empty());
        assert(Seq::<Seq<char>>::empty().push(Seq::<char>::empty()) =~= empty);
        assert(views.take(0) =~= Seq::empty());
        assert(empty + type_strings(views.take(0)) =~= empty);
        assert(string_views(table@) =~= empty);
    }
    let mut i: usize = 0;
    while i < types.len()
        invariant
            i <= types.len(),
            views == sample_type_views(types@),
            empty == seq![Seq::<char>::empty()],
            string_views(table@) == first_occurrences(empty + type_strings(views.take(i as int))),
        decreases types.len() - i,
    {
        let ghost done = empty + type_strings(views.take(i as int));
        let name = types[i].name.clone();
        let unit = types[i].unit.name().to_owned();
        proof {
            lemma_first_occurrences_push(done, name@);
            lemma_first_occurrences_push(done.push(name@), unit@);
            assert(views.take(i + 1).drop_last() =~= views.take(i as int));
            assert(views.take(i + 1).last() == views[i as int]);
            assert(done.push(name@).push(unit@) =~= empty + type_strings(views.take(i + 1)));
        }
        if !string_known(&table, &name) {
            let ghost before = table@;
            table.push(name);
            assert(string_views(table@) =~= string_views(before).push(name@));
        }
        if !string_known(&table, &unit) {
            let ghost before = table@;
            table.push(unit);
            assert(string_views(table@) =~= string_views(before).push(unit@));
        }
        i += 1;
    }
    assert(views.take(i as int) =~= views);
    table
}

/// The rows of the sample types `types` over their string table `strings`.
fn value_type_rows(
    strings: &Vec<String>,
    types: &Vec<SampleTypeDescriptor>,
) -> (rows: Vec<ValueTypeRow>)
    requires
        string_views(strings@) == string_table(sample_type_views(types@)),
        strings.len() <= i64::MAX,
    ensures
        rows@ == sample_type_views(types@).map_values(
            |t: SampleTypeDescriptorView| value_type_row(string_views(strings@), t),
        ),
{
    let ghost views = sample_type_views(types@);
    let ghost table = string_views(strings@);
    let ghost wanted = views.map_values(|t: SampleTypeDescriptorView| value_type_row(table, t));
    let mut rows: Vec<ValueTypeRow> = Vec::new();
    let mut i: usize = 0;
    while i < types.len()
        invariant
            i <= types.len(),
            views == sample_type_views(types@),
            table == string_views(strings@),
            table == string_table(views),
            strings.len() <= i64::MAX,
            wanted == views.map_values(|t: SampleTypeDescriptorView| value_type_row(table, t)),
            rows@ == wanted.take(i as int),
        decreases types.len() - i,
    {
        let unit_name = types[i].unit.name().to_owned();
        proof {
            let all = seq![Seq::<char>::empty()] + type_strings(views);
            lemma_type_strings_contains(views, i as int);
            let n = choose|n: int|
                0 <= n < type_strings(views).len() && type_strings(views)[n]
                    == views[i as int].name;
            assert(all[n + 1] == views[i as int].name);
            let u = choose|u: int|
                0 <= u < type_strings(views).len() && type_strings(views)[u]
                    == views[i as int].unit.spec_name();
            assert(all[u + 1] == views[i as int].unit.spec_name());
            lemma_first_occurrences_contains(all, views[i as int].name);
            lemma_first_occurrences_contains(all, views[i as int].unit.spec_name());
            lemma_first_occurrences_distinct(all);
        }
        let ty: usize = string_position(strings, &types[i].name);
        let unit: usize = string_position(strings, &unit_name);
        proof {
            lemma_index_of_unique(table, ty as int);
            lemma_index_of_unique(table, unit as int);
        }
        rows.push(ValueTypeRow { ty: ty as i64, unit: unit as i64 });
        assert(rows@ =~= wanted.take(i + 1));
        i += 1;
    }
    assert(wanted.take(i as int) =~= wanted);
    rows
}

/// The locations of the frame table `frames`.
fn location_table(frames: &Vec<u64>) -> (rows: Vec<LocationRow>)
    ensures
        rows@ == location_rows(frames@),
{
    let mut rows: Vec<LocationRow> = Vec::new();
    let mut i: usize = 0;
    while i < frames.len()
        invariant
            i <= frames.len(),
            rows@ == location_rows(frames@).take(i as int),
        decreases frames.len() - i,
    {
        rows.push(LocationRow { id: (i + 1) as u64, address: frames[i] });
        assert(rows@ =~= location_rows(frames@).take(i + 1));
        i += 1;
    }
    assert(location_rows(frames@).take(i as int) =~= location_rows(frames@));
    rows
}

/// The location numbers of the frames of `stack`, over the frame table
/// `frames`.
fn location_ids(frames: &Vec<u64>, stack: &Vec<u64>) -> (ids: Vec<u64>)
    requires
        frames@.no_duplicates(),
        forall|j: int| 0 <= j < stack@.len() ==> frames@.contains(#[trigger] stack@[j]),
    ensures
        ids@ == stack@.map_values(|frame: u64| (frames@.index_of(frame) + 1) as u64),
{
    let ghost wanted = stack@.map_values(|frame: u64| (frames@.index_of(frame) + 1) as u64);
    let mut ids: Vec<u64> = Vec::new();
    let mut j: usize = 0;
    while j < stack.len()
        invariant
            j <= stack.len(),
            frames@.no_duplicates(),
            forall|k: int| 0 <= k < stack@.len() ==> frames@.contains(#[trigger] stack@[k]),
            wanted == stack@.map_values(|frame: u64| (frames@.index_of(frame) + 1) as u64),
            ids@ == wanted.take(j as int),
        decreases stack.len() - j,
    {
        let position: usize = frame_position(frames, stack[j]);
        proof {
            lemma_index_of_unique(frames@, position as int);
        }
        ids.push((position + 1) as u64);
        assert(ids@ =~= wanted.take(j + 1));
        j += 1;
    }
    assert(wanted.take(j as int) =~= wanted);
    ids
}

/// The rows of `samples` over their frame table `frames`.
fn sample_rows(frames: &Vec<u64>, samples: &Vec<Sample>) -> (rows: Vec<SampleRow>)
    requires
        frames@ == frame_table(sample_views(samples@)),
    ensures
        sample_row_views(rows@) == sample_views(samples@).map_values(
            |s: SampleView| sample_row(frames@, s),
        ),
{
    let ghost views = sample_views(samples@);
    let ghost wanted = views.map_values(|s: SampleView| sample_row(frames@, s));
    let mut rows: Vec<SampleRow> = Vec::new();
    let mut i: usize = 0;
    proof {
        lemma_first_occurrences_distinct(all_frames(views));
    }
    while i < samples.len()
        invariant
            i <= samples.len(),
            views == sample_views(samples@),
            frames@ == frame_table(views),
            frames@.no_duplicates(),
            wanted == views.map_values(|s: SampleView| sample_row(frames@, s)),
            sample_row_views(rows@) == wanted.take(i as int),
        decreases samples.len() - i,
    {
        let sample = &samples[i];
        assert forall|j: int| 0 <= j < sample.stack@.len() implies frames@.contains(
            #[trigger] sample.stack@[j],
        ) by {
            lemma_all_frames_contains(views, i as int, j);
            lemma_first_occurrences_contains(all_frames(views), sample.stack@[j]);
        }
        let ghost before = rows@;
        let row = SampleRow {
            location_ids: location_ids(frames, &sample.stack),
            values: sample.values.clone(),
        };
        rows.push(row);
        assert(sample_row_views(rows@) =~= sample_row_views(before).push(row@));
        assert(row@ == wanted[i as int]);
        assert(sample_row_views(rows@) =~= wanted.take(i + 1));
        i += 1;
    }
    assert(wanted.take(i as int) =~= wanted);
    rows
}

impl ProfileTables {
    /// Lays `report` out as the tables of a profile: nothing of the report is
    /// dropped or merged, every sample gets its row, and the profile is one
    /// that a reader of the format accepts. Fails when the run's duration or
    /// the string table's size does not fit the format.
    pub fn of(report: &Report) -> (outcome: Result<ProfileTables, SerializationError>)
        ensures
            match layout_error(report@) {
                Some(e) => outcome matches Err(err) && err == e,
                None => {
                    &&& outcome matches Ok(tables)
                    &&& tables@ == profile_of(report@)
                    &&& valid_profile(tables@)
                },
            },
    {
        let timing = report.timing();
        let duration_nanos: i64 = match timing.end_nanos.checked_sub(timing.start_nanos) {
            Some(d) => d,
            None => {
                return Err(SerializationError::DurationOverflow);
            },
        };
        let string_table = build_string_table(report.sample_types());
        if string_table.len() as u64 > i64::MAX as u64 {
            return Err(SerializationError::StringTableOverflow);
        }
        let sample_types = value_type_rows(&string_table, report.sample_types());
        let frames = build_frame_table(report.samples());
        let locations = location_table(&frames);
        let samples = sample_rows(&frames, report.samples());
        let tables = ProfileTables {
            string_table,
            sample_types,
            samples,
            locations,
            time_nanos: timing.start_nanos,
            duration_nanos,
        };
        assert(tables@.sample_types =~= profile_of(report@).sample_types);
        assert(tables@.samples =~= profile_of(report@).samples);
        proof {
            assert(frame_table(report@.samples).len() == frames.len());
            lemma_layout_is_valid(report@);
        }
        Ok(tables)
    }
}

} // verus!
