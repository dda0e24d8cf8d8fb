//! The mock tracer of the native side: an in-memory recorder of spans, read
//! back to see what crossed the boundary.

use crate::boundary::{ArrayKind, ForeignArray, Number, Request, RequestView};
use crate::codec::{UnixTime, NANOS_PER_SEC};
use crate::marshal::{decode_field, field_text};
use crate::name_map::NameMap;
use vstd::prelude::*;

verus! {

/// One string tag as the native side lays it out; a null string is `None`.
#[derive(Clone, Debug, PartialEq, Eq)]
pub struct KeyValueRecord {
    pub key: Option<Vec<u8>>,
    pub value: Option<Vec<u8>>,
}

/// One numeric tag as the native side lays it out; a null key is `None`.
#[derive(Clone, Debug, PartialEq, Eq)]
pub struct KeyNumberRecord {
    pub key: Option<Vec<u8>>,
    pub value: Number,
}

/// One recorded span as the native side lays it out.
#[derive(Clone, Debug, PartialEq, Eq)]
pub struct MockSpanRecord {
    pub span_id: u64,
    pub trace_id: u64,
    pub parent_span_id: u64,
    pub start_time: UnixTime,
    pub finish_time: UnixTime,
    pub operation_name: Option<Vec<u8>>,
    pub string_tags: ForeignArray<KeyValueRecord>,
    pub number_tags: ForeignArray<KeyNumberRecord>,
}

/// A span that the mock tracer recorded.
#[derive(Clone, Debug, PartialEq, Eq)]
pub struct MockSpan {
    /// Identifier of the span.
    pub span_id: u64,
    /// Identifier of the trace.
    pub trace_id: u64,
    /// Identifier of the span above it.
    pub parent_span_id: u64,
    /// When the span started.
    pub start_time: UnixTime,
    /// When the span finished.
    pub finish_time: UnixTime,
    /// Name of the operation.
    pub operation_name: String,
    /// String tags of the span.
    pub string_tags: NameMap<String>,
    /// Numeric tags of the span.
    pub number_tags: NameMap<Number>,
}

/// A recorded span with its strings taken as text and its tags as maps.
pub struct MockSpanView {
    pub span_id: u64,
    pub trace_id: u64,
    pub parent_span_id: u64,
    pub start_time: UnixTime,
    pub finish_time: UnixTime,
    pub operation_name: Seq<char>,
    pub string_tags: Map<Seq<char>, Seq<char>>,
    pub number_tags: Map<Seq<char>, Number>,
}

impl View for MockSpan {
    type V = MockSpanView;

    open spec fn view(&self) -> MockSpanView {
        MockSpanView {
            span_id: self.span_id,
            trace_id: self.trace_id,
            parent_span_id: self.parent_span_id,
            start_time: self.start_time,
            finish_time: self.finish_time,
            operation_name: self.operation_name@,
            string_tags: self.string_tags@.map_values(|s: String| s@),
            number_tags: self.number_tags@,
        }
    }
}

impl MockSpan {
    /// The two tag maps are well-formed.
    pub open spec fn wf(&self) -> bool {
        self.string_tags.wf() && self.number_tags.wf()
    }
}

/// The map that a sequence of records reads as, where `entry` gives the key
/// and the value of a record: each key with the value of the last record
/// that has it.
pub open spec fn tags_of<R, V>(records: Seq<R>, entry: spec_fn(R) -> (Seq<char>, V)) -> Map<
    Seq<char>,
    V,
>
    decreases records.len(),
{
    if records.len() == 0 {
        Map::<Seq<char>, V>::empty()
    } else {
        tags_of(records.drop_last(), entry).insert(
            entry(records.last()).0,
            entry(records.last()).1,
        )
    }
}

/// The key and the value that a record of a string tag reads as.
pub open spec fn string_tag_entry() -> spec_fn(KeyValueRecord) -> (Seq<char>, Seq<char>) {
    |record: KeyValueRecord| (field_text(record.key), field_text(record.value))
}

/// The key and the value that a record of a numeric tag reads as.
pub open spec fn number_tag_entry() -> spec_fn(KeyNumberRecord) -> (Seq<char>, Number) {
    |record: KeyNumberRecord| (field_text(record.key), record.value)
}

/// The string tags that a sequence of records reads as: each key with the
/// value of the last record that has it.
pub open spec fn string_tags_of(records: Seq<KeyValueRecord>) -> Map<Seq<char>, Seq<char>> {
    tags_of(records, string_tag_entry())
}

/// The numeric tags that a sequence of records reads as: each key with the
/// value of the last record that has it.
pub open spec fn number_tags_of(records: Seq<KeyNumberRecord>) -> Map<Seq<char>, Number> {
    tags_of(records, number_tag_entry())
}

/// A key is among the tags of a sequence of records exactly if a record has
/// it, whatever a record is and however its key and value are read.
proof fn lemma_tags_of_keys<R, V>(
    records: Seq<R>,
    entry: spec_fn(R) -> (Seq<char>, V),
    key: Seq<char>,
)
    ensures
        tags_of(records, entry).contains_key(key) <==> exists|i: int|
            0 <= i < records.len() && entry(#[trigger] records[i]).0 == key,
    decreases records.len(),
{
    if records.len() > 0 {
        let rest = records.drop_last();
        lemma_tags_of_keys(rest, entry, key);
        assert(records[records.len() - 1] == records.last());
        if exists|i: int| 0 <= i < rest.len() && entry(#[trigger] rest[i]).0 == key {
            let i = choose|i: int| 0 <= i < rest.len() && entry(#[trigger] rest[i]).0 == key;
            assert(entry(records[i]).0 == key);
        }
        if exists|i: int| 0 <= i < records.len() && entry(#[trigger] records[i]).0 == key {
            let i = choose|i: int| 0 <= i < records.len() && entry(#[trigger] records[i]).0 == key;
            if i < rest.len() {
                assert(entry(rest[i]).0 == key);
            }
        }
    }
}

/// The value of a key among the tags of a sequence of records is that of
/// the last record that has the key.
proof fn lemma_tags_of_value<R, V>(
    records: Seq<R>,
    entry: spec_fn(R) -> (Seq<char>, V),
    key: Seq<char>,
    i: int,
)
    requires
        0 <= i < records.len(),
        entry(records[i]).0 == key,
        forall|j: int| i < j < records.len() ==> entry(#[trigger] records[j]).0 != key,
    ensures
        tags_of(records, entry)[key] == entry(records[i]).1,
    decreases records.len(),
{
    let rest = records.drop_last();
    if i < rest.len() {
        assert forall|j: int| i < j < rest.len() implies entry(#[trigger] rest[j]).0 != key by {
            assert(rest[j] == records[j]);
        }
        assert(rest[i] == records[i]);
        lemma_tags_of_value(rest, entry, key, i);
        assert(entry(records[records.len() - 1]).0 != key);
    }
}

/// What the tags of a sequence of records hold, whatever a record is and
/// however its key and value are read: a key is there exactly if a record
/// has it, and its value is that of the last record that has it.
proof fn lemma_tags_of<R, V>(records: Seq<R>, entry: spec_fn(R) -> (Seq<char>, V), key: Seq<char>)
    ensures
        tags_of(records, entry).contains_key(key) <==> exists|i: int|
            0 <= i < records.len() && entry(#[trigger] records[i]).0 == key,
        forall|i: int|
            0 <= i < records.len() && entry(#[trigger] records[i]).0 == key && (forall|j: int|
                i < j < records.len() ==> entry(#[trigger] records[j]).0 != key) ==> tags_of(
                records,
                entry,
            )[key] == entry(records[i]).1,
{
    lemma_tags_of_keys(records, entry, key);
    assert forall|i: int|
        0 <= i < records.len() && entry(#[trigger] records[i]).0 == key && (forall|j: int|
            i < j < records.len() ==> entry(#[trigger] records[j]).0 != key) implies tags_of(
        records,
        entry,
    )[key] == entry(records[i]).1 by {
        lemma_tags_of_value(records, entry, key, i);
    }
}

/// How the tags grow while the records are read in order: none are read at
/// the start, one more record gives its key its value, and reading as many
/// as there are is reading them all.
proof fn lemma_tags_of_next<R, V>(records: Seq<R>, entry: spec_fn(R) -> (Seq<char>, V), i: int)
    requires
        0 <= i <= records.len(),
    ensures
        tags_of(records.take(0), entry) == Map::<Seq<char>, V>::empty(),
        i < records.len() ==> tags_of(records.take(i + 1), entry) == tags_of(
            records.take(i),
            entry,
        ).insert(entry(records[i]).0, entry(records[i]).1),
        records.take(records.len() as int) == records,
{
    if i < records.len() {
        assert(records.take(i + 1).drop_last() =~= records.take(i));
        assert(records.take(i + 1).last() == records[i]);
    }
    assert(records.take(records.len() as int) =~= records);
}

/// What the string tags of a sequence of records hold, said of the records
/// at once: a key is there exactly if a record has it, and its value is that
/// of the last record that has it.
pub proof fn lemma_string_tags_of(records: Seq<KeyValueRecord>, key: Seq<char>)
    ensures
        string_tags_of(records).contains_key(key) <==> exists|i: int|
            0 <= i < records.len() && field_text((#[trigger] records[i]).key) == key,
        forall|i: int|
            0 <= i < records.len() && field_text((#[trigger] records[i]).key) == key && (forall|
                j: int,
            |
                i < j < records.len() ==> field_text((#[trigger] records[j]).key) != key)
                ==> string_tags_of(records)[key] == field_text(records[i].value),
{
    lemma_tags_of(records, string_tag_entry(), key);
}

/// What the numeric tags of a sequence of records hold, said of the records
/// at once: a key is there exactly if a record has it, and its value is that
/// of the last record that has it.
pub proof fn lemma_number_tags_of(records: Seq<KeyNumberRecord>, key: Seq<char>)
    ensures
        number_tags_of(records).contains_key(key) <==> exists|i: int|
            0 <= i < records.len() && field_text((#[trigger] records[i]).key) == key,
        forall|i: int|
            0 <= i < records.len() && field_text((#[trigger] records[i]).key) == key && (forall|
                j: int,
            |
                i < j < records.len() ==> field_text((#[trigger] records[j]).key) != key)
                ==> number_tags_of(records)[key] == records[i].value,
{
    lemma_tags_of(records, number_tag_entry(), key);
}

/// The span that a record reads as.
pub open spec fn span_of(record: MockSpanRecord) -> MockSpanView {
    MockSpanView {
        span_id: record.span_id,
        trace_id: record.trace_id,
        parent_span_id: record.parent_span_id,
        start_time: record.start_time,
        finish_time: record.finish_time,
        operation_name: field_text(record.operation_name),
        string_tags: string_tags_of(record.string_tags.items()),
        number_tags: number_tags_of(record.number_tags.items()),
    }
}

/// The spans that a sequence of records reads as, in order.
pub open spec fn spans_of(records: Seq<MockSpanRecord>) -> Seq<MockSpanView> {
    records.map_values(|r: MockSpanRecord| span_of(r))
}

/// The views of a list of spans.
pub open spec fn spans_view(spans: Vec<MockSpan>) -> Seq<MockSpanView> {
    spans@.map_values(|s: MockSpan| s@)
}

/// Every span of a list is well-formed.
pub open spec fn spans_wf(spans: Vec<MockSpan>) -> bool {
    forall|i: int| 0 <= i < spans@.len() ==> (#[trigger] spans@[i]).wf()
}

/// The time since the epoch that a timestamp of the native side stands for,
/// as whole seconds and nanoseconds below one second: only the low 32 bits
/// of the nanosecond field count, and whole seconds among them are carried
/// over. `None` where the seconds do not fit.
pub open spec fn spec_convert_unix_time(time: UnixTime) -> Option<(u64, u32)> {
    let low = time.nsec % 0x1_0000_0000;
    let secs = time.sec + low / NANOS_PER_SEC;
    if secs > u64::MAX {
        None
    } else {
        Some((secs as u64, (low % NANOS_PER_SEC) as u32))
    }
}

/// The mock tracer of the native side.
#[derive(Clone, Copy, Debug)]
pub struct MockTracer;

impl MockTracer {
    /// Builds the request that clears what the mock tracer recorded.
    pub fn reset() -> (r: Request)
        ensures
            r@ == RequestView::MockReset,
    {
        Request::MockReset
    }

    /// Reads the reply to `Request::MockFinishedSpans` and returns the
    /// finished spans with the request that gives the array back.
    pub fn get_finished_spans(array: ForeignArray<MockSpanRecord>) -> (r: (Vec<MockSpan>, Request))
        ensures
            spans_wf(r.0),
            spans_view(r.0) == spans_of(array.items()),
            r.1@ == (RequestView::Release { array: ArrayKind::MockSpans }),
    {
        let spans = Self::convert_mock_span_array(&array);
        (spans, Request::Release { array: ArrayKind::MockSpans })
    }

    /// Reads the reply to `Request::MockOpenSpans` and returns the open
    /// spans with the request that gives the array back.
    pub fn get_open_spans(array: ForeignArray<MockSpanRecord>) -> (r: (Vec<MockSpan>, Request))
        ensures
            spans_wf(r.0),
            spans_view(r.0) == spans_of(array.items()),
            r.1@ == (RequestView::Release { array: ArrayKind::MockSpans }),
    {
        let spans = Self::convert_mock_span_array(&array);
        (spans, Request::Release { array: ArrayKind::MockSpans })
    }

    /// Converts a timestamp of the native side to the time since the epoch.
    pub fn convert_unix_time(time: &UnixTime) -> (r: Option<(u64, u32)>)
        ensures
            r == spec_convert_unix_time(*time),
            r matches Some((_, nanos)) ==> nanos < NANOS_PER_SEC,
    {
        let low: u64 = time.nsec % 0x1_0000_0000;
        let carry: u64 = low / NANOS_PER_SEC;
        let rest: u64 = low % NANOS_PER_SEC;
        match time.sec.checked_add(carry) {
            Some(secs) => Some((secs, rest as u32)),
            None => None,
        }
    }

    /// Reads an array of string tags into a map. A key that occurs again
    /// takes the later value.
    pub fn convert_key_value_array(array: &ForeignArray<KeyValueRecord>) -> (tags: NameMap<String>)
        ensures
            tags.wf(),
            tags@.map_values(|s: String| s@) == string_tags_of(array.items()),
    {
        let mut tags: NameMap<String> = NameMap::new();
        let ghost records = array.items();
        proof {
            lemma_tags_of_next(records, string_tag_entry(), 0);
        }
        assert(tags@.map_values(|s: String| s@) =~= string_tags_of(records.take(0)));
        match &array.records {
            None => {},
            Some(list) => {
                let mut i: usize = 0;
                while i < list.len()
                    invariant
                        i <= list@.len(),
                        list@ == records,
                        tags.wf(),
                        tags@.map_values(|s: String| s@) == string_tags_of(records.take(i as int)),
                    decreases list@.len() - i,
                {
                    let key = decode_field(&list[i].key);
                    let value = decode_field(&list[i].value);
                    let ghost before = tags@;
                    tags.insert(key, value);
                    proof {
                        lemma_tags_of_next(records, string_tag_entry(), i as int);
                        assert(tags@.map_values(|s: String| s@) =~= before.map_values(
                            |s: String| s@,
                        ).insert(key@, value@));
                    }
                    i += 1;
                }
            },
        }
        tags
    }

    /// Reads an array of numeric tags into a map. A key that occurs again
    /// takes the later value.
    pub fn convert_key_number_array(array: &ForeignArray<KeyNumberRecord>) -> (tags: NameMap<Number>)
        ensures
            tags.wf(),
            tags@ == number_tags_of(array.items()),
    {
        let mut tags: NameMap<Number> = NameMap::new();
        let ghost records = array.items();
        proof {
            lemma_tags_of_next(records, number_tag_entry(), 0);
        }
        match &array.records {
            None => {},
            Some(list) => {
                let mut i: usize = 0;
                while i < list.len()
                    invariant
                        i <= list@.len(),
                        list@ == records,
                        tags.wf(),
                        tags@ == number_tags_of(records.take(i as int)),
                    decreases list@.len() - i,
                {
                    let key = decode_field(&list[i].key);
                    tags.insert(key, list[i].value);
                    proof {
                        lemma_tags_of_next(records, number_tag_entry(), i as int);
                    }
                    i += 1;
                }
            },
        }
        tags
    }

    /// Reads one recorded span.
    pub fn convert_mock_span(record: &MockSpanRecord) -> (span: MockSpan)
        ensures
            span.wf(),
            span@ == span_of(*record),
    {
        MockSpan {
            span_id: record.span_id,
            trace_id: record.trace_id,
            parent_span_id: record.parent_span_id,
            start_time: record.start_time,
            finish_time: record.finish_time,
            operation_name: decode_field(&record.operation_name),
            string_tags: Self::convert_key_value_array(&record.string_tags),
            number_tags: Self::convert_key_number_array(&record.number_tags),
        }
    }

    /// Reads an array of recorded spans, in order. A null pointer and a
    /// length of zero both read as no spans.
    pub fn convert_mock_span_array(array: &ForeignArray<MockSpanRecord>) -> (spans: Vec<MockSpan>)
        ensures
            spans_wf(spans),
            spans_view(spans) == spans_of(array.items()),
    {
        let mut spans: Vec<MockSpan> = Vec::new();
        match &array.records {
            None => {
                assert(spans_view(spans) =~= spans_of(array.items()));
            },
            Some(list) => {
                let mut i: usize = 0;
                while i < list.len()
                    invariant
                        i <= list@.len(),
                        spans@.len() == i,
                        forall|j: int|
                            0 <= j < i ==> (#[trigger] spans@[j]).wf() && spans@[j]@ == span_of(
                                list@[j],
                            ),
                    decreases list@.len() - i,
                {
                    spans.push(Self::convert_mock_span(&list[i]));
                    i += 1;
                }
                assert(spans_view(spans) =~= spans_of(array.items()));
            },
        }
        spans
    }
}

} // verus!
