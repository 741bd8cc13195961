//! The record writer and the registry it writes into.
//!
//! The registry is append-only: the single exposed operation validates
//! caller input, stamps authorship and timing metadata, and commits a
//! fully populated record into a fresh slot, or rejects the input with no
//! side effect at all. No operation updates or removes a record.

use vstd::prelude::*;
use vstd::string::StrSliceExecFns;
use crate::record::AggiungiFatto;
use crate::record::DESCRIPTION_MAX_CHARS;
use crate::record::ErrorCode;
use crate::record::HistoricalRecord;
use crate::record::TOPIC_MAX_CHARS;
use crate::record::description_fits;
use crate::record::make_record;
use crate::record::record_valid;
use crate::record::topic_fits;

verus! {

/// The append-only registry of historical fact records. Each record sits
/// in its own uniquely addressed slot; a slot's address is its position in
/// the registry and is handed back to the caller that created it.
pub struct Archive {
    records: Vec<HistoricalRecord>,
}

impl View for Archive {
    type V = Seq<HistoricalRecord>;

    closed spec fn view(&self) -> Seq<HistoricalRecord> {
        self.records@
    }
}

impl Archive {
    /// Every stored record satisfies the field caps: partially invalid
    /// input never reaches durable storage.
    pub open spec fn inv(self) -> bool {
        forall|i: int| 0 <= i < self@.len() ==> record_valid(#[trigger] self@[i])
    }

    /// An empty registry, before any write.
    pub fn new() -> (archive: Archive)
        ensures
            archive@ == Seq::<HistoricalRecord>::empty(),
            archive.inv(),
    {
        Archive { records: Vec::new() }
    }

    /// How many records have been committed.
    pub fn record_count(&self) -> (n: usize)
        ensures
            n == self@.len(),
    {
        self.records.len()
    }

    /// Read access to the record at a handle returned by a successful
    /// write.
    pub fn get_record(&self, handle: usize) -> (record: &HistoricalRecord)
        requires
            handle < self@.len(),
        ensures
            *record == self@[handle as int],
    {
        &self.records[handle]
    }
}

/// Validates caller input against the field-level constraints, in order:
/// the topic's scalar count is checked first, then the description's.
/// `category` and `source_url` are not length-validated.
pub fn validate(topic: &String, description: &String) -> (r: Result<(), ErrorCode>)
    ensures
        r is Ok <==> topic_fits(topic@) && description_fits(description@),
        r == Err::<(), ErrorCode>(ErrorCode::TopicTooLong) <==> !topic_fits(topic@),
        r == Err::<(), ErrorCode>(ErrorCode::DescriptionTooLong) <==> (topic_fits(topic@)
            && !description_fits(description@)),
{
    if topic.as_str().unicode_len() > TOPIC_MAX_CHARS {
        Err(ErrorCode::TopicTooLong)
    } else if description.as_str().unicode_len() > DESCRIPTION_MAX_CHARS {
        Err(ErrorCode::DescriptionTooLong)
    } else {
        Ok(())
    }
}

/// The single exposed operation: add one historical fact.
///
/// On success a new record exists at a fresh address at the end of the
/// registry, bound to the signer's identity, to the wall-clock value
/// `now`, and to the caller's claimed `event_date`, with every text field
/// copied verbatim; the returned handle addresses it. On rejection the
/// registry is exactly as it was: no slot is allocated, no field is
/// written.
pub fn aggiungi_fatto(
    archive: &mut Archive,
    ctx: AggiungiFatto,
    topic: String,
    description: String,
    category: String,
    event_date: i64,
    source_url: String,
    now: i64,
) -> (r: Result<usize, ErrorCode>)
    requires
        old(archive).inv(),
    ensures
        final(archive).inv(),
        r is Ok <==> topic_fits(topic@) && description_fits(description@),
        r matches Ok(handle) ==> handle == old(archive)@.len() && final(archive)@ == old(
            archive,
        )@.push(
            make_record(ctx.author, now, event_date, topic, description, category, source_url),
        ),
        r is Err ==> final(archive)@ == old(archive)@,
        r == Err::<usize, ErrorCode>(ErrorCode::TopicTooLong) <==> !topic_fits(topic@),
        r == Err::<usize, ErrorCode>(ErrorCode::DescriptionTooLong) <==> (topic_fits(topic@)
            && !description_fits(description@)),
{
    match validate(&topic, &description) {
        Err(e) => Err(e),
        Ok(()) => {
            let handle = archive.records.len();
            let record = HistoricalRecord {
                author: ctx.author,
                timestamp_upload: now,
                timestamp_event: event_date,
                topic,
                description,
                category,
                source_url,
            };
            archive.records.push(record);
            proof {
                assert forall|i: int| 0 <= i < archive@.len() implies record_valid(
                    #[trigger] archive@[i],
                ) by {
                    if i < archive@.len() - 1 {
                        assert(archive@[i] == old(archive)@[i]);
                    }
                }
            }
            Ok(handle)
        },
    }
}

/// Two successive successful writes — even with identical field values —
/// commit two records at two distinct addresses: each write hands back
/// the registry length at its moment, the two handles differ, each
/// address independently holds its full record, and neither write merges
/// with, overwrites, or otherwise disturbs any earlier slot.
pub proof fn lemma_successive_writes_distinct(
    s: Seq<HistoricalRecord>,
    r1: HistoricalRecord,
    r2: HistoricalRecord,
)
    ensures
        s.len() != s.push(r1).len(),
        s.push(r1).push(r2)[s.len() as int] == r1,
        s.push(r1).push(r2)[s.push(r1).len() as int] == r2,
        s.push(r1).push(r2).len() == s.len() + 2,
        forall|i: int| 0 <= i < s.len() ==> s.push(r1).push(r2)[i] == s[i],
{
}

} // verus!
