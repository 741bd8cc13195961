//! The data model: the stored record, the error taxonomy, and the
//! authorization context of the single write operation.

use vstd::prelude::*;

verus! {

/// Maximum number of Unicode scalars accepted in a record's `topic`.
pub const TOPIC_MAX_CHARS: usize = 50;

/// Maximum number of Unicode scalars accepted in a record's `description`.
pub const DESCRIPTION_MAX_CHARS: usize = 280;

/// The sole stored entity: an immutable, author-attributed historical fact.
///
/// A record is bound at creation to its author's identity (the 32-byte
/// public key of the authorizing signer), to the wall-clock time of the
/// write (`timestamp_upload`), and to the caller's claimed event time
/// (`timestamp_event`, which may lie in the past or the future relative to
/// the upload time — no ordering between the two is enforced). The four
/// text fields are copied verbatim from the caller. No mutation path
/// exists once a record is created.
pub struct HistoricalRecord {
    pub author: [u8; 32],
    pub timestamp_upload: i64,
    pub timestamp_event: i64,
    pub topic: String,
    pub description: String,
    pub category: String,
    pub source_url: String,
}

/// The two ways a write can be rejected. Both are deterministic
/// caller-input validation failures, detected before any side effect.
#[derive(Clone, Copy, Debug, PartialEq, Eq, Structural)]
pub enum ErrorCode {
    /// The topic exceeds [`TOPIC_MAX_CHARS`] Unicode scalars.
    TopicTooLong,
    /// The description exceeds [`DESCRIPTION_MAX_CHARS`] Unicode scalars.
    DescriptionTooLong,
}

/// The authorization context of one write: the identity of the signer who
/// becomes the record's permanent author. The same party funds the new
/// storage slot, so no separate payer identity is carried here.
pub struct AggiungiFatto {
    pub author: [u8; 32],
}

/// The topic stays within its scalar cap.
pub open spec fn topic_fits(topic: Seq<char>) -> bool {
    topic.len() <= TOPIC_MAX_CHARS
}

/// The description stays within its scalar cap.
pub open spec fn description_fits(description: Seq<char>) -> bool {
    description.len() <= DESCRIPTION_MAX_CHARS
}

/// Every record that validation lets through satisfies both caps.
/// `category` and `source_url` carry no scalar cap.
pub open spec fn record_valid(r: HistoricalRecord) -> bool {
    topic_fits(r.topic@) && description_fits(r.description@)
}

/// The record that a successful write commits: authorship and upload time
/// stamped from the execution context, every caller-supplied field copied
/// verbatim.
pub open spec fn make_record(
    author: [u8; 32],
    timestamp_upload: i64,
    timestamp_event: i64,
    topic: String,
    description: String,
    category: String,
    source_url: String,
) -> HistoricalRecord {
    HistoricalRecord {
        author,
        timestamp_upload,
        timestamp_event,
        topic,
        description,
        category,
        source_url,
    }
}

} // verus!
