//! The record layout calculator.
//!
//! A record's storage slot is sized once, at definition time, from the
//! fixed-size header fields plus a bounded byte budget for each
//! length-prefixed text field. The bound is static: it is never recomputed
//! per instance, and every slot is allocated with exactly this many bytes.

use vstd::prelude::*;

verus! {

/// Bytes of the host store's per-account discriminator tag.
pub const DISCRIMINATOR_BYTES: u64 = 8;

/// Bytes of the author's public-key identity.
pub const AUTHOR_BYTES: u64 = 32;

/// Bytes of one signed 64-bit epoch-seconds timestamp.
pub const TIMESTAMP_BYTES: u64 = 8;

/// Each text field is persisted as a length prefix of this many bytes,
/// followed by the field's raw UTF-8 bytes.
pub const LENGTH_PREFIX_BYTES: u64 = 4;

/// Raw-byte budget reserved for `topic`.
pub const TOPIC_BYTE_BUDGET: u64 = 50;

/// Raw-byte budget reserved for `description`.
pub const DESCRIPTION_BYTE_BUDGET: u64 = 280;

/// Raw-byte budget reserved for `category`.
pub const CATEGORY_BYTE_BUDGET: u64 = 20;

/// Raw-byte budget reserved for `source_url`.
pub const SOURCE_URL_BYTE_BUDGET: u64 = 100;

/// Slot bytes reserved for one length-prefixed text field with the given
/// raw-byte budget.
pub open spec fn spec_text_field_budget(raw_byte_budget: u64) -> int {
    LENGTH_PREFIX_BYTES + raw_byte_budget
}

/// Slot bytes reserved for one length-prefixed text field.
pub fn text_field_budget(raw_byte_budget: u64) -> (n: u64)
    requires
        raw_byte_budget <= u64::MAX - LENGTH_PREFIX_BYTES,
    ensures
        n == spec_text_field_budget(raw_byte_budget),
{
    LENGTH_PREFIX_BYTES + raw_byte_budget
}

/// The full allocation of one record slot: discriminator, author key, the
/// two timestamps, and the four text-field budgets.
pub open spec fn spec_record_space() -> int {
    DISCRIMINATOR_BYTES + AUTHOR_BYTES + 2 * TIMESTAMP_BYTES
        + spec_text_field_budget(TOPIC_BYTE_BUDGET)
        + spec_text_field_budget(DESCRIPTION_BYTE_BUDGET)
        + spec_text_field_budget(CATEGORY_BYTE_BUDGET)
        + spec_text_field_budget(SOURCE_URL_BYTE_BUDGET)
}

/// The exact number of bytes every record slot is allocated with.
pub fn record_space() -> (n: u64)
    ensures
        n == spec_record_space(),
        n == 522,
{
    let topic = text_field_budget(TOPIC_BYTE_BUDGET);
    let description = text_field_budget(DESCRIPTION_BYTE_BUDGET);
    let category = text_field_budget(CATEGORY_BYTE_BUDGET);
    let source_url = text_field_budget(SOURCE_URL_BYTE_BUDGET);
    DISCRIMINATOR_BYTES + AUTHOR_BYTES + 2 * TIMESTAMP_BYTES + topic + description + category
        + source_url
}

/// Bytes a record occupies on the wire, before the discriminator, when its
/// four text fields encode to the given numbers of raw UTF-8 bytes.
pub open spec fn spec_encoded_size(
    topic_bytes: int,
    description_bytes: int,
    category_bytes: int,
    source_url_bytes: int,
) -> int {
    AUTHOR_BYTES + 2 * TIMESTAMP_BYTES + 4 * LENGTH_PREFIX_BYTES + topic_bytes
        + description_bytes + category_bytes + source_url_bytes
}

/// The calculator's bound covers every record whose fields' raw UTF-8
/// encodings stay within the per-field byte budgets: such a record,
/// together with the discriminator, fits in the allocated slot. Note that
/// the budgets are byte counts while validation counts Unicode scalars, so
/// a capped field written with multi-byte scalars can still exceed its
/// budget; this bound speaks of byte lengths only.
pub proof fn lemma_budget_covers_encoding(
    topic_bytes: int,
    description_bytes: int,
    category_bytes: int,
    source_url_bytes: int,
)
    requires
        0 <= topic_bytes <= TOPIC_BYTE_BUDGET,
        0 <= description_bytes <= DESCRIPTION_BYTE_BUDGET,
        0 <= category_bytes <= CATEGORY_BYTE_BUDGET,
        0 <= source_url_bytes <= SOURCE_URL_BYTE_BUDGET,
    ensures
        DISCRIMINATOR_BYTES
            + spec_encoded_size(topic_bytes, description_bytes, category_bytes, source_url_bytes)
            <= spec_record_space(),
{
}

} // verus!
