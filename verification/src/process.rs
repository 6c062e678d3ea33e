use vstd::prelude::*;
use vstd::string::StrSliceExecFns;

use crate::clock::timestamp_now;
use crate::ids::{nil_log_id, NIL_LOG_ID};
use crate::metadata::Metadata;
use crate::model::{
    NormalizedLog, NormalizedLogView, ProcessedLog, ProcessedLogView, LOG_ID_KEY, SOURCE_UNKNOWN,
};
use crate::redact::{redact_phone_numbers, redacted};

verus! {

/// The simulated cost of processing one character, in milliseconds.
pub const DELAY_PER_CHAR_MS: u64 = 50;

/// The simulated cost of processing a text, in milliseconds: the same for every character.
pub open spec fn delay_ms(text: Seq<char>) -> int {
    text.len() * DELAY_PER_CHAR_MS
}

/// The delay grows with the text in equal steps: that of two texts one after the other is the
/// sum of theirs, and that of the empty text is nothing.
pub proof fn delay_is_linear(first: Seq<char>, second: Seq<char>)
    ensures
        delay_ms(first + second) == delay_ms(first) + delay_ms(second),
        delay_ms(Seq::<char>::empty()) == 0,
        delay_ms(first) == 50 * first.len(),
{
}

/// How long the processing of a text is to be held up, in milliseconds. There is no answer
/// where the delay is more than a `u64` can hold.
pub fn simulated_delay_ms(text: &str) -> (millis: Option<u64>)
    ensures
        match millis {
            Some(millis) => millis == delay_ms(text@),
            None => delay_ms(text@) > u64::MAX,
        },
        text@.len() == 0 ==> millis == Some(0u64),
{
    let count = text.unicode_len() as u64;
    if count > u64::MAX / DELAY_PER_CHAR_MS {
        None
    } else {
        Some(count * DELAY_PER_CHAR_MS)
    }
}

/// The identifier of a processed record: the one that the log carries, or the nil identifier.
pub open spec fn resolved_log_id(log: NormalizedLogView) -> Seq<char> {
    match log.log_id() {
        Some(log_id) => log_id,
        None => NIL_LOG_ID@,
    }
}

/// The source of a processed record: the one that the log names, or `unknown`.
pub open spec fn resolved_source(log: NormalizedLogView) -> Seq<char> {
    match log.source {
        Some(source) => source,
        None => SOURCE_UNKNOWN@,
    }
}

/// The record of a log that was processed: tenant, identifier and source as resolved from the
/// log, its content as it came in, and the redacted content and the time as given.
pub open spec fn processed(
    log: NormalizedLogView,
    modified_data: Seq<char>,
    processed_at: Seq<char>,
) -> ProcessedLogView {
    ProcessedLogView {
        tenant_id: log.tenant_id,
        log_id: resolved_log_id(log),
        source: resolved_source(log),
        original_text: log.text,
        modified_data,
        processed_at,
    }
}

/// A log that names its source and carries an identifier is processed under both: nothing is
/// put in their place.
pub proof fn identity_is_kept(
    log: NormalizedLogView,
    modified_data: Seq<char>,
    processed_at: Seq<char>,
)
    requires
        log.source is Some,
        log.log_id() is Some,
    ensures
        processed(log, modified_data, processed_at).log_id == log.log_id()->0,
        processed(log, modified_data, processed_at).source == log.source->0,
        processed(log, modified_data, processed_at).tenant_id == log.tenant_id,
        processed(log, modified_data, processed_at).original_text == log.text,
{
}

/// A log without metadata, or without an identifier in its metadata, is processed under the nil
/// identifier.
pub proof fn missing_id_gives_nil(
    log: NormalizedLogView,
    modified_data: Seq<char>,
    processed_at: Seq<char>,
)
    requires
        log.metadata is None || !log.metadata->0.contains_key(LOG_ID_KEY@),
    ensures
        processed(log, modified_data, processed_at).log_id == NIL_LOG_ID@,
{
}

/// The identifier under which a log's record is stored.
pub fn resolve_log_id(metadata: &Option<Metadata>) -> (log_id: String)
    ensures
        log_id@ == match metadata {
            Some(metadata) if metadata@.contains_key(LOG_ID_KEY@) => metadata@[LOG_ID_KEY@],
            _ => NIL_LOG_ID@,
        },
{
    match metadata {
        Some(metadata) => match metadata.get(LOG_ID_KEY) {
            Some(log_id) => log_id.clone(),
            None => nil_log_id(),
        },
        None => nil_log_id(),
    }
}

/// Builds the record of a log from the log, its redacted content and the time of processing.
pub fn assemble(log: NormalizedLog, modified_data: String, processed_at: String) -> (record:
    ProcessedLog)
    ensures
        record@ == processed(log@, modified_data@, processed_at@),
        log@.log_id() is None ==> record.log_id@ == NIL_LOG_ID@,
        log.source is None ==> record.source@ == SOURCE_UNKNOWN@,
{
    let log_id = resolve_log_id(&log.metadata);
    let source = match log.source {
        Some(source) => source,
        None => SOURCE_UNKNOWN.to_owned(),
    };
    ProcessedLog {
        tenant_id: log.tenant_id,
        log_id,
        source,
        original_text: log.text,
        modified_data,
        processed_at,
    }
}

/// Processes one log: redacts its content and builds its record, stamped with the current time.
pub fn process_message(log: NormalizedLog) -> (record: ProcessedLog)
    ensures
        record@ == processed(log@, redacted(log.text@), record.processed_at@),
        log@.log_id() is None ==> record.log_id@ == NIL_LOG_ID@,
        log.source is None ==> record.source@ == SOURCE_UNKNOWN@,
{
    let modified_data = redact_phone_numbers(log.text.as_str());
    assemble(log, modified_data, timestamp_now())
}

} // verus!
