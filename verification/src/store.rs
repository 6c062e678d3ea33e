use vstd::prelude::*;

use crate::model::{NormalizedLogView, ProcessedLog, ProcessedLogView};
use crate::process::processed;
use crate::redact::redacted;

verus! {

/// The attribute that holds a record's tenant: the partition key of the store.
pub const ATTR_TENANT_ID: &'static str = "tenant_id";

/// The attribute that holds a record's identifier: the sort key of the store.
pub const ATTR_LOG_ID: &'static str = "log_id";

/// The attribute that holds a record's source.
pub const ATTR_SOURCE: &'static str = "source";

/// The attribute that holds the content as it came in.
pub const ATTR_ORIGINAL_TEXT: &'static str = "original_text";

/// The attribute that holds the content after redaction.
pub const ATTR_MODIFIED_DATA: &'static str = "modified_data";

/// The attribute that holds the time of processing.
pub const ATTR_PROCESSED_AT: &'static str = "processed_at";

/// The item that is written to the store for a record: one string attribute for each field,
/// under the field's name.
pub open spec fn item_of(record: ProcessedLogView) -> Seq<(Seq<char>, Seq<char>)> {
    seq![
        (ATTR_TENANT_ID@, record.tenant_id),
        (ATTR_LOG_ID@, record.log_id),
        (ATTR_SOURCE@, record.source),
        (ATTR_ORIGINAL_TEXT@, record.original_text),
        (ATTR_MODIFIED_DATA@, record.modified_data),
        (ATTR_PROCESSED_AT@, record.processed_at),
    ]
}

/// The key under which a record is kept in the store: its tenant, then its identifier.
pub open spec fn key_of(record: ProcessedLogView) -> (Seq<char>, Seq<char>) {
    (record.tenant_id, record.log_id)
}

/// The names and values of a list of attributes.
pub open spec fn attributes(item: Seq<(String, String)>) -> Seq<(Seq<char>, Seq<char>)> {
    Seq::new(item.len(), |i: int| (item[i].0@, item[i].1@))
}

/// A log that is delivered and processed again is written to the same place and, but for the
/// time of processing, with the same content: the two items differ in their last attribute at
/// most.
pub proof fn redelivery_overwrites(
    log: NormalizedLogView,
    first_time: Seq<char>,
    second_time: Seq<char>,
)
    ensures
        key_of(processed(log, redacted(log.text), first_time)) == key_of(
            processed(log, redacted(log.text), second_time),
        ),
        forall|i: int|
            0 <= i < 5 ==> item_of(processed(log, redacted(log.text), first_time))[i] == item_of(
                processed(log, redacted(log.text), second_time),
            )[i],
{
}

/// Lays a record out as the item that is written to the store.
pub fn store_item(record: ProcessedLog) -> (item: Vec<(String, String)>)
    ensures
        attributes(item@) == item_of(record@),
{
    let mut item: Vec<(String, String)> = Vec::new();
    item.push((ATTR_TENANT_ID.to_owned(), record.tenant_id));
    item.push((ATTR_LOG_ID.to_owned(), record.log_id));
    item.push((ATTR_SOURCE.to_owned(), record.source));
    item.push((ATTR_ORIGINAL_TEXT.to_owned(), record.original_text));
    item.push((ATTR_MODIFIED_DATA.to_owned(), record.modified_data));
    item.push((ATTR_PROCESSED_AT.to_owned(), record.processed_at));
    proof {
        assert(attributes(item@) =~= item_of(record@));
    }
    item
}

} // verus!
