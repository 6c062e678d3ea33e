use vstd::prelude::*;

use crate::metadata::Metadata;
use crate::text::optional_chars;

verus! {

/// The `source` of a record that came in as JSON.
pub const SOURCE_JSON: &'static str = "json";

/// The `source` of a record that came in as plain text.
pub const SOURCE_PLAINTEXT: &'static str = "plaintext";

/// The `source` given to a processed record whose log names none.
pub const SOURCE_UNKNOWN: &'static str = "unknown";

/// The metadata key under which a record's identifier is kept.
pub const LOG_ID_KEY: &'static str = "log_id";

/// A log submission in canonical shape, as it travels from normalization to processing.
#[derive(Debug)]
pub struct NormalizedLog {
    /// The owning tenant.
    pub tenant_id: String,
    /// The raw log content.
    pub text: String,
    /// Which kind of submission the record was made from.
    pub source: Option<String>,
    /// A timestamp supplied by the client.
    pub timestamp: Option<String>,
    /// Free-form labels.
    pub tags: Option<Vec<String>>,
    /// Annotations; the record's identifier is kept under [`LOG_ID_KEY`].
    pub metadata: Option<Metadata>,
}

/// The mathematical value of a [`NormalizedLog`].
pub ghost struct NormalizedLogView {
    pub tenant_id: Seq<char>,
    pub text: Seq<char>,
    pub source: Option<Seq<char>>,
    pub timestamp: Option<Seq<char>>,
    pub tags: Option<Seq<Seq<char>>>,
    pub metadata: Option<Map<Seq<char>, Seq<char>>>,
}

impl View for NormalizedLog {
    type V = NormalizedLogView;

    open spec fn view(&self) -> NormalizedLogView {
        NormalizedLogView {
            tenant_id: self.tenant_id@,
            text: self.text@,
            source: optional_chars(self.source),
            timestamp: optional_chars(self.timestamp),
            tags: match self.tags {
                Some(tags) => Some(tags.deep_view()),
                None => None,
            },
            metadata: match self.metadata {
                Some(metadata) => Some(metadata@),
                None => None,
            },
        }
    }
}

/// A copy of a list of strings.
fn clone_strings(strings: &Vec<String>) -> (copy: Vec<String>)
    ensures
        copy.deep_view() == strings.deep_view(),
{
    let mut copy: Vec<String> = Vec::new();
    let mut i: usize = 0;
    while i < strings.len()
        invariant
            i <= strings.len(),
            copy@ == strings@.take(i as int),
        decreases strings.len() - i,
    {
        let item = strings[i].clone();
        proof {
            assert(strings@.take(i + 1) =~= strings@.take(i as int).push(strings@[i as int]));
        }
        copy.push(item);
        i += 1;
    }
    proof {
        assert(strings@.take(i as int) =~= strings@);
        assert(copy.deep_view() =~= strings.deep_view());
    }
    copy
}

/// A copy of an optional string.
fn clone_text(text: &Option<String>) -> (copy: Option<String>)
    ensures
        optional_chars(copy) == optional_chars(*text),
{
    match text {
        Some(text) => Some(text.clone()),
        None => None,
    }
}

impl Clone for NormalizedLog {
    /// A copy of the same value.
    fn clone(&self) -> (copy: NormalizedLog)
        ensures
            copy@ == self@,
    {
        NormalizedLog {
            tenant_id: self.tenant_id.clone(),
            text: self.text.clone(),
            source: clone_text(&self.source),
            timestamp: clone_text(&self.timestamp),
            tags: match &self.tags {
                Some(tags) => Some(clone_strings(tags)),
                None => None,
            },
            metadata: match &self.metadata {
                Some(metadata) => Some(metadata.clone()),
                None => None,
            },
        }
    }
}

impl NormalizedLogView {
    /// Whether the record may be handed to the transport: it names its tenant, and its source is
    /// one of the two kinds of submission.
    pub open spec fn publishable(self) -> bool {
        &&& self.tenant_id.len() > 0
        &&& (self.source == Some(SOURCE_JSON@) || self.source == Some(SOURCE_PLAINTEXT@))
    }

    /// The identifier that the record carries, if it carries one.
    pub open spec fn log_id(self) -> Option<Seq<char>> {
        match self.metadata {
            Some(metadata) if metadata.contains_key(LOG_ID_KEY@) => Some(metadata[LOG_ID_KEY@]),
            _ => None,
        }
    }
}

/// The final record of a processed log, keyed in the store by tenant and log identifier.
#[derive(Debug)]
pub struct ProcessedLog {
    /// The owning tenant: the store's partition key.
    pub tenant_id: String,
    /// The record's identifier: the store's sort key.
    pub log_id: String,
    /// Which kind of submission the record was made from.
    pub source: String,
    /// The log content as it came in.
    pub original_text: String,
    /// The log content after redaction.
    pub modified_data: String,
    /// When processing finished, as an ISO 8601 timestamp.
    pub processed_at: String,
}

/// The mathematical value of a [`ProcessedLog`].
pub ghost struct ProcessedLogView {
    pub tenant_id: Seq<char>,
    pub log_id: Seq<char>,
    pub source: Seq<char>,
    pub original_text: Seq<char>,
    pub modified_data: Seq<char>,
    pub processed_at: Seq<char>,
}

impl Clone for ProcessedLog {
    /// A copy of the same value.
    fn clone(&self) -> (copy: ProcessedLog)
        ensures
            copy@ == self@,
    {
        ProcessedLog {
            tenant_id: self.tenant_id.clone(),
            log_id: self.log_id.clone(),
            source: self.source.clone(),
            original_text: self.original_text.clone(),
            modified_data: self.modified_data.clone(),
            processed_at: self.processed_at.clone(),
        }
    }
}

impl View for ProcessedLog {
    type V = ProcessedLogView;

    open spec fn view(&self) -> ProcessedLogView {
        ProcessedLogView {
            tenant_id: self.tenant_id@,
            log_id: self.log_id@,
            source: self.source@,
            original_text: self.original_text@,
            modified_data: self.modified_data@,
            processed_at: self.processed_at@,
        }
    }
}

} // verus!
