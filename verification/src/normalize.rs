use http::HeaderMap;
use http::HeaderValue;
use vstd::prelude::*;
use vstd::string::StringExecFns;
use vstd::utf8::*;

use crate::headers::{header_text, header_texts, header_value, is_plain_name, lower_case};
use crate::ids::{fresh_log_id, is_random_id, lemma_random_id_is_not_nil, NIL_LOG_ID};
use crate::json::{json_document, parse_json, string_member};
use crate::metadata::Metadata;
use crate::model::{NormalizedLog, NormalizedLogView, LOG_ID_KEY, SOURCE_JSON, SOURCE_PLAINTEXT};
use crate::text::{optional_chars, str_eq, utf8_text};

verus! {

/// The header that names the kind of a request's body, in lower case.
pub const CONTENT_TYPE_HEADER: &'static str = "content-type";

/// The header that names the kind of a request's body, in its canonical spelling.
pub const CONTENT_TYPE_HEADER_CANONICAL: &'static str = "Content-Type";

/// The header that names the tenant of a plain-text request.
pub const TENANT_HEADER: &'static str = "X-Tenant-ID";

/// The content type of a plain-text request.
pub const CONTENT_TYPE_PLAINTEXT: &'static str = "text/plain";

/// The content type of a JSON request.
pub const CONTENT_TYPE_JSON: &'static str = "application/json";

/// The member of a JSON request that names the tenant.
pub const TENANT_ID_FIELD: &'static str = "tenant_id";

/// The member of a JSON request that holds the record's identifier.
pub const LOG_ID_FIELD: &'static str = "log_id";

/// The member of a JSON request that holds the log content.
pub const TEXT_FIELD: &'static str = "text";

/// Why a request was not normalized.
#[derive(Debug)]
pub enum NormalizeError {
    /// The request has no content-type header that can be read as text.
    MissingContentType,
    /// The content type is neither plain text nor JSON.
    UnsupportedContentType { content_type: String },
    /// The body is not UTF-8 text.
    Decode,
    /// The body of a JSON request is not a JSON object with the members of a log submission.
    Schema,
    /// A plain-text request names no tenant.
    MissingTenant,
}

/// The mathematical value of a [`NormalizeError`].
pub ghost enum NormalizeErrorView {
    MissingContentType,
    UnsupportedContentType { content_type: Seq<char> },
    Decode,
    Schema,
    MissingTenant,
}

impl View for NormalizeError {
    type V = NormalizeErrorView;

    open spec fn view(&self) -> NormalizeErrorView {
        match self {
            NormalizeError::MissingContentType => NormalizeErrorView::MissingContentType,
            NormalizeError::UnsupportedContentType { content_type } => {
                NormalizeErrorView::UnsupportedContentType { content_type: content_type@ }
            },
            NormalizeError::Decode => NormalizeErrorView::Decode,
            NormalizeError::Schema => NormalizeErrorView::Schema,
            NormalizeError::MissingTenant => NormalizeErrorView::MissingTenant,
        }
    }
}

/// The words in which an error is reported to the caller.
pub open spec fn message_of(error: NormalizeErrorView) -> Seq<char> {
    match error {
        NormalizeErrorView::MissingContentType => "Missing Content-Type header"@,
        NormalizeErrorView::UnsupportedContentType { content_type } => {
            "Unsupported content-type: "@ + content_type
        },
        NormalizeErrorView::Decode => "Invalid UTF-8 in body"@,
        NormalizeErrorView::Schema => "Failed to parse JSON body"@,
        NormalizeErrorView::MissingTenant => "Missing X-Tenant-ID header"@,
    }
}

impl NormalizeError {
    /// The words in which the error is reported to the caller.
    pub fn message(&self) -> (text: String)
        ensures
            text@ == message_of(self@),
    {
        match self {
            NormalizeError::MissingContentType => "Missing Content-Type header".to_owned(),
            NormalizeError::UnsupportedContentType { content_type } => {
                let mut text = "Unsupported content-type: ".to_owned();
                text.append(content_type.as_str());
                text
            },
            NormalizeError::Decode => "Invalid UTF-8 in body".to_owned(),
            NormalizeError::Schema => "Failed to parse JSON body".to_owned(),
            NormalizeError::MissingTenant => "Missing X-Tenant-ID header".to_owned(),
        }
    }
}

/// The kinds of body that are taken.
#[derive(Debug, Clone, Copy, PartialEq, Eq, Structural)]
pub enum BodyKind {
    /// Raw text, whose tenant is named by a header.
    Plaintext,
    /// A JSON object that names its tenant itself.
    Json,
}

/// The kind of body that a content type announces, or the error with which the request is
/// rejected where it announces none that is taken.
pub open spec fn kind_of(content_type: Option<Seq<char>>) -> Result<BodyKind, NormalizeErrorView> {
    match content_type {
        None => Err(NormalizeErrorView::MissingContentType),
        Some(content_type) => {
            if content_type == CONTENT_TYPE_PLAINTEXT@ {
                Ok(BodyKind::Plaintext)
            } else if content_type == CONTENT_TYPE_JSON@ {
                Ok(BodyKind::Json)
            } else {
                Err(NormalizeErrorView::UnsupportedContentType { content_type })
            }
        },
    }
}

/// The source that a record of a kind of body is marked with.
pub open spec fn source_of(kind: BodyKind) -> Seq<char> {
    match kind {
        BodyKind::Plaintext => SOURCE_PLAINTEXT@,
        BodyKind::Json => SOURCE_JSON@,
    }
}

/// The record of a submission: its tenant, its content, the kind it came in as, and its
/// identifier as the only annotation.
pub open spec fn record(
    tenant_id: Seq<char>,
    log_id: Seq<char>,
    text: Seq<char>,
    source: Seq<char>,
) -> NormalizedLogView {
    NormalizedLogView {
        tenant_id,
        text,
        source: Some(source),
        timestamp: None,
        tags: None,
        metadata: Some(Map::<Seq<char>, Seq<char>>::empty().insert(LOG_ID_KEY@, log_id)),
    }
}

/// What normalization owes for a request.
pub ghost enum Verdict {
    /// The request is rejected with this error.
    Rejected { error: NormalizeErrorView },
    /// The request is accepted as this record.
    Accepted { log: NormalizedLogView },
    /// The request is accepted as a plain-text record of this tenant and content, under an
    /// identifier that is made for it.
    AcceptedUnderNewId { tenant_id: Seq<char>, text: Seq<char> },
}

/// Whether a result is what a verdict owes.
pub open spec fn meets(result: Result<NormalizedLog, NormalizeError>, verdict: Verdict) -> bool {
    match verdict {
        Verdict::Rejected { error } => result matches Err(e) && e@ == error,
        Verdict::Accepted { log } => result matches Ok(l) && l@ == log,
        Verdict::AcceptedUnderNewId { tenant_id, text } => {
            &&& result matches Ok(l)
            &&& l@.log_id() matches Some(log_id)
            &&& is_random_id(log_id)
            &&& l@ == record(tenant_id, log_id, text, SOURCE_PLAINTEXT@)
        },
    }
}

/// The verdict on the members of a JSON request: accepted where tenant, identifier and content
/// are there and the tenant is named, rejected for its schema otherwise.
pub open spec fn fields_verdict(
    tenant_id: Option<Seq<char>>,
    log_id: Option<Seq<char>>,
    text: Option<Seq<char>>,
) -> Verdict {
    if tenant_id is Some && log_id is Some && text is Some && tenant_id->0.len() > 0 {
        Verdict::Accepted { log: record(tenant_id->0, log_id->0, text->0, SOURCE_JSON@) }
    } else {
        Verdict::Rejected { error: NormalizeErrorView::Schema }
    }
}

/// What a map holds under a key.
pub open spec fn member(members: Map<Seq<char>, Seq<char>>, key: Seq<char>) -> Option<Seq<char>> {
    if members.contains_key(key) {
        Some(members[key])
    } else {
        None
    }
}

/// The verdict on the body of a JSON request.
pub open spec fn json_verdict(body: Seq<char>) -> Verdict {
    match json_document(body) {
        Some(members) => fields_verdict(
            member(members, TENANT_ID_FIELD@),
            member(members, LOG_ID_FIELD@),
            member(members, TEXT_FIELD@),
        ),
        None => Verdict::Rejected { error: NormalizeErrorView::Schema },
    }
}

/// The verdict on a plain-text request with this tenant header: accepted where the header is
/// there and names a tenant.
pub open spec fn tenant_verdict(tenant_id: Option<Seq<char>>, body: Seq<char>) -> Verdict {
    match tenant_id {
        Some(tenant_id) if tenant_id.len() > 0 => Verdict::AcceptedUnderNewId {
            tenant_id,
            text: body,
        },
        _ => Verdict::Rejected { error: NormalizeErrorView::MissingTenant },
    }
}

/// The verdict on a plain-text request.
pub open spec fn plaintext_verdict(texts: Map<Seq<char>, Seq<char>>, body: Seq<char>) -> Verdict {
    tenant_verdict(header_value(texts, TENANT_HEADER@), body)
}

/// The verdict on a request whose body is this text.
pub open spec fn text_verdict(texts: Map<Seq<char>, Seq<char>>, body: Seq<char>) -> Verdict {
    match kind_of(header_value(texts, CONTENT_TYPE_HEADER@)) {
        Ok(BodyKind::Plaintext) => plaintext_verdict(texts, body),
        Ok(BodyKind::Json) => json_verdict(body),
        Err(error) => Verdict::Rejected { error },
    }
}

/// The verdict on a request: a body that is not UTF-8 text is rejected before anything else is
/// looked at.
pub open spec fn verdict(texts: Map<Seq<char>, Seq<char>>, body: Seq<u8>) -> Verdict {
    if valid_utf8(body) {
        text_verdict(texts, decode_utf8(body))
    } else {
        Verdict::Rejected { error: NormalizeErrorView::Decode }
    }
}

/// The names under which headers are looked up are plain, and the two spellings of the
/// content-type header are one name.
pub proof fn lemma_header_names()
    ensures
        is_plain_name(CONTENT_TYPE_HEADER@),
        is_plain_name(CONTENT_TYPE_HEADER_CANONICAL@),
        is_plain_name(TENANT_HEADER@),
        lower_case(CONTENT_TYPE_HEADER_CANONICAL@) == lower_case(CONTENT_TYPE_HEADER@),
{
    reveal_strlit("content-type");
    reveal_strlit("Content-Type");
    reveal_strlit("X-Tenant-ID");
    assert(lower_case(CONTENT_TYPE_HEADER_CANONICAL@) =~= lower_case(CONTENT_TYPE_HEADER@));
}

/// The two content types that are taken differ from one another.
pub proof fn lemma_content_types_differ()
    ensures
        CONTENT_TYPE_PLAINTEXT@ != CONTENT_TYPE_JSON@,
{
    reveal_strlit("text/plain");
    reveal_strlit("application/json");
    assert(CONTENT_TYPE_PLAINTEXT@.len() != CONTENT_TYPE_JSON@.len());
}

/// A record that normalization hands out may go to the transport: it names its tenant, and its
/// source says how the request was read.
pub proof fn accepted_record_is_publishable(
    texts: Map<Seq<char>, Seq<char>>,
    body: Seq<u8>,
    result: Result<NormalizedLog, NormalizeError>,
)
    requires
        meets(result, verdict(texts, body)),
    ensures
        result matches Ok(log) ==> log@.publishable(),
{
}

/// A JSON request whose body is a JSON object that names a tenant and holds an identifier and a
/// content is accepted: the record's source is `json`, its identifier is the one that the client
/// gave, and tenant and content are those of the body.
pub proof fn json_request_is_accepted(
    texts: Map<Seq<char>, Seq<char>>,
    body: Seq<u8>,
    members: Map<Seq<char>, Seq<char>>,
    result: Result<NormalizedLog, NormalizeError>,
)
    requires
        valid_utf8(body),
        header_value(texts, CONTENT_TYPE_HEADER@) == Some(CONTENT_TYPE_JSON@),
        json_document(decode_utf8(body)) == Some(members),
        members.contains_key(TENANT_ID_FIELD@),
        members.contains_key(LOG_ID_FIELD@),
        members.contains_key(TEXT_FIELD@),
        members[TENANT_ID_FIELD@].len() > 0,
        meets(result, verdict(texts, body)),
    ensures
        result matches Ok(log) && {
            &&& log@.source == Some(SOURCE_JSON@)
            &&& log@.log_id() == Some(members[LOG_ID_FIELD@])
            &&& log@.tenant_id == members[TENANT_ID_FIELD@]
            &&& log@.text == members[TEXT_FIELD@]
        },
{
    lemma_content_types_differ();
}

/// A plain-text request whose tenant header names a tenant is accepted: the record's source is
/// `plaintext`, its content is the decoded body and nothing else, its tenant is the header's, and
/// it carries a random identifier, which is not empty and not the nil identifier.
pub proof fn plaintext_request_is_accepted(
    texts: Map<Seq<char>, Seq<char>>,
    body: Seq<u8>,
    tenant_id: Seq<char>,
    result: Result<NormalizedLog, NormalizeError>,
)
    requires
        valid_utf8(body),
        header_value(texts, CONTENT_TYPE_HEADER@) == Some(CONTENT_TYPE_PLAINTEXT@),
        header_value(texts, TENANT_HEADER@) == Some(tenant_id),
        tenant_id.len() > 0,
        meets(result, verdict(texts, body)),
    ensures
        result matches Ok(log) && {
            &&& log@.source == Some(SOURCE_PLAINTEXT@)
            &&& log@.text == decode_utf8(body)
            &&& log@.tenant_id == tenant_id
            &&& log@.log_id() matches Some(log_id)
            &&& is_random_id(log_id)
            &&& log_id.len() > 0
            &&& log_id != NIL_LOG_ID@
        },
{
    lemma_random_id_is_not_nil(result->Ok_0@.log_id()->0);
}

/// A request without a content type, with a content type that is neither plain text nor JSON,
/// or in plain text without a tenant is rejected, each with its own error, and no record is made.
pub proof fn faulty_request_is_rejected(
    texts: Map<Seq<char>, Seq<char>>,
    body: Seq<u8>,
    result: Result<NormalizedLog, NormalizeError>,
)
    requires
        valid_utf8(body),
        meets(result, verdict(texts, body)),
    ensures
        header_value(texts, CONTENT_TYPE_HEADER@) is None ==> {
            &&& result matches Err(error)
            &&& error@ == NormalizeErrorView::MissingContentType
        },
        header_value(texts, CONTENT_TYPE_HEADER@) matches Some(content_type) ==> (content_type
            != CONTENT_TYPE_PLAINTEXT@ && content_type != CONTENT_TYPE_JSON@ ==> {
            &&& result matches Err(error)
            &&& error@ == NormalizeErrorView::UnsupportedContentType { content_type }
        }),
        header_value(texts, CONTENT_TYPE_HEADER@) == Some(CONTENT_TYPE_PLAINTEXT@) && header_value(
            texts,
            TENANT_HEADER@,
        ) is None ==> {
            &&& result matches Err(error)
            &&& error@ == NormalizeErrorView::MissingTenant
        },
{
}

/// Being rejected is a matter of the request alone: whenever the same request is normalized
/// again, it is rejected again, with the same error.
pub proof fn rejection_is_repeatable(
    texts: Map<Seq<char>, Seq<char>>,
    body: Seq<u8>,
    first: Result<NormalizedLog, NormalizeError>,
    second: Result<NormalizedLog, NormalizeError>,
)
    requires
        meets(first, verdict(texts, body)),
        meets(second, verdict(texts, body)),
        first is Err,
    ensures
        second matches Err(error) && error@ == first->Err_0@,
{
}

impl BodyKind {
    /// The source that a record of this kind of body is marked with.
    pub fn source(self) -> (source: &'static str)
        ensures
            source@ == source_of(self),
    {
        match self {
            BodyKind::Plaintext => SOURCE_PLAINTEXT,
            BodyKind::Json => SOURCE_JSON,
        }
    }
}

/// Tells from the content type of a request which kind of body it has.
pub fn body_kind(content_type: Option<String>) -> (kind: Result<BodyKind, NormalizeError>)
    ensures
        match kind_of(optional_chars(content_type)) {
            Ok(expected) => kind == Ok::<BodyKind, NormalizeError>(expected),
            Err(error) => kind matches Err(e) && e@ == error,
        },
{
    match content_type {
        Some(content_type) => {
            if str_eq(content_type.as_str(), CONTENT_TYPE_PLAINTEXT) {
                Ok(BodyKind::Plaintext)
            } else if str_eq(content_type.as_str(), CONTENT_TYPE_JSON) {
                Ok(BodyKind::Json)
            } else {
                Err(NormalizeError::UnsupportedContentType { content_type })
            }
        },
        None => Err(NormalizeError::MissingContentType),
    }
}

/// Makes the record of a submission of a kind.
fn make_record(tenant_id: String, log_id: String, text: String, kind: BodyKind) -> (log: NormalizedLog)
    ensures
        log@ == record(tenant_id@, log_id@, text@, source_of(kind)),
{
    let mut metadata = Metadata::new();
    metadata.insert(LOG_ID_KEY.to_owned(), log_id);
    NormalizedLog {
        tenant_id,
        text,
        source: Some(kind.source().to_owned()),
        timestamp: None,
        tags: None,
        metadata: Some(metadata),
    }
}

/// Makes the record of a JSON request from the members that were found in its body.
pub fn accept_fields(
    tenant_id: Option<String>,
    log_id: Option<String>,
    text: Option<String>,
) -> (result: Result<NormalizedLog, NormalizeError>)
    ensures
        meets(
            result,
            fields_verdict(optional_chars(tenant_id), optional_chars(log_id), optional_chars(text)),
        ),
{
    match (tenant_id, log_id, text) {
        (Some(tenant_id), Some(log_id), Some(text)) => {
            if tenant_id.as_str().is_empty() {
                Err(NormalizeError::Schema)
            } else {
                Ok(make_record(tenant_id, log_id, text, BodyKind::Json))
            }
        },
        _ => Err(NormalizeError::Schema),
    }
}

/// Normalizes the body of a JSON request.
pub fn handle_json(body: &str) -> (result: Result<NormalizedLog, NormalizeError>)
    ensures
        meets(result, json_verdict(body@)),
{
    match parse_json(body) {
        Ok(document) => {
            let tenant_id = string_member(&document, TENANT_ID_FIELD);
            let log_id = string_member(&document, LOG_ID_FIELD);
            let text = string_member(&document, TEXT_FIELD);
            accept_fields(tenant_id, log_id, text)
        },
        Err(_) => Err(NormalizeError::Schema),
    }
}

/// Makes the record of a plain-text request from its tenant header, its body and the
/// identifier that was made for it.
pub fn accept_plaintext(tenant_id: Option<String>, log_id: String, body: &str) -> (result:
    Result<NormalizedLog, NormalizeError>)
    ensures
        match tenant_verdict(optional_chars(tenant_id), body@) {
            Verdict::AcceptedUnderNewId { tenant_id, text } => result matches Ok(log) && log@
                == record(tenant_id, log_id@, text, SOURCE_PLAINTEXT@),
            verdict => meets(result, verdict),
        },
{
    match tenant_id {
        Some(tenant_id) => {
            if tenant_id.as_str().is_empty() {
                Err(NormalizeError::MissingTenant)
            } else {
                Ok(make_record(tenant_id, log_id, body.to_owned(), BodyKind::Plaintext))
            }
        },
        None => Err(NormalizeError::MissingTenant),
    }
}

/// Normalizes a plain-text request.
pub fn handle_plaintext(headers: &HeaderMap<HeaderValue>, body: &str) -> (result:
    Result<NormalizedLog, NormalizeError>)
    ensures
        meets(result, plaintext_verdict(header_texts(*headers), body@)),
{
    proof {
        lemma_header_names();
    }
    let tenant_id = header_text(headers, TENANT_HEADER);
    match tenant_id {
        Some(tenant_id) => accept_plaintext(Some(tenant_id), fresh_log_id(), body),
        None => Err(NormalizeError::MissingTenant),
    }
}

/// Turns a request, given by its headers and its body, into a log record, or rejects it.
pub fn normalize(headers: &HeaderMap<HeaderValue>, body: &[u8]) -> (result:
    Result<NormalizedLog, NormalizeError>)
    ensures
        meets(result, verdict(header_texts(*headers), body@)),
        result matches Ok(log) ==> log@.publishable(),
{
    proof {
        lemma_header_names();
    }
    let content_type = match header_text(headers, CONTENT_TYPE_HEADER) {
        Some(content_type) => Some(content_type),
        None => header_text(headers, CONTENT_TYPE_HEADER_CANONICAL),
    };
    let text = match utf8_text(body) {
        Some(text) => text,
        None => {
            return Err(NormalizeError::Decode);
        },
    };
    match body_kind(content_type) {
        Ok(BodyKind::Plaintext) => handle_plaintext(headers, text),
        Ok(BodyKind::Json) => handle_json(text),
        Err(error) => Err(error),
    }
}

} // verus!
