use crate::extract::ExtractError;
use crate::extract::error_of;
use crate::extract::extractable;
use crate::extract::record_of;
use crate::json::JsonValue;
use crate::render::gen_yml;
use crate::render::rendered;
use vstd::prelude::*;

verus! {

/// The document that serde_json reads out of a response body, carried over
/// into the library's own value type, or `None` where serde_json rejects
/// the body. The result depends on the body's characters alone.
pub uninterp spec fn parsed_document(s: Seq<char>) -> Option<JsonValue>;

#[verifier::external_type_specification]
#[verifier::external_body]
pub struct ExJsonValue(serde_json::Value);

/// Relies on serde_json's Value variants: each arm moves one variant's
/// content into the library's value type. Object entries keep serde_json's
/// iteration order; a number's value is not carried, since the citation
/// logic never reads one.
#[verifier::external_body]
fn value_into_json(v: serde_json::Value) -> JsonValue {
    match v {
        serde_json::Value::Null => JsonValue::Null,
        serde_json::Value::Bool(b) => JsonValue::Bool(b),
        serde_json::Value::Number(_) => JsonValue::Num,
        serde_json::Value::String(s) => JsonValue::Str(s),
        serde_json::Value::Array(a) => JsonValue::Arr(
            a.into_iter().map(value_into_json).collect(),
        ),
        serde_json::Value::Object(m) => JsonValue::Obj(
            m.into_iter().map(|(k, w)| (k, value_into_json(w))).collect(),
        ),
    }
}

/// Relies on serde_json::from_str: whether a body parses, and the document
/// it parses to, depend on the body's characters alone.
#[verifier::external_body]
fn parse_json(s: &str) -> (r: Option<JsonValue>)
    ensures
        r == parsed_document(s@),
{
    match serde_json::from_str::<serde_json::Value>(s) {
        Ok(v) => Some(value_into_json(v)),
        Err(_) => None,
    }
}

/// Why processing a fetched response body failed.
#[derive(Clone, Copy, Debug, PartialEq, Eq, Structural)]
pub enum ProcessError {
    /// The body is not a document that serde_json accepts.
    BadBody,
    /// The body parsed, and extraction failed on the article document.
    Extract(ExtractError),
}

impl ProcessError {
    /// The message text that describes this error.
    pub open spec fn spec_message(self) -> Seq<char> {
        match self {
            ProcessError::BadBody => "response body is not valid JSON"@,
            ProcessError::Extract(e) => e.spec_message(),
        }
    }

    /// A human-readable description of the failure.
    pub fn message(&self) -> (r: String)
        ensures
            r@ == self.spec_message(),
    {
        match self {
            ProcessError::BadBody => String::from_str("response body is not valid JSON"),
            ProcessError::Extract(e) => e.message(),
        }
    }
}

/// The per-identifier sub-document of a response: the value under `result`
/// and then under the identifier itself. A missing key yields null, as
/// indexing into a document does.
pub open spec fn article_of(doc: JsonValue, id: Seq<char>) -> JsonValue {
    match doc.spec_get("result"@) {
        Some(res) => match res.spec_get(id) {
            Some(a) => a,
            None => JsonValue::Null,
        },
        None => JsonValue::Null,
    }
}

/// Turns one fetched response body into the rendered citation text for
/// `id`: parses the body, picks the article document under `result` and the
/// identifier, and extracts and renders its record.
pub fn process_response(body: &str, id: &str) -> (r: Result<String, ProcessError>)
    ensures
        match r {
            Ok(t) => parsed_document(body@) matches Some(doc) && extractable(article_of(doc, id@))
                && (exists|rec|
                #[trigger] record_of(article_of(doc, id@), rec) && t@ == rendered(rec)),
            Err(pe) => match pe {
                ProcessError::BadBody => parsed_document(body@) is None,
                ProcessError::Extract(e) => parsed_document(body@) matches Some(doc) && error_of(
                    article_of(doc, id@),
                    e,
                ),
            },
        },
{
    let doc = match parse_json(body) {
        Some(d) => d,
        None => {
            return Err(ProcessError::BadBody);
        },
    };
    let null = JsonValue::Null;
    let res = match doc.get("result") {
        Some(v) => v,
        None => &null,
    };
    let article = match res.get(id) {
        Some(v) => v,
        None => &null,
    };
    proof {
        assert(*article == article_of(doc, id@));
    }
    match gen_yml(article) {
        Ok(t) => Ok(t),
        Err(e) => Err(ProcessError::Extract(e)),
    }
}

} // verus!
