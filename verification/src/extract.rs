use crate::date::iso_date;
use crate::date::normalize_datetime;
use crate::date::pubmed_datetime_parsed;
use crate::json::JsonValue;
use crate::json::str_eq;
use vstd::prelude::*;

verus! {

/// Why extraction gave up on a document. Every failure aborts the whole
/// record; there is no partial recovery.
#[derive(Clone, Copy, Debug, PartialEq, Eq, Structural)]
pub enum ExtractError {
    /// The document carries no `authors` array.
    NoAuthors,
    /// An author entry carries no string `name` field.
    AuthorWithoutName,
    /// The document carries no `articleids` array.
    NoArticleIds,
    /// An article id entry lacks a string `idtype` or `value` field.
    MalformedArticleId,
    /// No article id entry has the id type `doi`.
    NoDoi,
    /// The document carries no `history` array.
    NoHistory,
    /// A history entry lacks a string `pubstatus`, or the matching entry
    /// lacks a string `date`.
    MalformedHistoryEntry,
    /// No history entry has the publication status `pubmed`.
    NoPubmedHistory,
    /// The matching history entry's date is not a `YYYY/MM/DD HH:MM`
    /// timestamp with a four-digit year.
    BadDate,
    /// The document carries no string `title` field.
    NoTitle,
    /// The document carries no string `uid` field.
    NoUid,
}

/// All elements of `items` carry a string `name` field.
pub open spec fn all_named(items: Seq<JsonValue>) -> bool {
    forall|i: int| 0 <= i < items.len() ==> (#[trigger] items[i].spec_get_str("name"@)) is Some
}

/// `names` lists, in order, the `name` field of each element of `items`.
pub open spec fn names_of(items: Seq<JsonValue>, names: Seq<String>) -> bool {
    &&& names.len() == items.len()
    &&& forall|i: int|
        0 <= i < items.len() ==> Some((#[trigger] names[i])@) == items[i].spec_get_str("name"@)
}

/// Reads the author display names out of the document's `authors` array,
/// in source order.
pub fn extract_authors(doc: &JsonValue) -> (r: Result<Vec<String>, ExtractError>)
    ensures
        match r {
            Ok(names) => doc.spec_get_arr("authors"@) matches Some(items) && all_named(items)
                && names_of(items, names@),
            Err(e) => match e {
                ExtractError::NoAuthors => doc.spec_get_arr("authors"@) is None,
                ExtractError::AuthorWithoutName => doc.spec_get_arr("authors"@) matches Some(items)
                    && !all_named(items),
                _ => false,
            },
        },
{
    let items = match doc.get("authors") {
        Some(v) => match v {
            JsonValue::Arr(items) => items,
            _ => {
                return Err(ExtractError::NoAuthors);
            },
        },
        None => {
            return Err(ExtractError::NoAuthors);
        },
    };
    let mut names: Vec<String> = Vec::new();
    let n = items.len();
    for i in 0..n
        invariant
            n == items@.len(),
            doc.spec_get_arr("authors"@) == Some(items@),
            names@.len() == i,
            forall|j: int|
                0 <= j < i ==> Some((#[trigger] names@[j])@) == items@[j].spec_get_str("name"@),
    {
        match items[i].get("name") {
            Some(v) => match v {
                JsonValue::Str(s) => names.push(s.clone()),
                _ => {
                    proof {
                        assert(items@[i as int].spec_get_str("name"@) is None);
                    }
                    return Err(ExtractError::AuthorWithoutName);
                },
            },
            None => {
                proof {
                    assert(items@[i as int].spec_get_str("name"@) is None);
                }
                return Err(ExtractError::AuthorWithoutName);
            },
        }
    }
    proof {
        assert forall|j: int| 0 <= j < items@.len() implies (#[trigger] items@[j].spec_get_str(
            "name"@,
        )) is Some by {
            assert(Some(names@[j]@) == items@[j].spec_get_str("name"@));
        }
    }
    Ok(names)
}

/// Every element of `items` carries string `idtype` and `value` fields.
pub open spec fn all_id_pairs(items: Seq<JsonValue>) -> bool {
    forall|i: int|
        0 <= i < items.len() ==> (#[trigger] items[i].spec_get_str("idtype"@)) is Some
            && items[i].spec_get_str("value"@) is Some
}

/// `pairs` lists, in order, the `idtype` and `value` fields of each element
/// of `items`.
pub open spec fn id_pairs_of(items: Seq<JsonValue>, pairs: Seq<(String, String)>) -> bool {
    &&& pairs.len() == items.len()
    &&& forall|i: int|
        0 <= i < items.len() ==> Some((#[trigger] pairs[i]).0@) == items[i].spec_get_str("idtype"@)
            && Some(pairs[i].1@) == items[i].spec_get_str("value"@)
}

/// Reads the article id list out of the document's `articleids` array, as
/// id type and value pairs in source order.
pub fn extract_ids(doc: &JsonValue) -> (r: Result<Vec<(String, String)>, ExtractError>)
    ensures
        match r {
            Ok(pairs) => doc.spec_get_arr("articleids"@) matches Some(items) && all_id_pairs(items)
                && id_pairs_of(items, pairs@),
            Err(e) => match e {
                ExtractError::NoArticleIds => doc.spec_get_arr("articleids"@) is None,
                ExtractError::MalformedArticleId => doc.spec_get_arr("articleids"@) matches Some(
                    items,
                ) && !all_id_pairs(items),
                _ => false,
            },
        },
{
    let items = match doc.get("articleids") {
        Some(v) => match v {
            JsonValue::Arr(items) => items,
            _ => {
                return Err(ExtractError::NoArticleIds);
            },
        },
        None => {
            return Err(ExtractError::NoArticleIds);
        },
    };
    let mut pairs: Vec<(String, String)> = Vec::new();
    let n = items.len();
    for i in 0..n
        invariant
            n == items@.len(),
            doc.spec_get_arr("articleids"@) == Some(items@),
            pairs@.len() == i,
            forall|j: int|
                0 <= j < i ==> Some((#[trigger] pairs@[j]).0@) == items@[j].spec_get_str("idtype"@)
                    && Some(pairs@[j].1@) == items@[j].spec_get_str("value"@),
    {
        let idtype = match items[i].get("idtype") {
            Some(v) => match v {
                JsonValue::Str(s) => s.clone(),
                _ => {
                    proof {
                        assert(items@[i as int].spec_get_str("idtype"@) is None);
                    }
                    return Err(ExtractError::MalformedArticleId);
                },
            },
            None => {
                proof {
                    assert(items@[i as int].spec_get_str("idtype"@) is None);
                }
                return Err(ExtractError::MalformedArticleId);
            },
        };
        let value = match items[i].get("value") {
            Some(v) => match v {
                JsonValue::Str(s) => s.clone(),
                _ => {
                    proof {
                        assert(items@[i as int].spec_get_str("value"@) is None);
                    }
                    return Err(ExtractError::MalformedArticleId);
                },
            },
            None => {
                proof {
                    assert(items@[i as int].spec_get_str("value"@) is None);
                }
                return Err(ExtractError::MalformedArticleId);
            },
        };
        pairs.push((idtype, value));
    }
    proof {
        assert forall|j: int| 0 <= j < items@.len() implies (#[trigger] items@[j].spec_get_str(
            "idtype"@,
        )) is Some && items@[j].spec_get_str("value"@) is Some by {
            assert(Some(pairs@[j].0@) == items@[j].spec_get_str("idtype"@));
        }
    }
    Ok(pairs)
}

/// The value of the last pair whose id type is `key`; a later entry shadows
/// an earlier one with the same id type.
pub open spec fn id_value(pairs: Seq<(String, String)>, key: Seq<char>) -> Option<Seq<char>>
    decreases pairs.len(),
{
    if pairs.len() == 0 {
        None
    } else if pairs.last().0@ == key {
        Some(pairs.last().1@)
    } else {
        id_value(pairs.drop_last(), key)
    }
}

/// Looks an id type up in an id list, at its last binding.
pub fn lookup_id(pairs: &Vec<(String, String)>, key: &str) -> (r: Option<String>)
    ensures
        match r {
            Some(v) => id_value(pairs@, key@) == Some(v@),
            None => id_value(pairs@, key@) is None,
        },
{
    let n = pairs.len();
    let mut i = n;
    proof {
        assert(pairs@.take(n as int) =~= pairs@);
    }
    while 0 < i
        invariant
            0 <= i <= n,
            n == pairs@.len(),
            id_value(pairs@, key@) == id_value(pairs@.take(i as int), key@),
        decreases i,
    {
        let j = i - 1;
        proof {
            assert(pairs@.take(i as int).len() == i);
            assert(pairs@.take(i as int).last() == pairs@[j as int]);
            assert(pairs@.take(i as int).drop_last() =~= pairs@.take(j as int));
        }
        if str_eq(pairs[j].0.as_str(), key) {
            return Some(pairs[j].1.clone());
        }
        i = j;
    }
    proof {
        assert(pairs@.take(0).len() == 0);
    }
    None
}

/// The `value` of the last element of `items` whose `idtype` is `key`.
pub open spec fn id_value_of_items(items: Seq<JsonValue>, key: Seq<char>) -> Option<Seq<char>>
    decreases items.len(),
{
    if items.len() == 0 {
        None
    } else if items.last().spec_get_str("idtype"@) == Some(key) {
        items.last().spec_get_str("value"@)
    } else {
        id_value_of_items(items.drop_last(), key)
    }
}

/// An id list read out of `items` answers a lookup exactly as a scan of
/// `items` itself does.
proof fn lemma_id_value_agrees(items: Seq<JsonValue>, pairs: Seq<(String, String)>, key: Seq<char>)
    requires
        id_pairs_of(items, pairs),
    ensures
        id_value(pairs, key) == id_value_of_items(items, key),
    decreases items.len(),
{
    if items.len() > 0 {
        let m = items.len() - 1;
        assert(Some(pairs[m].0@) == items[m].spec_get_str("idtype"@));
        assert(pairs.last() == pairs[m]);
        assert(items.last() == items[m]);
        if pairs[m].0@ != key {
            assert forall|i: int|
                0 <= i < items.drop_last().len() implies Some(
                (#[trigger] pairs.drop_last()[i]).0@,
            ) == items.drop_last()[i].spec_get_str("idtype"@) && Some(pairs.drop_last()[i].1@)
                == items.drop_last()[i].spec_get_str("value"@) by {
                assert(pairs.drop_last()[i] == pairs[i]);
                assert(items.drop_last()[i] == items[i]);
                assert(Some(pairs[i].0@) == items[i].spec_get_str("idtype"@));
            }
            lemma_id_value_agrees(items.drop_last(), pairs.drop_last(), key);
        }
    }
}

/// Resolves the document's DOI: the value of the last article id whose id
/// type is `doi`.
pub fn extract_doi(doc: &JsonValue) -> (r: Result<String, ExtractError>)
    ensures
        match r {
            Ok(v) => doc.spec_get_arr("articleids"@) matches Some(items) && all_id_pairs(items)
                && id_value_of_items(items, "doi"@) == Some(v@),
            Err(e) => match e {
                ExtractError::NoArticleIds => doc.spec_get_arr("articleids"@) is None,
                ExtractError::MalformedArticleId => doc.spec_get_arr("articleids"@) matches Some(
                    items,
                ) && !all_id_pairs(items),
                ExtractError::NoDoi => doc.spec_get_arr("articleids"@) matches Some(items)
                    && all_id_pairs(items) && id_value_of_items(items, "doi"@) is None,
                _ => false,
            },
        },
{
    let pairs = match extract_ids(doc) {
        Ok(pairs) => pairs,
        Err(e) => {
            return Err(e);
        },
    };
    proof {
        lemma_id_value_agrees(doc.spec_get_arr("articleids"@)->0, pairs@, "doi"@);
    }
    match lookup_id(&pairs, "doi") {
        Some(v) => Ok(v),
        None => Err(ExtractError::NoDoi),
    }
}

/// What a front-to-back scan of the history array yields.
pub enum HistoryScan {
    /// The first entry whose publication status is `pubmed` carries this
    /// date string.
    Date(Seq<char>),
    /// An entry without a string `pubstatus`, or a matching entry without a
    /// string `date`, stopped the scan.
    Malformed,
    /// No entry has the publication status `pubmed`.
    Absent,
}

/// The scan of the history array: walk the entries in order until one has
/// the publication status `pubmed`, and yield its date string.
pub open spec fn scan_history(items: Seq<JsonValue>) -> HistoryScan
    decreases items.len(),
{
    if items.len() == 0 {
        HistoryScan::Absent
    } else {
        match items[0].spec_get_str("pubstatus"@) {
            None => HistoryScan::Malformed,
            Some(st) => if st == "pubmed"@ {
                match items[0].spec_get_str("date"@) {
                    Some(d) => HistoryScan::Date(d),
                    None => HistoryScan::Malformed,
                }
            } else {
                scan_history(items.skip(1))
            },
        }
    }
}

/// `v` carries a string `pubstatus` other than `pubmed`.
pub open spec fn not_pubmed(v: JsonValue) -> bool {
    v.spec_get_str("pubstatus"@) matches Some(st) && st != "pubmed"@
}

/// While every entry before `i` has a publication status other than
/// `pubmed`, the scan of the whole history agrees with the scan from `i`.
proof fn lemma_scan_history_skip(items: Seq<JsonValue>, i: int)
    requires
        0 <= i <= items.len(),
        forall|j: int| 0 <= j < i ==> not_pubmed(#[trigger] items[j]),
    ensures
        scan_history(items) == scan_history(items.skip(i)),
    decreases i,
{
    if i > 0 {
        lemma_scan_history_skip(items, i - 1);
        let s = items.skip(i - 1);
        assert(s[0] == items[i - 1]);
        assert(not_pubmed(items[i - 1]));
        assert(s.skip(1) =~= items.skip(i));
        assert(scan_history(s) == scan_history(s.skip(1)));
    } else {
        assert(items.skip(0) =~= items);
    }
}

/// Reads the publication date out of the document's `history` array: the
/// date of the first entry whose publication status is `pubmed`, normalized
/// from `YYYY/MM/DD HH:MM` to `YYYY-MM-DD`.
pub fn extract_pubdate(doc: &JsonValue) -> (r: Result<String, ExtractError>)
    ensures
        match r {
            Ok(t) => doc.spec_get_arr("history"@) matches Some(items) && scan_history(
                items,
            ) matches HistoryScan::Date(ds) && pubmed_datetime_parsed(ds) matches Some(d) && 0
                <= d.year <= 9999 && t@ == iso_date(d),
            Err(e) => match e {
                ExtractError::NoHistory => doc.spec_get_arr("history"@) is None,
                ExtractError::MalformedHistoryEntry => doc.spec_get_arr(
                    "history"@,
                ) matches Some(items) && scan_history(items) is Malformed,
                ExtractError::NoPubmedHistory => doc.spec_get_arr("history"@) matches Some(items)
                    && scan_history(items) is Absent,
                ExtractError::BadDate => doc.spec_get_arr("history"@) matches Some(items)
                    && scan_history(items) matches HistoryScan::Date(ds) && !(pubmed_datetime_parsed(
                    ds,
                ) matches Some(d) && 0 <= d.year <= 9999),
                _ => false,
            },
        },
{
    let items = match doc.get("history") {
        Some(v) => match v {
            JsonValue::Arr(items) => items,
            _ => {
                return Err(ExtractError::NoHistory);
            },
        },
        None => {
            return Err(ExtractError::NoHistory);
        },
    };
    let n = items.len();
    for i in 0..n
        invariant
            n == items@.len(),
            doc.spec_get_arr("history"@) == Some(items@),
            forall|j: int| 0 <= j < i ==> not_pubmed(#[trigger] items@[j]),
    {
        proof {
            lemma_scan_history_skip(items@, i as int);
            assert(items@.skip(i as int)[0] == items@[i as int]);
        }
        let status = match items[i].get("pubstatus") {
            Some(v) => match v {
                JsonValue::Str(s) => s,
                _ => {
                    proof {
                        assert(items@[i as int].spec_get_str("pubstatus"@) is None);
                    }
                    return Err(ExtractError::MalformedHistoryEntry);
                },
            },
            None => {
                proof {
                    assert(items@[i as int].spec_get_str("pubstatus"@) is None);
                }
                return Err(ExtractError::MalformedHistoryEntry);
            },
        };
        if str_eq(status.as_str(), "pubmed") {
            let ds = match items[i].get("date") {
                Some(v) => match v {
                    JsonValue::Str(s) => s,
                    _ => {
                        proof {
                            assert(items@[i as int].spec_get_str("date"@) is None);
                        }
                        return Err(ExtractError::MalformedHistoryEntry);
                    },
                },
                None => {
                    proof {
                        assert(items@[i as int].spec_get_str("date"@) is None);
                    }
                    return Err(ExtractError::MalformedHistoryEntry);
                },
            };
            return match normalize_datetime(ds.as_str()) {
                Some(t) => Ok(t),
                None => Err(ExtractError::BadDate),
            };
        }
    }
    proof {
        lemma_scan_history_skip(items@, n as int);
        assert(items@.skip(n as int).len() == 0);
    }
    Err(ExtractError::NoPubmedHistory)
}

/// Reads the document's string `title` field.
pub fn extract_title(doc: &JsonValue) -> (r: Result<String, ExtractError>)
    ensures
        match r {
            Ok(t) => doc.spec_get_str("title"@) == Some(t@),
            Err(e) => e == ExtractError::NoTitle && doc.spec_get_str("title"@) is None,
        },
{
    match doc.get("title") {
        Some(v) => match v {
            JsonValue::Str(s) => Ok(s.clone()),
            _ => Err(ExtractError::NoTitle),
        },
        None => Err(ExtractError::NoTitle),
    }
}

/// Reads the document's string `uid` field.
pub fn extract_uid(doc: &JsonValue) -> (r: Result<String, ExtractError>)
    ensures
        match r {
            Ok(t) => doc.spec_get_str("uid"@) == Some(t@),
            Err(e) => e == ExtractError::NoUid && doc.spec_get_str("uid"@) is None,
        },
{
    match doc.get("uid") {
        Some(v) => match v {
            JsonValue::Str(s) => Ok(s.clone()),
            _ => Err(ExtractError::NoUid),
        },
        None => Err(ExtractError::NoUid),
    }
}

/// Reads the document's string `fulljournalname` field; its absence is not
/// an error.
pub fn extract_journal(doc: &JsonValue) -> (r: Option<String>)
    ensures
        match r {
            Some(t) => doc.spec_get_str("fulljournalname"@) == Some(t@),
            None => doc.spec_get_str("fulljournalname"@) is None,
        },
{
    match doc.get("fulljournalname") {
        Some(v) => match v {
            JsonValue::Str(s) => Some(s.clone()),
            _ => None,
        },
        None => None,
    }
}

/// A citation record, as extracted from one article's document. The journal
/// name is the only optional field.
#[derive(Clone, Debug)]
pub struct ArticleRecord {
    pub uid: String,
    pub title: String,
    pub authors: Vec<String>,
    pub pubdate: String,
    pub doi: String,
    pub journal: Option<String>,
}

/// The document's `authors` array is present and each entry carries a name.
pub open spec fn authors_ok(doc: JsonValue) -> bool {
    doc.spec_get_arr("authors"@) matches Some(items) && all_named(items)
}

/// The document's `articleids` array is present and each entry is an id
/// type and value pair.
pub open spec fn ids_ok(doc: JsonValue) -> bool {
    doc.spec_get_arr("articleids"@) matches Some(items) && all_id_pairs(items)
}

/// Some article id has the id type `doi`.
pub open spec fn doi_ok(doc: JsonValue) -> bool {
    ids_ok(doc) && id_value_of_items(doc.spec_get_arr("articleids"@)->0, "doi"@) is Some
}

/// The history scan finds a `pubmed` entry whose date is a
/// `YYYY/MM/DD HH:MM` timestamp with a four-digit year.
pub open spec fn pubdate_ok(doc: JsonValue) -> bool {
    doc.spec_get_arr("history"@) matches Some(items) && scan_history(
        items,
    ) matches HistoryScan::Date(ds) && pubmed_datetime_parsed(ds) matches Some(d) && 0 <= d.year
        <= 9999
}

/// Extraction succeeds exactly on these documents: authors, a DOI, a
/// normalizable pubmed date, a title and a uid are all present.
pub open spec fn extractable(doc: JsonValue) -> bool {
    &&& authors_ok(doc)
    &&& doi_ok(doc)
    &&& pubdate_ok(doc)
    &&& doc.spec_get_str("title"@) is Some
    &&& doc.spec_get_str("uid"@) is Some
}

/// `t` is the ISO form of the date that the history scan and the timestamp
/// parse yield.
pub open spec fn pubdate_matches(doc: JsonValue, t: Seq<char>) -> bool {
    doc.spec_get_arr("history"@) matches Some(items) && scan_history(
        items,
    ) matches HistoryScan::Date(ds) && pubmed_datetime_parsed(ds) matches Some(d) && t == iso_date(
        d,
    )
}

/// `rec` holds exactly the fields that extraction reads out of `doc`:
/// authors in source order, the DOI, the normalized publication date, the
/// title, the uid, and the journal name where the document has one.
pub open spec fn record_of(doc: JsonValue, rec: ArticleRecord) -> bool {
    &&& doc.spec_get_str("uid"@) == Some(rec.uid@)
    &&& doc.spec_get_str("title"@) == Some(rec.title@)
    &&& doc.spec_get_arr("authors"@) matches Some(items) && names_of(items, rec.authors@)
    &&& id_value_of_items(doc.spec_get_arr("articleids"@)->0, "doi"@) == Some(rec.doi@)
    &&& pubdate_matches(doc, rec.pubdate@)
    &&& match rec.journal {
        Some(j) => doc.spec_get_str("fulljournalname"@) == Some(j@),
        None => doc.spec_get_str("fulljournalname"@) is None,
    }
}

/// `e` is the error that extraction reports on `doc`: the errors follow the
/// fixed reading order — authors, article ids and DOI, publication date,
/// title, uid — and the first failure wins.
pub open spec fn error_of(doc: JsonValue, e: ExtractError) -> bool {
    match e {
        ExtractError::NoAuthors => doc.spec_get_arr("authors"@) is None,
        ExtractError::AuthorWithoutName => doc.spec_get_arr("authors"@) matches Some(items)
            && !all_named(items),
        ExtractError::NoArticleIds => authors_ok(doc) && doc.spec_get_arr("articleids"@) is None,
        ExtractError::MalformedArticleId => authors_ok(doc) && (doc.spec_get_arr(
            "articleids"@,
        ) matches Some(items) && !all_id_pairs(items)),
        ExtractError::NoDoi => authors_ok(doc) && ids_ok(doc) && !doi_ok(doc),
        ExtractError::NoHistory => authors_ok(doc) && doi_ok(doc) && doc.spec_get_arr(
            "history"@,
        ) is None,
        ExtractError::MalformedHistoryEntry => authors_ok(doc) && doi_ok(doc) && (doc.spec_get_arr(
            "history"@,
        ) matches Some(items) && scan_history(items) is Malformed),
        ExtractError::NoPubmedHistory => authors_ok(doc) && doi_ok(doc) && (doc.spec_get_arr(
            "history"@,
        ) matches Some(items) && scan_history(items) is Absent),
        ExtractError::BadDate => authors_ok(doc) && doi_ok(doc) && (doc.spec_get_arr(
            "history"@,
        ) matches Some(items) && scan_history(items) matches HistoryScan::Date(ds) && !(
        pubmed_datetime_parsed(ds) matches Some(d) && 0 <= d.year <= 9999)),
        ExtractError::NoTitle => authors_ok(doc) && doi_ok(doc) && pubdate_ok(doc)
            && doc.spec_get_str("title"@) is None,
        ExtractError::NoUid => authors_ok(doc) && doi_ok(doc) && pubdate_ok(doc)
            && doc.spec_get_str("title"@) is Some && doc.spec_get_str("uid"@) is None,
    }
}

/// Extracts the whole citation record. The parts are read in a fixed order
/// — authors, article ids and DOI, publication date, title, uid — and the
/// first failure aborts the record with its error.
pub fn extract_record(doc: &JsonValue) -> (r: Result<ArticleRecord, ExtractError>)
    ensures
        r is Ok <==> extractable(*doc),
        match r {
            Ok(rec) => record_of(*doc, rec),
            Err(e) => error_of(*doc, e),
        },
{
    let authors = match extract_authors(doc) {
        Ok(a) => a,
        Err(e) => {
            return Err(e);
        },
    };
    let doi = match extract_doi(doc) {
        Ok(d) => d,
        Err(e) => {
            return Err(e);
        },
    };
    let pubdate = match extract_pubdate(doc) {
        Ok(p) => p,
        Err(e) => {
            return Err(e);
        },
    };
    let title = match extract_title(doc) {
        Ok(t) => t,
        Err(e) => {
            return Err(e);
        },
    };
    let uid = match extract_uid(doc) {
        Ok(u) => u,
        Err(e) => {
            return Err(e);
        },
    };
    let journal = extract_journal(doc);
    Ok(ArticleRecord { uid, title, authors, pubdate, doi, journal })
}

impl ExtractError {
    /// The message text that describes this error.
    pub open spec fn spec_message(self) -> Seq<char> {
        match self {
            ExtractError::NoAuthors => "no authors found"@,
            ExtractError::AuthorWithoutName => "author without a name"@,
            ExtractError::NoArticleIds => "no articleids found"@,
            ExtractError::MalformedArticleId => "article id without idtype or value"@,
            ExtractError::NoDoi => "no doi found"@,
            ExtractError::NoHistory => "no history found"@,
            ExtractError::MalformedHistoryEntry => "history entry without pubstatus or date"@,
            ExtractError::NoPubmedHistory => "no pubmed history found"@,
            ExtractError::BadDate => "publication date is not a YYYY/MM/DD HH:MM timestamp"@,
            ExtractError::NoTitle => "no title found"@,
            ExtractError::NoUid => "no UID found"@,
        }
    }

    /// A human-readable description naming the missing or malformed field.
    pub fn message(&self) -> (r: String)
        ensures
            r@ == self.spec_message(),
    {
        match self {
            ExtractError::NoAuthors => String::from_str("no authors found"),
            ExtractError::AuthorWithoutName => String::from_str("author without a name"),
            ExtractError::NoArticleIds => String::from_str("no articleids found"),
            ExtractError::MalformedArticleId => String::from_str(
                "article id without idtype or value",
            ),
            ExtractError::NoDoi => String::from_str("no doi found"),
            ExtractError::NoHistory => String::from_str("no history found"),
            ExtractError::MalformedHistoryEntry => String::from_str(
                "history entry without pubstatus or date",
            ),
            ExtractError::NoPubmedHistory => String::from_str("no pubmed history found"),
            ExtractError::BadDate => String::from_str(
                "publication date is not a YYYY/MM/DD HH:MM timestamp",
            ),
            ExtractError::NoTitle => String::from_str("no title found"),
            ExtractError::NoUid => String::from_str("no UID found"),
        }
    }
}

} // verus!
