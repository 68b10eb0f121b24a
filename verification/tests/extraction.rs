use pmcite::date::DateYmd;
use pmcite::date::format_iso_date;
use pmcite::date::normalize_datetime;
use pmcite::extract::ExtractError;
use pmcite::extract::extract_authors;
use pmcite::extract::extract_doi;
use pmcite::extract::extract_ids;
use pmcite::extract::extract_journal;
use pmcite::extract::extract_pubdate;
use pmcite::extract::extract_record;
use pmcite::extract::extract_title;
use pmcite::extract::extract_uid;
use pmcite::extract::lookup_id;
use pmcite::json::JsonValue;

fn jstr(s: &str) -> JsonValue {
    JsonValue::Str(s.to_string())
}

fn obj(entries: Vec<(&str, JsonValue)>) -> JsonValue {
    JsonValue::Obj(entries.into_iter().map(|(k, v)| (k.to_string(), v)).collect())
}

fn author(name: &str) -> JsonValue {
    obj(vec![("name", jstr(name))])
}

fn article_id(idtype: &str, value: &str) -> JsonValue {
    obj(vec![("idtype", jstr(idtype)), ("value", jstr(value))])
}

fn history_entry(pubstatus: &str, date: &str) -> JsonValue {
    obj(vec![("pubstatus", jstr(pubstatus)), ("date", jstr(date))])
}

fn full_doc() -> JsonValue {
    obj(vec![
        ("uid", jstr("12345")),
        ("title", jstr("A study of things")),
        ("fulljournalname", jstr("Journal of Things")),
        (
            "authors",
            JsonValue::Arr(vec![author("Smith J"), author("Doe A")]),
        ),
        (
            "articleids",
            JsonValue::Arr(vec![
                article_id("pubmed", "12345"),
                article_id("doi", "10.1000/j.2020.05.001"),
            ]),
        ),
        (
            "history",
            JsonValue::Arr(vec![
                history_entry("received", "2020/04/01 10:30"),
                history_entry("pubmed", "2020/05/14 00:00"),
            ]),
        ),
    ])
}

#[test]
fn authors_in_source_order() {
    let doc = obj(vec![(
        "authors",
        JsonValue::Arr(vec![author("Smith J"), author("Doe A")]),
    )]);
    let names = extract_authors(&doc).unwrap();
    assert_eq!(names, vec!["Smith J".to_string(), "Doe A".to_string()]);
}

#[test]
fn authors_missing_is_an_error() {
    let doc = obj(vec![("title", jstr("x"))]);
    assert_eq!(extract_authors(&doc).unwrap_err(), ExtractError::NoAuthors);
}

#[test]
fn author_without_name_is_an_error() {
    let doc = obj(vec![(
        "authors",
        JsonValue::Arr(vec![author("Smith J"), obj(vec![("affiliation", jstr("u"))])]),
    )]);
    assert_eq!(
        extract_authors(&doc).unwrap_err(),
        ExtractError::AuthorWithoutName
    );
}

#[test]
fn ids_come_out_as_pairs_in_order() {
    let doc = obj(vec![(
        "articleids",
        JsonValue::Arr(vec![
            article_id("pubmed", "12345"),
            article_id("doi", "10.1000/x"),
        ]),
    )]);
    let pairs = extract_ids(&doc).unwrap();
    assert_eq!(
        pairs,
        vec![
            ("pubmed".to_string(), "12345".to_string()),
            ("doi".to_string(), "10.1000/x".to_string()),
        ]
    );
}

#[test]
fn ids_missing_is_an_error() {
    let doc = obj(vec![]);
    assert_eq!(extract_ids(&doc).unwrap_err(), ExtractError::NoArticleIds);
}

#[test]
fn id_without_value_is_an_error() {
    let doc = obj(vec![(
        "articleids",
        JsonValue::Arr(vec![obj(vec![("idtype", jstr("doi"))])]),
    )]);
    assert_eq!(
        extract_ids(&doc).unwrap_err(),
        ExtractError::MalformedArticleId
    );
}

#[test]
fn lookup_id_takes_the_last_binding() {
    let pairs = vec![
        ("doi".to_string(), "10.1000/first".to_string()),
        ("pubmed".to_string(), "1".to_string()),
        ("doi".to_string(), "10.1000/second".to_string()),
    ];
    assert_eq!(lookup_id(&pairs, "doi"), Some("10.1000/second".to_string()));
    assert_eq!(lookup_id(&pairs, "pmc"), None);
}

#[test]
fn doi_absent_fails_with_a_descriptive_error() {
    let doc = obj(vec![(
        "articleids",
        JsonValue::Arr(vec![article_id("pubmed", "12345")]),
    )]);
    let err = extract_doi(&doc).unwrap_err();
    assert_eq!(err, ExtractError::NoDoi);
    assert_eq!(err.message(), "no doi found");
}

#[test]
fn doi_found_among_ids() {
    let doc = full_doc();
    assert_eq!(extract_doi(&doc).unwrap(), "10.1000/j.2020.05.001");
}

#[test]
fn pubdate_reformats_the_pubmed_history_date() {
    let doc = full_doc();
    assert_eq!(extract_pubdate(&doc).unwrap(), "2020-05-14");
}

#[test]
fn history_without_pubmed_status_fails() {
    let doc = obj(vec![(
        "history",
        JsonValue::Arr(vec![history_entry("received", "2020/04/01 10:30")]),
    )]);
    assert_eq!(
        extract_pubdate(&doc).unwrap_err(),
        ExtractError::NoPubmedHistory
    );
}

#[test]
fn history_missing_is_an_error() {
    let doc = obj(vec![]);
    assert_eq!(extract_pubdate(&doc).unwrap_err(), ExtractError::NoHistory);
}

#[test]
fn history_entry_without_pubstatus_is_an_error() {
    let doc = obj(vec![(
        "history",
        JsonValue::Arr(vec![
            obj(vec![("date", jstr("2020/04/01 10:30"))]),
            history_entry("pubmed", "2020/05/14 00:00"),
        ]),
    )]);
    assert_eq!(
        extract_pubdate(&doc).unwrap_err(),
        ExtractError::MalformedHistoryEntry
    );
}

#[test]
fn pubmed_entry_without_date_is_an_error() {
    let doc = obj(vec![(
        "history",
        JsonValue::Arr(vec![obj(vec![("pubstatus", jstr("pubmed"))])]),
    )]);
    assert_eq!(
        extract_pubdate(&doc).unwrap_err(),
        ExtractError::MalformedHistoryEntry
    );
}

#[test]
fn malformed_date_is_an_error() {
    let doc = obj(vec![(
        "history",
        JsonValue::Arr(vec![history_entry("pubmed", "2020-05-14 00:00")]),
    )]);
    assert_eq!(extract_pubdate(&doc).unwrap_err(), ExtractError::BadDate);
}

#[test]
fn impossible_calendar_date_is_an_error() {
    let doc = obj(vec![(
        "history",
        JsonValue::Arr(vec![history_entry("pubmed", "2020/02/30 00:00")]),
    )]);
    assert_eq!(extract_pubdate(&doc).unwrap_err(), ExtractError::BadDate);
}

#[test]
fn title_and_uid_are_read_directly() {
    let doc = full_doc();
    assert_eq!(extract_title(&doc).unwrap(), "A study of things");
    assert_eq!(extract_uid(&doc).unwrap(), "12345");
}

#[test]
fn title_missing_is_an_error() {
    let doc = obj(vec![("uid", jstr("1"))]);
    assert_eq!(extract_title(&doc).unwrap_err(), ExtractError::NoTitle);
    assert_eq!(extract_title(&doc).unwrap_err().message(), "no title found");
}

#[test]
fn uid_missing_is_an_error() {
    let doc = obj(vec![("title", jstr("t"))]);
    assert_eq!(extract_uid(&doc).unwrap_err(), ExtractError::NoUid);
    assert_eq!(extract_uid(&doc).unwrap_err().message(), "no UID found");
}

#[test]
fn journal_is_optional() {
    assert_eq!(
        extract_journal(&full_doc()),
        Some("Journal of Things".to_string())
    );
    assert_eq!(extract_journal(&obj(vec![])), None);
}

#[test]
fn well_formed_document_yields_the_whole_record() {
    let rec = extract_record(&full_doc()).unwrap();
    assert_eq!(rec.uid, "12345");
    assert_eq!(rec.title, "A study of things");
    assert_eq!(rec.authors, vec!["Smith J".to_string(), "Doe A".to_string()]);
    assert_eq!(rec.pubdate, "2020-05-14");
    assert_eq!(rec.doi, "10.1000/j.2020.05.001");
    assert_eq!(rec.journal, Some("Journal of Things".to_string()));
}

#[test]
fn empty_author_list_is_not_an_error() {
    let doc = obj(vec![("authors", JsonValue::Arr(vec![]))]);
    assert_eq!(extract_authors(&doc).unwrap(), Vec::<String>::new());
}

#[test]
fn year_beyond_four_digits_is_rejected() {
    let doc = obj(vec![(
        "history",
        JsonValue::Arr(vec![history_entry("pubmed", "+10000/01/01 00:00")]),
    )]);
    assert_eq!(extract_pubdate(&doc).unwrap_err(), ExtractError::BadDate);
}

#[test]
fn normalize_datetime_example() {
    assert_eq!(
        normalize_datetime("2020/05/14 00:00"),
        Some("2020-05-14".to_string())
    );
    assert_eq!(normalize_datetime("not a date"), None);
}

#[test]
fn format_iso_date_zero_pads_every_part() {
    let d = DateYmd { year: 7, month: 1, day: 2 };
    assert_eq!(format_iso_date(d), "0007-01-02");
    let d = DateYmd { year: 2020, month: 12, day: 31 };
    assert_eq!(format_iso_date(d), "2020-12-31");
}
