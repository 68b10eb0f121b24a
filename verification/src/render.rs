use crate::extract::ArticleRecord;
use crate::extract::ExtractError;
use crate::extract::error_of;
use crate::extract::extract_record;
use crate::extract::extractable;
use crate::extract::record_of;
use crate::json::JsonValue;
use vstd::prelude::*;

verus! {

/// One `  - name` line per author, in order.
pub open spec fn author_lines(names: Seq<String>) -> Seq<char>
    decreases names.len(),
{
    if names.len() == 0 {
        Seq::empty()
    } else {
        author_lines(names.drop_last()) + "  - "@ + names.last()@ + "\n"@
    }
}

/// The citation text of a record: one labelled line per field, the authors
/// as an indented list, and the journal line only where the record has one.
pub open spec fn rendered(rec: ArticleRecord) -> Seq<char> {
    "uid: "@ + rec.uid@ + "\n"@ + "title: "@ + rec.title@ + "\n"@ + "authors:\n"@ + author_lines(
        rec.authors@,
    ) + "doi: "@ + rec.doi@ + "\n"@ + "pubdate: "@ + rec.pubdate@ + "\n"@ + (match rec.journal {
        Some(j) => "fulljournalname: "@ + j@ + "\n"@,
        None => Seq::<char>::empty(),
    })
}

/// Writes a record as its citation text block.
pub fn render_record(rec: &ArticleRecord) -> (r: String)
    ensures
        r@ == rendered(*rec),
{
    let mut out = String::new();
    out.append("uid: ");
    out.append(rec.uid.as_str());
    out.append("\n");
    out.append("title: ");
    out.append(rec.title.as_str());
    out.append("\n");
    out.append("authors:\n");
    let ghost head = out@;
    let n = rec.authors.len();
    proof {
        assert(rec.authors@.take(0).len() == 0);
    }
    for i in 0..n
        invariant
            n == rec.authors@.len(),
            out@ == head + author_lines(rec.authors@.take(i as int)),
    {
        out.append("  - ");
        out.append(rec.authors[i].as_str());
        out.append("\n");
        proof {
            let taken = rec.authors@.take(i + 1);
            assert(taken.drop_last() =~= rec.authors@.take(i as int));
            assert(taken.last() == rec.authors@[i as int]);
            assert(out@ =~= head + author_lines(taken));
        }
    }
    proof {
        assert(rec.authors@.take(n as int) =~= rec.authors@);
    }
    out.append("doi: ");
    out.append(rec.doi.as_str());
    out.append("\n");
    out.append("pubdate: ");
    out.append(rec.pubdate.as_str());
    out.append("\n");
    match &rec.journal {
        Some(j) => {
            out.append("fulljournalname: ");
            out.append(j.as_str());
            out.append("\n");
        },
        None => {},
    }
    proof {
        assert(out@ =~= rendered(*rec));
    }
    out
}

/// Turns one article document into its citation text: extraction followed
/// by rendering, succeeding exactly where extraction does.
pub fn gen_yml(doc: &JsonValue) -> (r: Result<String, ExtractError>)
    ensures
        r is Ok <==> extractable(*doc),
        match r {
            Ok(t) => exists|rec: ArticleRecord|
                #[trigger] record_of(*doc, rec) && t@ == rendered(rec),
            Err(e) => error_of(*doc, e),
        },
{
    match extract_record(doc) {
        Ok(rec) => {
            let text = render_record(&rec);
            Ok(text)
        },
        Err(e) => Err(e),
    }
}

} // verus!
