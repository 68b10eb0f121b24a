use vstd::prelude::*;

verus! {

/// The esummary request for one identifier: the fixed endpoint, the pubmed
/// database and the identifier, asking for JSON output.
pub fn esummary_url(id: &str) -> (r: String)
    ensures
        r@ == "https://eutils.ncbi.nlm.nih.gov/entrez/eutils/esummary.fcgi?db=pubmed&id="@ + id@
            + "&retmode=json"@,
{
    let mut out = String::from_str(
        "https://eutils.ncbi.nlm.nih.gov/entrez/eutils/esummary.fcgi?db=pubmed&id=",
    );
    out.append(id);
    out.append("&retmode=json");
    proof {
        assert(out@ =~= "https://eutils.ncbi.nlm.nih.gov/entrez/eutils/esummary.fcgi?db=pubmed&id="@
            + id@ + "&retmode=json"@);
    }
    out
}

} // verus!
