use vstd::prelude::*;

verus! {

/// The (product id, install path) string pairs that the launcher
/// configuration document's "contents" array holds, or `None` when the
/// document does not have the expected shape (not JSON, no "contents" array,
/// an entry without a "productId" string or a "detail.path" string). The
/// result is a function of the text alone.
pub uninterp spec fn launcher_entries_of(s: Seq<char>) -> Option<Seq<(Seq<char>, Seq<char>)>>;

/// The view of a sequence of owned string pairs.
pub open spec fn pairs_view(v: Seq<(String, String)>) -> Seq<(Seq<char>, Seq<char>)> {
    v.map_values(|p: (String, String)| (p.0@, p.1@))
}

/// `p` is the path of the first entry of `es` whose product id is `id`.
pub open spec fn spec_first_product_path(
    es: Seq<(Seq<char>, Seq<char>)>,
    id: Seq<char>,
    p: Seq<char>,
) -> bool {
    exists|i: int|
        0 <= i < es.len() && (#[trigger] es[i]).0 == id && p == es[i].1 && (forall|j: int|
            0 <= j < i ==> (#[trigger] es[j]).0 != id)
}

/// No entry of `es` has the product id `id`.
pub open spec fn spec_no_product(es: Seq<(Seq<char>, Seq<char>)>, id: Seq<char>) -> bool {
    forall|i: int| 0 <= i < es.len() ==> (#[trigger] es[i]).0 != id
}

/// Relies on serde_json: `from_str` parses the document and `Value::get`,
/// `Value::as_array` and `Value::as_str` navigate it; the extracted pairs
/// depend on the text alone. Every structural mismatch yields `None`.
#[verifier::external_body]
fn parse_launcher_config(text: &str) -> (r: Option<Vec<(String, String)>>)
    ensures
        r is Some <==> launcher_entries_of(text@) is Some,
        r matches Some(v) ==> launcher_entries_of(text@) == Some(pairs_view(v@)),
{
    let value: serde_json::Value = serde_json::from_str(text).ok()?;
    let contents = value.get("contents")?.as_array()?;
    let mut out: Vec<(String, String)> = Vec::new();
    for entry in contents {
        let id = entry.get("productId")?.as_str()?;
        let path = entry.get("detail")?.get("path")?.as_str()?;
        out.push((id.to_owned(), path.to_owned()));
    }
    Some(out)
}

/// The path of the first entry whose product id equals `product_id`, if any.
pub fn find_product_path(entries: &Vec<(String, String)>, product_id: &str) -> (r: Option<String>)
    ensures
        match r {
            Some(p) => spec_first_product_path(pairs_view(entries@), product_id@, p@),
            None => spec_no_product(pairs_view(entries@), product_id@),
        },
{
    let ghost es = pairs_view(entries@);
    proof {
        assert forall|k: int| 0 <= k < entries@.len() implies (#[trigger] es[k]) == (
            entries@[k].0@,
            entries@[k].1@,
        ) by {}
    }
    let id: String = product_id.to_owned();
    let mut i: usize = 0;
    while i < entries.len()
        invariant
            0 <= i <= entries@.len(),
            es == pairs_view(entries@),
            es.len() == entries@.len(),
            forall|k: int|
                0 <= k < entries@.len() ==> (#[trigger] es[k]) == (entries@[k].0@, entries@[k].1@),
            id@ == product_id@,
            forall|j: int| 0 <= j < i ==> (#[trigger] es[j]).0 != product_id@,
        decreases entries@.len() - i,
    {
        let entry = &entries[i];
        if entry.0 == id {
            proof {
                assert(es[i as int].0 == product_id@ && entry.1@ == es[i as int].1);
            }
            return Some(entry.1.clone());
        }
        i += 1;
    }
    None
}

/// The fixed product identifier whose entry the launcher-config strategy
/// consults.
pub fn product_id() -> (r: &'static str)
    ensures
        r@ == ("umamusume")@,
{
    "umamusume"
}

/// The relative path, under the per-user roaming application-data folder, of
/// the launcher's configuration document.
pub fn launcher_config_rel_path() -> (r: &'static str)
    ensures
        r@ == ("dmmgameplayer5\\dmmgame.cnf")@,
{
    "dmmgameplayer5\\dmmgame.cnf"
}

/// Launcher-config discovery, on the text of the launcher's configuration
/// document: the install path recorded for the known product identifier, or
/// `None` when the document is malformed or holds no matching entry. The
/// caller is responsible for checking that the returned path denotes an
/// existing directory before using it.
pub fn launcher_detect(config_text: &str) -> (r: Option<String>)
    ensures
        launcher_entries_of(config_text@) is None ==> r is None,
        launcher_entries_of(config_text@) matches Some(es) ==> match r {
            Some(p) => spec_first_product_path(es, ("umamusume")@, p@),
            None => spec_no_product(es, ("umamusume")@),
        },
{
    let entries = match parse_launcher_config(config_text) {
        Some(e) => e,
        None => return None,
    };
    find_product_path(&entries, product_id())
}

} // verus!
