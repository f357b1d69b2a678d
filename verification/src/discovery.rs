//! Finding out which rows a page shows: the identifiers that the page's
//! script reports, each once, without the empty ones.

use vstd::prelude::*;

use crate::error::CrawlError;
use crate::text::push_str;
use crate::text::from_chars;

verus! {

/// `serde_json::Value`, taken as a whole: nothing is known of what is in it
/// but what `json_texts` names.
#[verifier::external_type_specification]
#[verifier::external_body]
pub struct ExJsonValue(serde_json::Value);

/// `dashmap::DashMap`, taken as a whole: nothing is known of what is in it
/// but what `held_ids` names.
#[verifier::external_type_specification]
#[verifier::external_body]
#[verifier::reject_recursive_types(K)]
#[verifier::reject_recursive_types(V)]
#[verifier::reject_recursive_types(S)]
pub struct ExDashMap<K, V, S>(dashmap::DashMap<K, V, S>);

/// The keys that a `DashMap` of identifiers holds, each as its characters.
pub uninterp spec fn held_ids(map: dashmap::DashMap<String, ()>) -> Set<Seq<char>>;

/// A JSON value read as a list of texts: `None` where the value is no array;
/// else one entry for each element, the characters of the element where it is
/// a string and `None` where it is anything else.
pub uninterp spec fn json_texts(value: serde_json::Value) -> Option<Seq<Option<Seq<char>>>>;

/// The characters of each text of `texts`.
pub open spec fn text_views(texts: Seq<String>) -> Seq<Seq<char>> {
    Seq::new(texts.len(), |i: int| texts[i]@)
}

/// The characters of each entry of `items` that is a text.
pub open spec fn item_views(items: Seq<Option<String>>) -> Seq<Option<Seq<char>>> {
    Seq::new(
        items.len(),
        |i: int|
            match items[i] {
                Some(text) => Some(text@),
                None => None,
            },
    )
}

/// `DashMap::new`: a map that holds nothing.
#[verifier::external_body]
fn new_id_map() -> (map: dashmap::DashMap<String, ()>)
    ensures
        held_ids(map) == Set::<Seq<char>>::empty(),
{
    dashmap::DashMap::new()
}

/// `DashMap::insert`: afterwards the map holds `id` besides what it held; a
/// key that was there stays once.
#[verifier::external_body]
fn insert_id(map: &mut dashmap::DashMap<String, ()>, id: String)
    ensures
        held_ids(*final(map)) == held_ids(*old(map)).insert(id@),
{
    map.insert(id, ());
}

/// `DashMap::iter`, with `key` on each entry: every key the map holds, once
/// each, in the order in which the map is walked, of which nothing is known.
#[verifier::external_body]
fn ids_of(map: &dashmap::DashMap<String, ()>) -> (ids: Vec<String>)
    ensures
        text_views(ids@).no_duplicates(),
        text_views(ids@).to_set() == held_ids(*map),
{
    map.iter().map(|entry| entry.key().clone()).collect()
}

/// `serde_json::Value::as_array`, and `as_str` on each element: the texts of
/// an array, with `None` in place of each element that is no string.
#[verifier::external_body]
fn texts_of(value: &serde_json::Value) -> (r: Option<Vec<Option<String>>>)
    ensures
        match r {
            Some(items) => json_texts(*value) == Some(item_views(items@)),
            None => json_texts(*value) is None,
        },
{
    value.as_array().map(
        |items| items.iter().map(|item| item.as_str().map(|text| text.to_string())).collect(),
    )
}

/// The row keys among `items`: the texts that are not empty.
pub open spec fn wanted_keys(items: Seq<Option<Seq<char>>>) -> Set<Seq<char>> {
    Set::new(|text: Seq<char>| text.len() > 0 && items.contains(Some(text)))
}

/// Whether `keys` is the set of row keys among `items`: each text of `items`
/// that is not empty, once, in any order.
pub open spec fn is_key_set(items: Seq<Option<Seq<char>>>, keys: Seq<Seq<char>>) -> bool {
    keys.no_duplicates() && keys.to_set() == wanted_keys(items)
}

/// The row keys among the identifiers that a page reported: empty texts and
/// entries that are no text are left out, and a text that occurs twice is
/// kept once. The order of the keys says nothing.
pub fn row_keys_from(items: Vec<Option<String>>) -> (keys: Vec<String>)
    ensures
        is_key_set(item_views(items@), text_views(keys@)),
{
    let ghost input = items@;
    let mut map = new_id_map();
    for item in it: items
        invariant
            it.seq() == input,
            held_ids(map) == wanted_keys(item_views(input.take(it.index() as int))),
    {
        let ghost n = it.index() as int;
        let ghost seen = item_views(input.take(n));
        let ghost next = item_views(input.take(n + 1));
        proof {
            assert(next =~= seen.push(item_views(input)[n]));
            assert forall|text: Seq<char>| #[trigger]
                next.contains(Some(text)) <==> seen.contains(Some(text)) || next[n] == Some(
                    text,
                ) by {
                if seen.contains(Some(text)) {
                    let i = choose|i: int| 0 <= i < seen.len() && seen[i] == Some(text);
                    assert(next[i] == Some(text));
                }
            }
        }
        match item {
            Some(text) => {
                if !text.as_str().is_empty() {
                    insert_id(&mut map, text);
                    assert(held_ids(map) =~= wanted_keys(next));
                } else {
                    assert(wanted_keys(seen) =~= wanted_keys(next));
                }
            },
            None => {
                assert(wanted_keys(seen) =~= wanted_keys(next));
            },
        }
    }
    assert(input.take(input.len() as int) == input);
    ids_of(&map)
}

/// What row discovery makes of a script's answer.
pub open spec fn discovered(answer: Option<Seq<Option<Seq<char>>>>, r: Result<Vec<String>, CrawlError>) -> bool {
    match answer {
        Some(items) => r matches Ok(keys) && is_key_set(items, text_views(keys@)),
        None => r == Err::<Vec<String>, CrawlError>(CrawlError::ScriptExecutionFailed),
    }
}

/// Reads the answer of the script that lists a table's rows. An answer that
/// is no array fails the discovery; of an array, the row keys are kept as
/// `row_keys_from` keeps them.
pub fn discover_row_keys(answer: &serde_json::Value) -> (r: Result<Vec<String>, CrawlError>)
    ensures
        discovered(json_texts(*answer), r),
{
    match texts_of(answer) {
        Some(items) => Ok(row_keys_from(items)),
        None => Err(CrawlError::ScriptExecutionFailed),
    }
}

/// The script that lists the identifiers of the rows below the element that
/// `parent_xpath` names. It throws where the page has no such element.
pub open spec fn row_ids_script_text(parent_xpath: Seq<char>) -> Seq<char> {
    "let parent = document.evaluate(\""@ + parent_xpath
        + "\", document, null, XPathResult.FIRST_ORDERED_NODE_TYPE, null).singleNodeValue; if (parent === null) { throw new Error('Parent element not found'); } let children = parent.querySelectorAll('tr'); let ids = []; for (let i = 0; i < children.length; i++) { ids.push(children[i].id); } return ids;"@
}

/// The script that lists the identifiers of the children of the element
/// whose identifier is `parent_id`.
pub open spec fn child_ids_script_text(parent_id: Seq<char>) -> Seq<char> {
    "let children = document.getElementById('"@ + parent_id
        + "').children; let ids = []; for (let i = 0; i < children.length; i++) { ids.push(children[i].id); } return ids;"@
}

/// Writes the script that lists the rows of the table at `parent_xpath`.
pub fn row_ids_script(parent_xpath: &str) -> (script: String)
    ensures
        script@ == row_ids_script_text(parent_xpath@),
{
    let mut out: Vec<char> = Vec::new();
    push_str(&mut out, "let parent = document.evaluate(\"");
    push_str(&mut out, parent_xpath);
    push_str(
        &mut out,
        "\", document, null, XPathResult.FIRST_ORDERED_NODE_TYPE, null).singleNodeValue; if (parent === null) { throw new Error('Parent element not found'); } let children = parent.querySelectorAll('tr'); let ids = []; for (let i = 0; i < children.length; i++) { ids.push(children[i].id); } return ids;",
    );
    assert(out@.subrange(0, out.len() as int) == out@);
    from_chars(&out, 0, out.len())
}

/// Writes the script that lists the children of the element `parent_id`.
pub fn child_ids_script(parent_id: &str) -> (script: String)
    ensures
        script@ == child_ids_script_text(parent_id@),
{
    let mut out: Vec<char> = Vec::new();
    push_str(&mut out, "let children = document.getElementById('");
    push_str(&mut out, parent_id);
    push_str(
        &mut out,
        "').children; let ids = []; for (let i = 0; i < children.length; i++) { ids.push(children[i].id); } return ids;",
    );
    assert(out@.subrange(0, out.len() as int) == out@);
    from_chars(&out, 0, out.len())
}

} // verus!
