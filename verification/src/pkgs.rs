use vstd::prelude::*;
use crate::text::{strip_prefix_or_keep, strings_contain, without_prefix};

verus! {

/// The prefix that the package index puts before each package's attribute name.
pub const PKG_KEY_PREFIX: &'static str = "legacyPackages.x86_64-linux.";

/// How many times a caller waits for the package list being loaded elsewhere before
/// it reads the list itself.
pub const MAX_FETCH_RETRIES: u32 = 5;

#[verifier::external_type_specification]
#[verifier::external_body]
pub struct ExJsonError(serde_json::Error);

/// Name for what `serde_json::from_str::<serde_json::Value>` makes of a text, reduced to
/// what the package list reads of it: `None` when the text is not one JSON document,
/// `Some(None)` when it is one whose top-level value is not an object, and
/// `Some(Some(keys))` when it is an object, with `keys` its keys in the order in which
/// `serde_json::Map::keys` walks them.
pub uninterp spec fn json_object_keys(text: Seq<char>) -> Option<Option<Seq<Seq<char>>>>;

/// Parses `text` with `serde_json::from_str::<serde_json::Value>` and, when the value
/// is an object, lists its keys with `serde_json::Map::keys`. The contract only ties
/// the outcome to `json_object_keys` of the text; it states nothing of which texts are
/// JSON nor of the order of the keys.
#[verifier::external_body]
fn parse_object_keys(text: &str) -> (r: Result<Option<Vec<String>>, serde_json::Error>)
    ensures
        match r {
            Err(_) => json_object_keys(text@) is None,
            Ok(None) => json_object_keys(text@) == Some(None::<Seq<Seq<char>>>),
            Ok(Some(keys)) => json_object_keys(text@) == Some(Some(keys.deep_view())),
        },
{
    match serde_json::from_str::<serde_json::Value>(text) {
        Ok(serde_json::Value::Object(map)) => Ok(Some(map.keys().cloned().collect())),
        Ok(_) => Ok(None),
        Err(e) => Err(e),
    }
}

/// Why the package list could not be read.
#[derive(Debug, Clone, Copy, PartialEq, Eq, Structural)]
pub enum PkgListError {
    /// The text is not a JSON document.
    InvalidJson,
    /// The JSON document is not an object.
    NotAnObject,
}

/// `items` with every item after its first occurrence dropped, first occurrences in order.
pub open spec fn first_occurrences(items: Seq<Seq<char>>) -> Seq<Seq<char>>
    decreases items.len(),
{
    if items.len() == 0 {
        Seq::empty()
    } else {
        let kept = first_occurrences(items.drop_last());
        if kept.contains(items.last()) {
            kept
        } else {
            kept.push(items.last())
        }
    }
}

/// The package names that the keys of the package index stand for: each key without
/// the index prefix, each name once, in the order of first appearance.
pub open spec fn pkg_names(keys: Seq<Seq<char>>) -> Seq<Seq<char>> {
    first_occurrences(keys.map_values(|k: Seq<char>| without_prefix(k, PKG_KEY_PREFIX@)))
}

/// What reading the package index from `text` gives.
pub open spec fn pkg_list_result(text: Seq<char>) -> Result<Seq<Seq<char>>, PkgListError> {
    match json_object_keys(text) {
        None => Err(PkgListError::InvalidJson),
        Some(None) => Err(PkgListError::NotAnObject),
        Some(Some(keys)) => Ok(pkg_names(keys)),
    }
}

/// The list with first occurrences only has no item twice and holds exactly the items
/// of the list it was made from.
pub proof fn lemma_first_occurrences(items: Seq<Seq<char>>)
    ensures
        first_occurrences(items).no_duplicates(),
        forall|x: Seq<char>| first_occurrences(items).contains(x) <==> items.contains(x),
    decreases items.len(),
{
    if items.len() > 0 {
        let rest = items.drop_last();
        lemma_first_occurrences(rest);
        assert forall|x: Seq<char>| items.contains(x) <==> (rest.contains(x) || x == items.last()) by {
            if items.contains(x) {
                let j = choose|j: int| 0 <= j < items.len() && items[j] == x;
                if j < items.len() - 1 {
                    assert(rest[j] == x);
                }
            }
            if rest.contains(x) {
                let j = choose|j: int| 0 <= j < rest.len() && rest[j] == x;
                assert(items[j] == x);
            }
            if x == items.last() {
                assert(items[items.len() - 1] == x);
            }
        }
        let kept = first_occurrences(rest);
        if !kept.contains(items.last()) {
            assert forall|x: Seq<char>| kept.push(items.last()).contains(x) <==> (kept.contains(x)
                || x == items.last()) by {
                if kept.push(items.last()).contains(x) {
                    let j = choose|j: int|
                        0 <= j < kept.push(items.last()).len() && kept.push(items.last())[j] == x;
                    if j < kept.len() {
                        assert(kept[j] == x);
                    }
                }
                if kept.contains(x) {
                    let j = choose|j: int| 0 <= j < kept.len() && kept[j] == x;
                    assert(kept.push(items.last())[j] == x);
                }
                if x == items.last() {
                    assert(kept.push(items.last())[kept.len() as int] == x);
                }
            }
        }
    }
}

/// The package list names each package once, and names exactly the packages that the
/// index's keys stand for.
pub proof fn lemma_pkg_names(keys: Seq<Seq<char>>)
    ensures
        pkg_names(keys).no_duplicates(),
        forall|name: Seq<char>|
            pkg_names(keys).contains(name) <==> exists|i: int|
                0 <= i < keys.len() && without_prefix(#[trigger] keys[i], PKG_KEY_PREFIX@) == name,
{
    let stripped = keys.map_values(|k: Seq<char>| without_prefix(k, PKG_KEY_PREFIX@));
    lemma_first_occurrences(stripped);
    assert(pkg_names(keys) == first_occurrences(stripped));
    assert forall|name: Seq<char>|
        pkg_names(keys).contains(name) implies exists|i: int|
            0 <= i < keys.len() && without_prefix(#[trigger] keys[i], PKG_KEY_PREFIX@) == name by {
        assert(stripped.contains(name));
        let i = choose|i: int| 0 <= i < stripped.len() && stripped[i] == name;
        assert(without_prefix(keys[i], PKG_KEY_PREFIX@) == name);
    }
    assert forall|name: Seq<char>|
        (exists|i: int|
            0 <= i < keys.len() && without_prefix(#[trigger] keys[i], PKG_KEY_PREFIX@) == name)
        implies pkg_names(keys).contains(name) by {
        let i = choose|i: int|
            0 <= i < keys.len() && without_prefix(#[trigger] keys[i], PKG_KEY_PREFIX@) == name;
        assert(stripped[i] == name);
        assert(stripped.contains(name));
        assert(first_occurrences(stripped).contains(name));
    }
}

/// The package names drawn from the keys of the package index: each key with the
/// prefix "legacyPackages.x86_64-linux." taken off when it has it, each resulting name
/// kept at its first occurrence only.
pub fn pkg_names_from_keys(keys: &Vec<String>) -> (names: Vec<String>)
    ensures
        names.deep_view() == pkg_names(keys.deep_view()),
{
    let ghost stripped = keys.deep_view().map_values(
        |k: Seq<char>| without_prefix(k, PKG_KEY_PREFIX@),
    );
    let mut names: Vec<String> = Vec::new();
    let mut i: usize = 0;
    while i < keys.len()
        invariant
            i <= keys.len(),
            stripped == keys.deep_view().map_values(
                |k: Seq<char>| without_prefix(k, PKG_KEY_PREFIX@),
            ),
            names.deep_view() == first_occurrences(stripped.subrange(0, i as int)),
        decreases keys.len() - i,
    {
        let name = strip_prefix_or_keep(keys[i].as_str(), PKG_KEY_PREFIX);
        assert(name@ == stripped[i as int]);
        let ghost prefix = stripped.subrange(0, i + 1);
        assert(prefix.drop_last() =~= stripped.subrange(0, i as int));
        assert(prefix.last() == name@);
        if !strings_contain(&names, &name) {
            let ghost before = names.deep_view();
            names.push(name);
            assert(names.deep_view() =~= before.push(prefix.last()));
        }
        i = i + 1;
    }
    assert(stripped.subrange(0, keys.len() as int) =~= stripped);
    names
}

/// Reads the package list from the package index `json_text`: a JSON object whose keys
/// name the packages. Fails with `InvalidJson` when the text is not JSON and with
/// `NotAnObject` when its value is not an object; otherwise gives the names that
/// `pkg_names_from_keys` draws from the object's keys.
pub fn fetch_nixpkgs(json_text: &str) -> (r: Result<Vec<String>, PkgListError>)
    ensures
        match r {
            Ok(names) => pkg_list_result(json_text@) == Ok::<Seq<Seq<char>>, PkgListError>(
                names.deep_view(),
            ),
            Err(e) => pkg_list_result(json_text@) == Err::<Seq<Seq<char>>, PkgListError>(e),
        },
{
    match parse_object_keys(json_text) {
        Err(_) => Err(PkgListError::InvalidJson),
        Ok(None) => Err(PkgListError::NotAnObject),
        Ok(Some(keys)) => Ok(pkg_names_from_keys(&keys)),
    }
}

/// What a caller waiting for the package list does next.
#[derive(Debug, Clone, Copy, PartialEq, Eq, Structural)]
pub enum PkgPoll {
    /// The list is loaded: take it.
    UseLoaded,
    /// Stop waiting and read the list directly.
    FetchNow,
    /// Wait a while and look again.
    WaitAndRetry,
}

/// The decision `get_available_pkgs` makes on each turn of its wait: take the loaded list
/// when there is one, read it directly once `retries` has reached `MAX_FETCH_RETRIES`,
/// else wait and look again.
pub open spec fn poll_decision(loaded: bool, retries: u32) -> PkgPoll {
    if loaded {
        PkgPoll::UseLoaded
    } else if retries >= MAX_FETCH_RETRIES {
        PkgPoll::FetchNow
    } else {
        PkgPoll::WaitAndRetry
    }
}

/// One turn of the wait for the package list: given whether the list is loaded and how
/// many times the caller has waited, says what to do next.
pub fn poll_step(loaded: bool, retries: u32) -> (r: PkgPoll)
    ensures
        r == poll_decision(loaded, retries),
{
    if loaded {
        PkgPoll::UseLoaded
    } else if retries >= MAX_FETCH_RETRIES {
        PkgPoll::FetchNow
    } else {
        PkgPoll::WaitAndRetry
    }
}

/// The wait for the package list ends: counting the waits from zero, a caller that never
/// sees the list loaded is told to wait exactly `MAX_FETCH_RETRIES` times, then to read
/// the list directly.
pub proof fn lemma_poll_ends(retries: u32)
    ensures
        retries < MAX_FETCH_RETRIES ==> poll_decision(false, retries) == PkgPoll::WaitAndRetry,
        retries >= MAX_FETCH_RETRIES ==> poll_decision(false, retries) == PkgPoll::FetchNow,
{
}

} // verus!
