//! Building blocks for text.
use vstd::prelude::*;

verus! {

/// `head` followed by `tail`.
pub(crate) fn joined(head: &str, tail: &str) -> (result: String)
    ensures
        result@ == head@ + tail@,
{
    let mut result = head.to_owned();
    result.append(tail);
    result
}

/// Whether two texts are the same.
pub(crate) fn same(left: &str, right: &str) -> (result: bool)
    ensures
        result == (left@ == right@),
{
    left.to_owned() == right.to_owned()
}

/// What each text of a list holds.
pub open spec fn texts(list: Seq<String>) -> Seq<Seq<char>> {
    list.map_values(|item: String| item@)
}

/// What each pair of texts of a list holds.
pub open spec fn text_pairs(list: Seq<(String, String)>) -> Seq<(Seq<char>, Seq<char>)> {
    list.map_values(|item: (String, String)| (item.0@, item.1@))
}

/// What an optional text holds.
pub open spec fn optional_text(text: Option<String>) -> Option<Seq<char>> {
    match text {
        Some(text) => Some(text@),
        None => None,
    }
}

/// Lists keep their length and their order, and each text what it holds.
pub proof fn law_lists_are_kept(
    list: Seq<String>,
    pairs: Seq<(String, String)>,
    text: String,
    i: int,
)
    ensures
        texts(list).len() == list.len(),
        0 <= i < list.len() ==> texts(list)[i] == list[i]@,
        text_pairs(pairs).len() == pairs.len(),
        0 <= i < pairs.len() ==> text_pairs(pairs)[i].0 == pairs[i].0@ && text_pairs(pairs)[i].1
            == pairs[i].1@,
        optional_text(None) is None,
        optional_text(Some(text)) == Some(text@),
{
}

}
