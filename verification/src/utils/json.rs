//! Texts as they stand in a JSON document.

use vstd::prelude::*;
use vstd::string::StringExecFns;

verus! {

/// What `serde_json::to_string` makes of the text `text`: a JSON string,
/// which is the text between double quotes with every character escaped
/// that cannot stand for itself.
pub uninterp spec fn json_string(text: Seq<char>) -> Seq<char>;

/// Calls `serde_json::to_string` on a text. The outside function writes
/// into a buffer in memory and fails only where the value or the writer
/// does, which a text and such a buffer never do. The result is a function
/// of the text alone and is known here only by its name, `json_string`.
#[verifier::external_body]
pub(crate) fn to_json_string(text: &str) -> (json: String)
    ensures
        json@ == json_string(text@),
{
    serde_json::to_string(text).unwrap_or_default()
}

/// The texts `items` with a comma between them.
pub open spec fn joined(items: Seq<Seq<char>>) -> Seq<char>
    decreases items.len(),
{
    if items.len() == 0 {
        Seq::empty()
    } else if items.len() == 1 {
        items[0]
    } else {
        joined(items.drop_last()) + seq![','] + items.last()
    }
}

/// The JSON array whose elements are written as `items`, in their order.
pub open spec fn spec_array(items: Seq<Seq<char>>) -> Seq<char> {
    seq!['['] + joined(items) + seq![']']
}

/// The texts of `items`, each by its view.
pub open spec fn texts(items: Seq<String>) -> Seq<Seq<char>> {
    items.map_values(|item: String| item@)
}

/// Writes the JSON array whose elements are written as `items`.
pub fn array(items: &Vec<String>) -> (json: String)
    ensures
        json@ == spec_array(texts(items@)),
{
    proof {
        reveal_strlit("[");
        reveal_strlit("]");
    }
    let mut json = String::from_str("[");
    let mut i: usize = 0;
    while i < items.len()
        invariant
            i <= items.len(),
            json@ == seq!['['] + joined(texts(items@).subrange(0, i as int)),
        decreases items.len() - i,
    {
        proof {
            reveal_strlit(",");
        }
        assert(texts(items@).subrange(0, i + 1).drop_last() =~= texts(items@).subrange(
            0,
            i as int,
        ));
        if i > 0 {
            json.append(",");
        }
        json.append(items[i].as_str());
        i = i + 1;
    }
    assert(texts(items@).subrange(0, i as int) =~= texts(items@));
    json.append("]");
    json
}

} // verus!
