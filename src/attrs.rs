use vstd::prelude::*;
use crate::text::{is_ws, is_whitespace, split_on, split_chars, string_from_chars, chars_of};

verus! {

/// Characters that the attribute list tolerates and drops: whitespace and `"`.
pub open spec fn is_dropped(c: char) -> bool {
    is_ws(c) || c == '"'
}

/// `s` without its whitespace and quote characters.
pub open spec fn stripped(s: Seq<char>) -> Seq<char> {
    s.filter(|c: char| !is_dropped(c))
}

/// The field names that an attribute list requests, in the order given:
/// the list is stripped of whitespace and quotes and split on commas. Empty
/// and repeated names pass through.
pub open spec fn requested_fields(args: Seq<char>) -> Seq<Seq<char>> {
    split_on(stripped(args), ',')
}

/// Splits an attribute list such as `email, "username"` into the field names
/// it requests.
pub fn parse_attribute_list(args: &str) -> (r: Vec<String>)
    ensures
        r@.map_values(|s: String| s@) == requested_fields(args@),
        r@.len() >= 1,
{
    let chars = chars_of(args);
    let mut kept: Vec<char> = Vec::new();
    let mut i: usize = 0;
    while i < chars.len()
        invariant
            i <= chars.len(),
            chars@ == args@,
            kept@ == stripped(chars@.take(i as int)),
        decreases chars.len() - i,
    {
        let c = chars[i];
        assert(chars@.take(i + 1).drop_last() == chars@.take(i as int));
        assert(chars@.take(i + 1).last() == c);
        proof {
            reveal(Seq::filter);
        }
        if !(is_whitespace(c) || c == '"') {
            kept.push(c);
        }
        assert(kept@ == stripped(chars@.take(i + 1)));
        i = i + 1;
    }
    assert(chars@.take(chars.len() as int) == chars@);
    let pieces = split_chars(&kept, ',');
    proof {
        crate::text::lemma_split_on_nonempty(kept@, ',');
    }
    let mut r: Vec<String> = Vec::new();
    let mut k: usize = 0;
    while k < pieces.len()
        invariant
            k <= pieces.len(),
            pieces@.map_values(|p: Vec<char>| p@) == requested_fields(args@),
            r@.len() == k,
            forall|j: int| 0 <= j < k ==> #[trigger] r@[j]@ == pieces@[j]@,
        decreases pieces.len() - k,
    {
        r.push(string_from_chars(&pieces[k]));
        k = k + 1;
    }
    assert(r@.map_values(|s: String| s@) =~= pieces@.map_values(|p: Vec<char>| p@));
    r
}

} // verus!
