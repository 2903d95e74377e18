//! First-match keyword triggering: scan the configured keywords in order and
//! report the first one that occurs in the lower-cased message text.

use vstd::prelude::*;

use crate::text::contains_sub;
use crate::text::str_contains;

verus! {

/// The views of a sequence of owned strings.
pub open spec fn views_of(ks: Seq<String>) -> Seq<Seq<char>> {
    Seq::new(ks.len(), |i: int| ks[i]@)
}

/// The position of the first keyword (in configured order) that occurs in
/// `text`, or `None` when no keyword does.
pub open spec fn first_match(keywords: Seq<Seq<char>>, text: Seq<char>) -> Option<int>
    decreases keywords.len(),
{
    if keywords.len() == 0 {
        None
    } else if contains_sub(text, keywords[0]) {
        Some(0)
    } else {
        match first_match(keywords.drop_first(), text) {
            Some(i) => Some(i + 1),
            None => None,
        }
    }
}

/// A match is reported exactly when some configured keyword occurs in the
/// text; when one is reported it is a real occurrence, and it is the first:
/// no earlier keyword occurs, so nothing is triggered past the first hit.
pub proof fn lemma_first_match_characterizes(keywords: Seq<Seq<char>>, text: Seq<char>)
    ensures
        match first_match(keywords, text) {
            Some(i) => {
                &&& 0 <= i < keywords.len()
                &&& contains_sub(text, keywords[i])
                &&& forall|j: int| 0 <= j < i ==> !contains_sub(text, keywords[j])
            },
            None => forall|j: int|
                0 <= j < keywords.len() ==> !contains_sub(text, keywords[j]),
        },
    decreases keywords.len(),
{
    if keywords.len() == 0 {
    } else if contains_sub(text, keywords[0]) {
    } else {
        let rest = keywords.drop_first();
        lemma_first_match_characterizes(rest, text);
        match first_match(rest, text) {
            Some(i) => {
                assert(keywords[i + 1] == rest[i]);
                assert forall|j: int| 0 <= j < i + 1 implies !contains_sub(text, keywords[j]) by {
                    if j >= 1 {
                        assert(keywords[j] == rest[j - 1]);
                        assert(!contains_sub(text, rest[j - 1]));
                    }
                }
            },
            None => {
                assert forall|j: int|
                    0 <= j < keywords.len() implies !contains_sub(text, keywords[j]) by {
                    if j >= 1 {
                        assert(keywords[j] == rest[j - 1]);
                        assert(!contains_sub(text, rest[j - 1]));
                    }
                }
            },
        }
    }
}

/// Some keyword occurs in the text if and only if the scan reports a match:
/// a matching message triggers exactly one lookup, a message that matches
/// nothing triggers none.
pub proof fn lemma_match_iff_keyword_occurs(keywords: Seq<Seq<char>>, text: Seq<char>)
    ensures
        first_match(keywords, text) is Some <==> exists|j: int|
            0 <= j < keywords.len() && contains_sub(text, keywords[j]),
{
    lemma_first_match_characterizes(keywords, text);
    if first_match(keywords, text) is Some {
        let i = first_match(keywords, text)->0;
        assert(0 <= i < keywords.len() && contains_sub(text, keywords[i]));
    }
}

/// Scan the keywords in configured order and return the position of the
/// first one contained in `lowered`; `None` when none is.
pub fn find_first_keyword(keywords: &Vec<String>, lowered: &str) -> (r: Option<usize>)
    ensures
        match r {
            Some(i) => first_match(views_of(keywords@), lowered@) == Some(i as int),
            None => first_match(views_of(keywords@), lowered@) is None,
        },
{
    let ghost kws = views_of(keywords@);
    let mut i: usize = 0;
    while i < keywords.len()
        invariant
            i <= keywords.len(),
            kws == views_of(keywords@),
            forall|j: int| 0 <= j < i ==> !contains_sub(lowered@, kws[j]),
        decreases keywords.len() - i,
    {
        if str_contains(lowered, keywords[i].as_str()) {
            proof {
                lemma_first_match_characterizes(kws, lowered@);
                if first_match(kws, lowered@) is None {
                    assert(contains_sub(lowered@, kws[i as int]));
                }
                let f = first_match(kws, lowered@)->0;
                if f < i {
                    assert(contains_sub(lowered@, kws[f]));
                }
                if f > i {
                    assert(!contains_sub(lowered@, kws[i as int]));
                }
            }
            return Some(i);
        }
        i += 1;
    }
    proof {
        lemma_first_match_characterizes(kws, lowered@);
        if first_match(kws, lowered@) is Some {
            let f = first_match(kws, lowered@)->0;
            assert(!contains_sub(lowered@, kws[f]));
        }
    }
    None
}

} // verus!
