//! Finding the JSON object or array in a log message.

use vstd::prelude::*;
use vstd::string::*;
use crate::text::{chars_of, find_char, first_index_of};

verus! {

/// Where `JsonContentExtractor::extract` cuts: from the first `[` or `{`, whichever comes
/// first, to the first `]` (for an array) or `}` (for an object) of the text, that character
/// included. `None` where no such cut exists: no bracket at all, no closing character, or a
/// closing character that stands more than one place before the opening one (a slice whose
/// end lies before its start would panic).
pub open spec fn json_bounds(s: Seq<char>) -> Option<(int, int)> {
    let arr = first_index_of(s, '[');
    let obj = first_index_of(s, '{');
    let opening: Option<(int, char)> = if arr is None {
        match obj {
            Some(o) => Some((o, '}')),
            None => None,
        }
    } else if obj is None {
        Some((arr->0, ']'))
    } else if arr->0 < obj->0 {
        Some((arr->0, ']'))
    } else {
        Some((obj->0, '}'))
    };
    match opening {
        None => None,
        Some((start, end_char)) => match first_index_of(s, end_char) {
            None => None,
            Some(end) => if start <= end + 1 {
                Some((start, end + 1))
            } else {
                None
            },
        },
    }
}

/// Where the JSON content begins.
pub open spec fn json_start(s: Seq<char>) -> int {
    match json_bounds(s) {
        Some((a, _)) => a,
        None => 0,
    }
}

/// Where the JSON content ends (exclusive).
pub open spec fn json_end(s: Seq<char>) -> int {
    match json_bounds(s) {
        Some((_, b)) => b,
        None => 0,
    }
}

/// Extracts the JSON content of log messages.
pub struct JsonContentExtractor {}

impl JsonContentExtractor {
    /// The JSON content of a message: the text from the first opening bracket to the first
    /// matching closing bracket, both included.
    pub fn extract(content: &str) -> (r: &str)
        requires
            json_bounds(content@) is Some,
        ensures
            r@ == content@.subrange(json_start(content@), json_end(content@)),
    {
        let chars = chars_of(content);
        let arr_start_idx = find_char(chars.as_slice(), '[');
        let obj_start_idx = find_char(chars.as_slice(), '{');
        let (start_idx, end_char): (usize, char) = match (arr_start_idx, obj_start_idx) {
            (None, Some(o)) => (o, '}'),
            (Some(a), None) => (a, ']'),
            (Some(a), Some(o)) => if a < o {
                (a, ']')
            } else {
                (o, '}')
            },
            (None, None) => {
                proof {
                    assert(false);
                }
                (0, '}')
            },
        };
        let end_idx = match find_char(chars.as_slice(), end_char) {
            Some(e) => e,
            None => {
                proof {
                    assert(false);
                }
                0
            },
        };
        content.substring_char(start_idx, end_idx + 1)
    }

    /// The JSON content of a message, or `None` where `extract` would not apply.
    pub fn try_extract(content: &str) -> (r: Option<&str>)
        ensures
            match json_bounds(content@) {
                Some((a, b)) => r matches Some(t) && t@ == content@.subrange(a, b),
                None => r is None,
            },
    {
        let chars = chars_of(content);
        let arr_start_idx = find_char(chars.as_slice(), '[');
        let obj_start_idx = find_char(chars.as_slice(), '{');
        let (start_idx, end_char): (usize, char) = match (arr_start_idx, obj_start_idx) {
            (None, Some(o)) => (o, '}'),
            (Some(a), None) => (a, ']'),
            (Some(a), Some(o)) => if a < o {
                (a, ']')
            } else {
                (o, '}')
            },
            (None, None) => return None,
        };
        match find_char(chars.as_slice(), end_char) {
            Some(e) => {
                if start_idx == 0 || start_idx - 1 <= e {
                    Some(Self::extract(content))
                } else {
                    None
                }
            },
            None => None,
        }
    }
}

proof fn lemma_first_occurrence_exists(s: Seq<char>, c: char, i: int)
    requires
        0 <= i < s.len(),
        s[i] == c,
    ensures
        exists|k: int| 0 <= k < s.len() && s[k] == c && forall|j: int| 0 <= j < k ==> s[j] != c,
    decreases i,
{
    if exists|j: int| 0 <= j < i && s[j] == c {
        let j = choose|j: int| 0 <= j < i && s[j] == c;
        lemma_first_occurrence_exists(s, c, j);
    } else {
        assert(0 <= i < s.len() && s[i] == c && forall|j: int| 0 <= j < i ==> s[j] != c);
    }
}

proof fn lemma_first_index_at(s: Seq<char>, c: char)
    ensures
        first_index_of(s, c) matches Some(i) ==> 0 <= i < s.len() && s[i] == c,
{
    reveal(first_index_of);
    if exists|i: int| 0 <= i < s.len() && s[i] == c {
        let i = choose|i: int| 0 <= i < s.len() && s[i] == c;
        lemma_first_occurrence_exists(s, c, i);
    }
}

/// What `extract` cuts out, when it is not empty, is a JSON array or object: it begins with
/// `[` and ends with `]`, or begins with `{` and ends with `}`.
pub proof fn lemma_extract_brackets(s: Seq<char>)
    ensures
        json_bounds(s) matches Some((a, b)) ==> (a < b ==> ((s[a] == '[' && s[b - 1] == ']') || (s[a]
            == '{' && s[b - 1] == '}'))),
{
    lemma_first_index_at(s, '[');
    lemma_first_index_at(s, '{');
    lemma_first_index_at(s, ']');
    lemma_first_index_at(s, '}');
}

} // verus!
