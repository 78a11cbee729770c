//! Finding the first file whose name matches a simple pattern (by default `*.whl`).
use vstd::prelude::*;
use crate::text::{
    starts_with, ends_with, contains, lex_le, str_starts_with, str_ends_with, str_contains,
    str_lex_le, owned, lemma_lex_le_total, lemma_lex_le_transitive, lemma_lex_le_antisymmetric,
};

verus! {

/// Default file pattern.
pub const DEFAULT_PATTERN: &'static str = "*.whl";

/// The command-line options of the wheel finder.
pub struct CliArgs {
    pub search_dir: String,
    pub output_file: String,
    pub pattern: String,
    pub verbose: bool,
}

/// Whether a file name matches a pattern: an empty pattern matches nothing;
/// `*.<ext>` matches names ending in `.<ext>` (`*.` alone: names ending in `.`);
/// any other pattern matches names that contain it.
pub open spec fn pattern_matches(file_name: Seq<char>, pattern: Seq<char>) -> bool {
    if pattern.len() == 0 {
        false
    } else if starts_with(pattern, "*."@) {
        ends_with(file_name, pattern.skip(1))
    } else {
        contains(file_name, pattern)
    }
}

/// Whether a file name matches a pattern (see `pattern_matches`).
pub fn matches_pattern(file_name: &str, pattern: &str) -> (r: bool)
    ensures
        r == pattern_matches(file_name@, pattern@),
{
    let n = pattern.unicode_len();
    if n == 0 {
        return false;
    }
    if str_starts_with(pattern, "*.") {
        proof {
            reveal_strlit("*.");
        }
        let ext = pattern.substring_char(1, n);
        assert(ext@ =~= pattern@.skip(1));
        str_ends_with(file_name, ext)
    } else {
        str_contains(file_name, pattern)
    }
}

/// The name chosen among `names` for `pattern`: `Some(n)` exactly when some
/// name matches, `n` being the matching name that comes first in
/// lexicographic order.
pub open spec fn is_first_match(names: Seq<Seq<char>>, pattern: Seq<char>, r: Option<Seq<char>>) -> bool {
    match r {
        None => forall|i: int| 0 <= i < names.len() ==> !pattern_matches(#[trigger] names[i], pattern),
        Some(n) => {
            &&& names.contains(n)
            &&& pattern_matches(n, pattern)
            &&& forall|i: int| 0 <= i < names.len() && pattern_matches(#[trigger] names[i], pattern) ==> lex_le(n, names[i])
        },
    }
}

/// Among the names of the files found, the first (lexicographically) that
/// matches the pattern, if any.
pub fn select_first_match(names: &Vec<String>, pattern: &str) -> (r: Option<String>)
    ensures
        is_first_match(names.deep_view(), pattern@, r.deep_view()),
{
    let mut best: Option<usize> = None;
    let mut i: usize = 0;
    while i < names.len()
        invariant
            i <= names@.len(),
            match best {
                None => forall|k: int| 0 <= k < i ==> !pattern_matches(#[trigger] names.deep_view()[k], pattern@),
                Some(b) => {
                    &&& b < i
                    &&& pattern_matches(names.deep_view()[b as int], pattern@)
                    &&& forall|k: int|
                        0 <= k < i && pattern_matches(#[trigger] names.deep_view()[k], pattern@)
                            ==> lex_le(names.deep_view()[b as int], names.deep_view()[k])
                },
            },
        decreases names@.len() - i,
    {
        assert(names.deep_view()[i as int] == names@[i as int]@);
        if matches_pattern(names[i].as_str(), pattern) {
            match best {
                None => {
                    proof {
                        lemma_lex_le_total(names@[i as int]@, names@[i as int]@);
                    }
                    best = Some(i);
                },
                Some(b) => {
                    assert(names.deep_view()[b as int] == names@[b as int]@);
                    if !str_lex_le(names[b].as_str(), names[i].as_str()) {
                        proof {
                            let nb = names.deep_view()[b as int];
                            let ni = names.deep_view()[i as int];
                            lemma_lex_le_total(nb, ni);
                            assert forall|k: int|
                                0 <= k < i + 1 && pattern_matches(#[trigger] names.deep_view()[k], pattern@)
                                    implies lex_le(ni, names.deep_view()[k]) by {
                                if k < i {
                                    lemma_lex_le_transitive(ni, nb, names.deep_view()[k]);
                                } else {
                                    lemma_lex_le_total(ni, ni);
                                }
                            }
                        }
                        best = Some(i);
                    }
                },
            }
        }
        i = i + 1;
    }
    match best {
        None => None,
        Some(b) => {
            assert(names.deep_view()[b as int] == names@[b as int]@);
            assert(names.deep_view().contains(names.deep_view()[b as int]));
            Some(owned(names[b].as_str()))
        },
    }
}

/// The choice is deterministic: whatever order the files are listed in, at
/// most one name is the first match.
pub proof fn law_first_match_unique(names: Seq<Seq<char>>, pattern: Seq<char>, a: Option<Seq<char>>, b: Option<Seq<char>>)
    requires
        is_first_match(names, pattern, a),
        is_first_match(names, pattern, b),
    ensures
        a == b,
{
    match (a, b) {
        (Some(x), Some(y)) => {
            let i = choose|i: int| 0 <= i < names.len() && names[i] == y;
            let j = choose|j: int| 0 <= j < names.len() && names[j] == x;
            assert(lex_le(x, names[i]));
            assert(lex_le(y, names[j]));
            lemma_lex_le_antisymmetric(x, y);
        },
        (Some(x), None) => {
            let j = choose|j: int| 0 <= j < names.len() && names[j] == x;
            assert(pattern_matches(names[j], pattern));
        },
        (None, Some(y)) => {
            let i = choose|i: int| 0 <= i < names.len() && names[i] == y;
            assert(pattern_matches(names[i], pattern));
        },
        (None, None) => {},
    }
}

/// An extension pattern `*.<ext>` matches exactly the names ending in `.<ext>`.
pub proof fn law_extension_pattern(name: Seq<char>, ext: Seq<char>)
    ensures
        pattern_matches(name, "*."@ + ext) == ends_with(name, "."@ + ext),
{
    reveal_strlit("*.");
    reveal_strlit(".");
    let p = "*."@ + ext;
    assert(p.subrange(0, 2) =~= "*."@);
    assert(p.skip(1) =~= "."@ + ext);
}

} // verus!
