//! Verified character-level string helpers: comparison, prefix and suffix
//! tests, and the numeric sort key hidden in batch file names.

use vstd::prelude::*;
use crate::numfmt::{parse_u32_spec, parse_u32_chars};

verus! {

/// Whether `p` is a prefix of `s`.
pub open spec fn has_prefix(s: Seq<char>, p: Seq<char>) -> bool {
    p.len() <= s.len() && s.take(p.len() as int) == p
}

/// Whether `p` is a suffix of `s`.
pub open spec fn has_suffix(s: Seq<char>, p: Seq<char>) -> bool {
    p.len() <= s.len() && s.skip(s.len() - p.len()) == p
}

/// Character-by-character string equality.
pub fn str_eq_str(a: &str, b: &str) -> (r: bool)
    ensures
        r == (a@ == b@),
{
    let alen = a.unicode_len();
    let blen = b.unicode_len();
    if alen != blen {
        proof {
            assert(a@ != b@);
        }
        return false;
    }
    let mut i: usize = 0;
    while i < alen
        invariant
            i <= alen,
            alen == a@.len(),
            alen == b@.len(),
            forall|k: int| 0 <= k < i ==> a@[k] == b@[k],
        decreases alen - i,
    {
        if a.get_char(i) != b.get_char(i) {
            return false;
        }
        i = i + 1;
    }
    proof {
        assert(a@ =~= b@);
    }
    true
}

/// Whether `s` starts with `p`, character-wise.
pub fn str_starts_with(s: &str, p: &str) -> (r: bool)
    ensures
        r == has_prefix(s@, p@),
{
    let slen = s.unicode_len();
    let plen = p.unicode_len();
    if plen > slen {
        return false;
    }
    let head = s.substring_char(0, plen);
    proof {
        assert(head@ == s@.take(p@.len() as int));
    }
    str_eq_str(head, p)
}

/// Whether `s` ends with `p`, character-wise.
pub fn str_ends_with(s: &str, p: &str) -> (r: bool)
    ensures
        r == has_suffix(s@, p@),
{
    let slen = s.unicode_len();
    let plen = p.unicode_len();
    if plen > slen {
        return false;
    }
    let tail = s.substring_char(slen - plen, slen);
    proof {
        assert(tail@ == s@.skip(s@.len() - p@.len()));
    }
    str_eq_str(tail, p)
}

/// Whether `s` contains the character `c`.
pub fn str_contains_char(s: &str, c: char) -> (r: bool)
    ensures
        r == s@.contains(c),
{
    let len = s.unicode_len();
    let mut i: usize = 0;
    while i < len
        invariant
            i <= len,
            len == s@.len(),
            forall|k: int| 0 <= k < i ==> s@[k] != c,
        decreases len - i,
    {
        if s.get_char(i) == c {
            return true;
        }
        i = i + 1;
    }
    proof {
        assert(!s@.contains(c));
    }
    false
}

/// The characters of `s`, in order.
pub fn str_chars(s: &str) -> (r: Vec<char>)
    ensures
        r@ == s@,
{
    let len = s.unicode_len();
    let mut r: Vec<char> = Vec::new();
    let mut i: usize = 0;
    while i < len
        invariant
            i <= len,
            len == s@.len(),
            r@ == s@.take(i as int),
        decreases len - i,
    {
        r.push(s.get_char(i));
        proof {
            assert(r@ =~= s@.take(i as int + 1));
        }
        i = i + 1;
    }
    proof {
        assert(r@ =~= s@);
    }
    r
}

/// The suffix `.json`, as the sequence the file-name helpers strip.
pub open spec fn json_suffix() -> Seq<char> {
    seq!['.', 'j', 's', 'o', 'n']
}

/// `s` with every trailing repetition of `.json` removed, the way
/// `str::trim_end_matches` strips a pattern.
pub open spec fn strip_json_suffixes(s: Seq<char>) -> Seq<char>
    decreases s.len(),
{
    if has_suffix(s, json_suffix()) {
        strip_json_suffixes(s.take(s.len() - 5))
    } else {
        s
    }
}

/// The segment of `s` after its last `-`, or all of `s` when it has none:
/// what `rsplit('-')` yields first.
pub open spec fn after_last_dash(s: Seq<char>) -> Seq<char>
    decreases s.len(),
{
    if s.len() == 0 {
        s
    } else if s.last() == '-' {
        Seq::empty()
    } else {
        after_last_dash(s.drop_last()).push(s.last())
    }
}

/// The numeric suffix that orders batch files: the number after the last `-`
/// of the name with any `.json` endings stripped, or zero when there is none.
pub open spec fn file_key_spec(s: Seq<char>) -> u32 {
    match parse_u32_spec(after_last_dash(strip_json_suffixes(s))) {
        Some(v) => v,
        None => 0,
    }
}

proof fn lemma_after_last_dash_no_dash(s: Seq<char>)
    requires
        forall|k: int| 0 <= k < s.len() ==> s[k] != '-',
    ensures
        after_last_dash(s) == s,
    decreases s.len(),
{
    if s.len() > 0 {
        lemma_after_last_dash_no_dash(s.drop_last());
        assert(after_last_dash(s.drop_last()).push(s.last()) =~= s);
    } else {
        assert(after_last_dash(s) =~= s);
    }
}

proof fn lemma_after_last_dash_at(s: Seq<char>, j: int)
    requires
        0 <= j < s.len(),
        s[j] == '-',
        forall|k: int| j < k < s.len() ==> s[k] != '-',
    ensures
        after_last_dash(s) == s.skip(j + 1),
    decreases s.len(),
{
    if j == s.len() - 1 {
        assert(s.last() == '-');
        assert(after_last_dash(s) =~= s.skip(j + 1));
    } else {
        assert(s.last() != '-');
        lemma_after_last_dash_at(s.drop_last(), j);
        assert(s.drop_last().skip(j + 1).push(s.last()) =~= s.skip(j + 1));
    }
}

/// Computes the numeric sort key of a batch file name.
pub fn file_sort_key(name: &str) -> (k: u32)
    ensures
        k == file_key_spec(name@),
{
    let mut cur: &str = name;
    while str_ends_with(cur, ".json")
        invariant
            strip_json_suffixes(name@) == strip_json_suffixes(cur@),
        decreases cur@.len(),
    {
        proof {
            reveal_strlit(".json");
            assert(".json"@ =~= json_suffix());
        }
        let len = cur.unicode_len();
        cur = cur.substring_char(0, len - 5);
    }
    proof {
        reveal_strlit(".json");
        assert(".json"@ =~= json_suffix());
        assert(strip_json_suffixes(cur@) == cur@);
    }
    let ghost stripped: Seq<char> = cur@;
    // Find the position after the last '-', scanning from the right.
    let len = cur.unicode_len();
    let mut tail_start: usize = len;
    let mut found: bool = false;
    while !found && tail_start > 0
        invariant
            tail_start <= len,
            len == stripped.len(),
            cur@ == stripped,
            forall|k: int| tail_start <= k < len ==> stripped[k] != '-',
            found ==> tail_start >= 1 && stripped[tail_start - 1] == '-',
        decreases tail_start + (if found { 0int } else { 1int }),
    {
        if cur.get_char(tail_start - 1) == '-' {
            found = true;
        } else {
            tail_start = tail_start - 1;
        }
    }
    let tail = cur.substring_char(tail_start, len);
    proof {
        if found {
            lemma_after_last_dash_at(stripped, tail_start - 1);
        } else {
            lemma_after_last_dash_no_dash(stripped);
            assert(stripped.skip(0) =~= stripped);
        }
        assert(tail@ == after_last_dash(stripped));
    }
    let chars = str_chars(tail);
    match parse_u32_chars(&chars) {
        Some(v) => v,
        None => 0,
    }
}

} // verus!
