//! Verified helpers over strings: prefix tests, file-name extension
//! extraction, ASCII lowercasing, and storage-name concatenation.

use vstd::prelude::*;

verus! {

/// `p` is a prefix of `s`.
pub open spec fn spec_starts_with(s: Seq<char>, p: Seq<char>) -> bool {
    p.len() <= s.len() && s.subrange(0, p.len() as int) == p
}

/// Whether `s` starts with the prefix `p`, character by character.
pub fn starts_with(s: &str, p: &str) -> (r: bool)
    ensures
        r == spec_starts_with(s@, p@),
{
    let sl = s.unicode_len();
    let pl = p.unicode_len();
    if pl > sl {
        return false;
    }
    let mut i: usize = 0;
    while i < pl
        invariant
            i <= pl,
            pl == p@.len(),
            sl == s@.len(),
            pl <= sl,
            forall|j: int| 0 <= j < i ==> s@[j] == p@[j],
        decreases pl - i,
    {
        if s.get_char(i) != p.get_char(i) {
            assert(s@.subrange(0, p@.len() as int)[i as int] == s@[i as int]);
            return false;
        }
        i += 1;
    }
    assert(s@.subrange(0, p@.len() as int) =~= p@);
    true
}

/// The index of the last occurrence of `c` in `s`, or `-1` when `c` does
/// not occur.
pub open spec fn last_index_of(s: Seq<char>, c: char) -> int
    decreases s.len(),
{
    if s.len() == 0 {
        -1
    } else if s[s.len() - 1] == c {
        s.len() - 1
    } else {
        last_index_of(s.drop_last(), c)
    }
}

/// `last_index_of` stays within `[-1, s.len())`, and points at `c` when it
/// is not `-1`.
pub proof fn lemma_last_index_of_bounds(s: Seq<char>, c: char)
    ensures
        -1 <= last_index_of(s, c) < s.len(),
        last_index_of(s, c) >= 0 ==> s[last_index_of(s, c)] == c,
    decreases s.len(),
{
    if s.len() == 0 {
    } else if s[s.len() - 1] == c {
    } else {
        lemma_last_index_of_bounds(s.drop_last(), c);
    }
}

/// Finds the last occurrence of `c` in `s`.
pub fn find_last(s: &str, c: char) -> (r: Option<usize>)
    ensures
        match r {
            Some(i) => i == last_index_of(s@, c),
            None => last_index_of(s@, c) == -1,
        },
{
    let len = s.unicode_len();
    let mut i: usize = len;
    proof {
        assert(s@.subrange(0, len as int) =~= s@);
    }
    while i > 0
        invariant
            i <= len,
            len == s@.len(),
            last_index_of(s@, c) == last_index_of(s@.subrange(0, i as int), c),
        decreases i,
    {
        i -= 1;
        if s.get_char(i) == c {
            proof {
                assert(s@.subrange(0, i + 1).last() == s@[i as int]);
            }
            return Some(i);
        }
        proof {
            assert(s@.subrange(0, i + 1).last() == s@[i as int]);
            assert(s@.subrange(0, i + 1).drop_last() =~= s@.subrange(0, i as int));
        }
    }
    assert(s@.subrange(0, 0).len() == 0);
    None
}

/// The extension of a plain file name: the part after the last `.`.
/// There is none when the name has no `.`, or when its only `.` is the
/// leading character (a hidden file has no extension).
pub open spec fn spec_extension_of(name: Seq<char>) -> Option<Seq<char>> {
    let d = last_index_of(name, '.');
    if d <= 0 {
        None
    } else {
        Some(name.subrange(d + 1, name.len() as int))
    }
}

/// Extracts the extension of `name`, as `spec_extension_of` describes.
pub fn extension_of<'a>(name: &'a str) -> (r: Option<&'a str>)
    ensures
        match r {
            Some(e) => spec_extension_of(name@) == Some(e@),
            None => spec_extension_of(name@) is None,
        },
{
    match find_last(name, '.') {
        None => None,
        Some(d) => {
            if d == 0 {
                None
            } else {
                proof {
                    lemma_last_index_of_bounds(name@, '.');
                }
                let len = name.unicode_len();
                Some(name.substring_char(d + 1, len))
            }
        },
    }
}

/// ASCII lowercasing of one character; everything but `A`..`Z` is kept.
pub open spec fn spec_lower_char(c: char) -> char {
    match c {
        'A' => 'a',
        'B' => 'b',
        'C' => 'c',
        'D' => 'd',
        'E' => 'e',
        'F' => 'f',
        'G' => 'g',
        'H' => 'h',
        'I' => 'i',
        'J' => 'j',
        'K' => 'k',
        'L' => 'l',
        'M' => 'm',
        'N' => 'n',
        'O' => 'o',
        'P' => 'p',
        'Q' => 'q',
        'R' => 'r',
        'S' => 's',
        'T' => 't',
        'U' => 'u',
        'V' => 'v',
        'W' => 'w',
        'X' => 'x',
        'Y' => 'y',
        'Z' => 'z',
        _ => c,
    }
}

/// ASCII lowercasing of a string, character by character.
pub open spec fn spec_lower(s: Seq<char>) -> Seq<char> {
    s.map_values(|c: char| spec_lower_char(c))
}

/// Lowercases one character, as `spec_lower_char` describes.
pub fn lower_char(c: char) -> (r: char)
    ensures
        r == spec_lower_char(c),
{
    match c {
        'A' => 'a',
        'B' => 'b',
        'C' => 'c',
        'D' => 'd',
        'E' => 'e',
        'F' => 'f',
        'G' => 'g',
        'H' => 'h',
        'I' => 'i',
        'J' => 'j',
        'K' => 'k',
        'L' => 'l',
        'M' => 'm',
        'N' => 'n',
        'O' => 'o',
        'P' => 'p',
        'Q' => 'q',
        'R' => 'r',
        'S' => 's',
        'T' => 't',
        'U' => 'u',
        'V' => 'v',
        'W' => 'w',
        'X' => 'x',
        'Y' => 'y',
        'Z' => 'z',
        _ => c,
    }
}

/// Whether `s`, lowercased, equals `lit`.
pub fn eq_lowered(s: &str, lit: &str) -> (r: bool)
    ensures
        r == (spec_lower(s@) == lit@),
{
    let sl = s.unicode_len();
    let ll = lit.unicode_len();
    if sl != ll {
        assert(spec_lower(s@).len() == s@.len());
        return false;
    }
    let mut i: usize = 0;
    while i < sl
        invariant
            i <= sl,
            sl == s@.len(),
            sl == lit@.len(),
            forall|j: int| 0 <= j < i ==> spec_lower_char(s@[j]) == lit@[j],
        decreases sl - i,
    {
        if lower_char(s.get_char(i)) != lit.get_char(i) {
            assert(spec_lower(s@)[i as int] == spec_lower_char(s@[i as int]));
            return false;
        }
        i += 1;
    }
    assert(spec_lower(s@) =~= lit@);
    true
}

/// A storage name: the destination directory, the generated identifier, a
/// dot, and the extension.
pub open spec fn spec_stored_name(dir: Seq<char>, id: Seq<char>, ext: Seq<char>) -> Seq<char> {
    dir + id + seq!['.'] + ext
}

/// Builds a storage name, as `spec_stored_name` describes.
pub fn make_stored_name(dir: &str, id: &str, ext: &str) -> (r: String)
    ensures
        r@ == spec_stored_name(dir@, id@, ext@),
{
    let mut out = String::new();
    out.append(dir);
    out.append(id);
    out.append(".");
    out.append(ext);
    proof {
        reveal_strlit(".");
        assert("."@ =~= seq!['.']);
        assert(out@ =~= spec_stored_name(dir@, id@, ext@));
    }
    out
}

} // verus!
