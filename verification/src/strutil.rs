//! Verified string helpers: decimal formatting, suffix tests, placeholder
//! substitution, trailing-whitespace handling and path-style operations on
//! plain strings.  Every exec function is pinned to a spec function over
//! `Seq<char>`.

use vstd::prelude::*;
use vstd::string::*;

verus! {

/// The decimal digit character for a value below ten.
pub open spec fn digit_char(d: int) -> char {
    if d == 0 {
        '0'
    } else if d == 1 {
        '1'
    } else if d == 2 {
        '2'
    } else if d == 3 {
        '3'
    } else if d == 4 {
        '4'
    } else if d == 5 {
        '5'
    } else if d == 6 {
        '6'
    } else if d == 7 {
        '7'
    } else if d == 8 {
        '8'
    } else {
        '9'
    }
}

/// Decimal rendering of a non-negative integer, most significant digit first.
pub open spec fn spec_dec(n: int) -> Seq<char>
    decreases n,
{
    if n < 10 {
        seq![digit_char(n)]
    } else {
        spec_dec(n / 10).push(digit_char(n % 10))
    }
}

fn digit_str(d: usize) -> (r: &'static str)
    requires
        d < 10,
    ensures
        r@ == seq![digit_char(d as int)],
{
    proof {
        reveal_strlit("0");
        reveal_strlit("1");
        reveal_strlit("2");
        reveal_strlit("3");
        reveal_strlit("4");
        reveal_strlit("5");
        reveal_strlit("6");
        reveal_strlit("7");
        reveal_strlit("8");
        reveal_strlit("9");
    }
    match d {
        0 => "0",
        1 => "1",
        2 => "2",
        3 => "3",
        4 => "4",
        5 => "5",
        6 => "6",
        7 => "7",
        8 => "8",
        _ => "9",
    }
}

/// Decimal string of `n`, e.g. `dec_of(87)` is `"87"`.
pub fn dec_of(n: usize) -> (r: String)
    ensures
        r@ == spec_dec(n as int),
    decreases n,
{
    if n < 10 {
        let mut r = String::new();
        r.append(digit_str(n));
        assert(r@ =~= spec_dec(n as int));
        r
    } else {
        let mut r = dec_of(n / 10);
        r.append(digit_str(n % 10));
        assert(r@ =~= spec_dec(n as int));
        r
    }
}

/// `pat` occurs in `s` at position `i`.
pub open spec fn occurs_at(s: Seq<char>, pat: Seq<char>, i: int) -> bool {
    &&& 0 <= i
    &&& i + pat.len() <= s.len()
    &&& s.subrange(i, i + pat.len()) == pat
}

fn str_occurs_at(s: &str, s_len: usize, pat: &str, pat_len: usize, i: usize) -> (r: bool)
    requires
        s_len == s@.len(),
        pat_len == pat@.len(),
        i + pat_len <= s_len,
    ensures
        r == occurs_at(s@, pat@, i as int),
{
    let mut j: usize = 0;
    while j < pat_len
        invariant
            j <= pat_len,
            s_len == s@.len(),
            pat_len == pat@.len(),
            i + pat_len <= s_len,
            forall|k: int| 0 <= k < j ==> s@[i + k] == pat@[k],
        decreases pat_len - j,
    {
        if s.get_char(i + j) != pat.get_char(j) {
            assert(s@.subrange(i as int, i + pat@.len()) != pat@) by {
                assert(s@.subrange(i as int, i + pat@.len())[j as int] != pat@[j as int]);
            }
            return false;
        }
        j = j + 1;
    }
    assert(s@.subrange(i as int, i + pat@.len()) =~= pat@);
    true
}

/// Whether two strings hold the same characters.
pub fn str_eq(a: &str, b: &str) -> (r: bool)
    ensures
        r == (a@ == b@),
{
    let a_len = a.unicode_len();
    let b_len = b.unicode_len();
    if a_len != b_len {
        return false;
    }
    let r = str_occurs_at(a, a_len, b, b_len, 0);
    proof {
        assert(a@.subrange(0, b@.len() as int) =~= a@);
    }
    r
}

/// `s` ends with the suffix `suf`.
pub open spec fn spec_ends_with(s: Seq<char>, suf: Seq<char>) -> bool {
    suf.len() <= s.len() && s.skip(s.len() - suf.len()) == suf
}

/// Whether `s` ends with `suf`, by characters.
pub fn str_ends_with(s: &str, suf: &str) -> (r: bool)
    ensures
        r == spec_ends_with(s@, suf@),
{
    let s_len = s.unicode_len();
    let suf_len = suf.unicode_len();
    if suf_len > s_len {
        return false;
    }
    let r = str_occurs_at(s, s_len, suf, suf_len, s_len - suf_len);
    proof {
        let start = s@.len() - suf@.len();
        assert(s@.skip(start) =~= s@.subrange(start, start + suf@.len()));
    }
    r
}

/// `s` starts with the prefix `pre`.
pub open spec fn spec_starts_with(s: Seq<char>, pre: Seq<char>) -> bool {
    pre.len() <= s.len() && s.subrange(0, pre.len() as int) == pre
}

/// Whether `s` starts with `pre`, by characters.
pub fn str_starts_with(s: &str, pre: &str) -> (r: bool)
    ensures
        r == spec_starts_with(s@, pre@),
{
    let s_len = s.unicode_len();
    let pre_len = pre.unicode_len();
    if pre_len > s_len {
        return false;
    }
    str_occurs_at(s, s_len, pre, pre_len, 0)
}

/// Every occurrence of `pat` in `s` replaced by `rep`, leftmost first,
/// non-overlapping — the behaviour of `str::replace`.
pub open spec fn spec_replace(s: Seq<char>, pat: Seq<char>, rep: Seq<char>) -> Seq<char>
    decreases s.len(),
{
    if pat.len() == 0 || s.len() < pat.len() {
        s
    } else if s.subrange(0, pat.len() as int) == pat {
        rep + spec_replace(s.skip(pat.len() as int), pat, rep)
    } else {
        seq![s[0]] + spec_replace(s.skip(1), pat, rep)
    }
}

proof fn lemma_replace_step_no_match(s: Seq<char>, pat: Seq<char>, rep: Seq<char>)
    requires
        pat.len() > 0,
        s.len() > 0,
        !occurs_at(s, pat, 0),
    ensures
        spec_replace(s, pat, rep) == seq![s[0]] + spec_replace(s.skip(1), pat, rep),
{
    if s.len() < pat.len() {
        assert(s.skip(1).len() < pat.len());
        assert(seq![s[0]] + s.skip(1) =~= s);
    }
}

/// Replaces every occurrence of `pat` in `s` with `rep`.
pub fn replace_all(s: &str, pat: &str, rep: &str) -> (r: String)
    requires
        pat@.len() > 0,
    ensures
        r@ == spec_replace(s@, pat@, rep@),
{
    let s_len = s.unicode_len();
    let pat_len = pat.unicode_len();
    let mut r = String::new();
    let mut i: usize = 0;
    proof {
        assert(s@.skip(0) =~= s@);
        assert(r@ + spec_replace(s@, pat@, rep@) =~= spec_replace(s@, pat@, rep@));
    }
    while i < s_len
        invariant
            i <= s_len,
            s_len == s@.len(),
            pat_len == pat@.len(),
            pat_len > 0,
            spec_replace(s@, pat@, rep@) == r@ + spec_replace(s@.skip(i as int), pat@, rep@),
        decreases s_len - i,
    {
        let ghost rest = s@.skip(i as int);
        if s_len - i >= pat_len && str_occurs_at(s, s_len, pat, pat_len, i) {
            r.append(rep);
            proof {
                assert(rest.subrange(0, pat@.len() as int) =~= s@.subrange(
                    i as int,
                    i + pat@.len(),
                ));
                assert(rest.skip(pat@.len() as int) =~= s@.skip(i + pat@.len()));
            }
            i = i + pat_len;
        } else {
            let piece = s.substring_char(i, i + 1);
            r.append(piece);
            proof {
                if i + pat@.len() <= s@.len() {
                    assert(rest.subrange(0, pat@.len() as int) =~= s@.subrange(
                        i as int,
                        i + pat@.len(),
                    ));
                }
                assert(!occurs_at(rest, pat@, 0));
                lemma_replace_step_no_match(rest, pat@, rep@);
                assert(seq![rest[0]] =~= s@.subrange(i as int, i + 1));
                assert(rest.skip(1) =~= s@.skip(i + 1));
            }
            i = i + 1;
        }
    }
    proof {
        assert(s@.skip(i as int) =~= Seq::<char>::empty());
        assert(spec_replace(Seq::<char>::empty(), pat@, rep@) == Seq::<char>::empty());
        assert(r@ + Seq::<char>::empty() =~= r@);
    }
    r
}

/// The Unicode white-space characters, as `char::is_whitespace` classifies
/// them.
pub open spec fn is_space(c: char) -> bool {
    ||| c == ' '
    ||| c == '\t'
    ||| c == '\n'
    ||| c == '\u{0b}'
    ||| c == '\u{0c}'
    ||| c == '\r'
    ||| c == '\u{85}'
    ||| c == '\u{a0}'
    ||| c == '\u{1680}'
    ||| ('\u{2000}' <= c && c <= '\u{200a}')
    ||| c == '\u{2028}'
    ||| c == '\u{2029}'
    ||| c == '\u{202f}'
    ||| c == '\u{205f}'
    ||| c == '\u{3000}'
}

fn is_space_char(c: char) -> (r: bool)
    ensures
        r == is_space(c),
{
    c == ' ' || c == '\t' || c == '\n' || c == '\u{0b}' || c == '\u{0c}' || c == '\r' || c
        == '\u{85}' || c == '\u{a0}' || c == '\u{1680}' || ('\u{2000}' <= c && c <= '\u{200a}') || c
        == '\u{2028}' || c == '\u{2029}' || c == '\u{202f}' || c == '\u{205f}' || c == '\u{3000}'
}

/// `s` with trailing white space removed.
pub open spec fn spec_trim_end(s: Seq<char>) -> Seq<char>
    decreases s.len(),
{
    if s.len() == 0 {
        s
    } else if is_space(s[s.len() - 1]) {
        spec_trim_end(s.drop_last())
    } else {
        s
    }
}

/// Whether the last non-white-space character of `s` is `c` — that is,
/// whether `s.trim()` ends with `c`.
pub open spec fn spec_trimmed_ends_with(s: Seq<char>, c: char) -> bool {
    spec_trim_end(s).len() > 0 && spec_trim_end(s)[spec_trim_end(s).len() - 1] == c
}

/// Whether `s`, with surrounding white space trimmed, ends with the
/// character `c`.
pub fn trimmed_ends_with(s: &str, c: char) -> (r: bool)
    ensures
        r == spec_trimmed_ends_with(s@, c),
{
    let len = s.unicode_len();
    let mut i: usize = len;
    proof {
        assert(s@.subrange(0, len as int) =~= s@);
    }
    while i > 0
        invariant
            i <= len,
            len == s@.len(),
            spec_trim_end(s@) == spec_trim_end(s@.subrange(0, i as int)),
        decreases i,
    {
        let ch = s.get_char(i - 1);
        proof {
            assert(s@.subrange(0, i as int).drop_last() =~= s@.subrange(0, i - 1));
        }
        if !is_space_char(ch) {
            proof {
                assert(spec_trim_end(s@.subrange(0, i as int)) == s@.subrange(0, i as int));
            }
            return ch == c;
        }
        i = i - 1;
    }
    proof {
        assert(s@.subrange(0, 0) =~= Seq::<char>::empty());
    }
    false
}

/// Joining a path and a further component: an absolute component replaces
/// the base, as `Path::join` has it; otherwise the two are separated by a
/// single `/`.
pub open spec fn spec_path_join(base: Seq<char>, child: Seq<char>) -> Seq<char> {
    if child.len() > 0 && child[0] == '/' {
        child
    } else if base.len() == 0 {
        child
    } else if base[base.len() - 1] == '/' {
        base + child
    } else {
        base + seq!['/'] + child
    }
}

/// Joins `base` and `child` with a `/` separator.
pub fn path_join(base: &str, child: &str) -> (r: String)
    ensures
        r@ == spec_path_join(base@, child@),
{
    proof {
        reveal_strlit("/");
    }
    let base_len = base.unicode_len();
    let child_len = child.unicode_len();
    if child_len > 0 && child.get_char(0) == '/' {
        let mut r = String::new();
        r.append(child);
        assert(r@ =~= spec_path_join(base@, child@));
        r
    } else if base_len == 0 {
        let mut r = String::new();
        r.append(child);
        assert(r@ =~= spec_path_join(base@, child@));
        r
    } else if base.get_char(base_len - 1) == '/' {
        let mut r = String::new();
        r.append(base);
        r.append(child);
        assert(r@ =~= spec_path_join(base@, child@));
        r
    } else {
        let mut r = String::new();
        r.append(base);
        r.append("/");
        r.append(child);
        assert(r@ =~= spec_path_join(base@, child@));
        r
    }
}

/// Index just past the last occurrence of `c` in `s`: 0 when `c` does not
/// occur.
pub open spec fn spec_after_last(s: Seq<char>, c: char) -> int
    decreases s.len(),
{
    if s.len() == 0 {
        0
    } else if s[s.len() - 1] == c {
        s.len() as int
    } else {
        spec_after_last(s.drop_last(), c)
    }
}

proof fn lemma_after_last_bounds(s: Seq<char>, c: char)
    ensures
        0 <= spec_after_last(s, c) <= s.len(),
    decreases s.len(),
{
    if s.len() > 0 && s[s.len() - 1] != c {
        lemma_after_last_bounds(s.drop_last(), c);
    }
}

pub fn after_last_index(s: &str, c: char) -> (r: usize)
    ensures
        r == spec_after_last(s@, c),
        r <= s@.len(),
{
    let len = s.unicode_len();
    let mut i: usize = len;
    proof {
        assert(s@.subrange(0, len as int) =~= s@);
    }
    while i > 0
        invariant
            i <= len,
            len == s@.len(),
            spec_after_last(s@, c) == spec_after_last(s@.subrange(0, i as int), c),
        decreases i,
    {
        let ch = s.get_char(i - 1);
        proof {
            assert(s@.subrange(0, i as int).drop_last() =~= s@.subrange(0, i - 1));
        }
        if ch == c {
            proof {
                assert(spec_after_last(s@.subrange(0, i as int), c) == i as int);
            }
            return i;
        }
        i = i - 1;
    }
    proof {
        assert(s@.subrange(0, 0) =~= Seq::<char>::empty());
    }
    0
}

/// The final path component of `p`: everything after the last `/`.
pub open spec fn spec_file_name(p: Seq<char>) -> Seq<char> {
    p.skip(spec_after_last(p, '/'))
}

/// The extension of the file name of `p`: what follows the last `.` of the
/// final component, empty when that component has no `.` past its first
/// character — the cases where `Path::extension` gives nothing.
pub open spec fn spec_extension(p: Seq<char>) -> Seq<char> {
    let f = spec_file_name(p);
    let d = spec_after_last(f, '.');
    if d <= 1 {
        Seq::<char>::empty()
    } else {
        f.skip(d)
    }
}

/// The extension of the file name of `p`, empty when there is none.
pub fn extension_of(p: &str) -> (r: String)
    ensures
        r@ == spec_extension(p@),
{
    let len = p.unicode_len();
    let slash = after_last_index(p, '/');
    proof {
        lemma_after_last_bounds(p@, '/');
    }
    let f = p.substring_char(slash, len);
    let dot = after_last_index(f, '.');
    proof {
        lemma_after_last_bounds(f@, '.');
    }
    if dot <= 1 {
        let r = String::new();
        assert(r@ =~= spec_extension(p@));
        r
    } else {
        let ext = f.substring_char(dot, f.unicode_len());
        let mut r = String::new();
        r.append(ext);
        assert(r@ =~= spec_extension(p@));
        r
    }
}

} // verus!
