//! Character-level helpers shared by the parsers of this crate.
//!
//! Strings are modelled as `Seq<char>`. The executable helpers work on a
//! `Vec<char>` snapshot of the text so that every index is a character index.

use vstd::prelude::*;

verus! {

/// The characters of `s`, in order.
pub fn chars_of(s: &str) -> (out: Vec<char>)
    ensures
        out@ == s@,
{
    let mut out: Vec<char> = Vec::new();
    let it = s.chars();
    for c in iter: it
        invariant
            iter.seq() == s@,
            out@ == iter.seq().take(iter.index() as int),
    {
        out.push(c);
    }
    out
}

/// An owned copy of the characters `from..to` of `s`.
pub fn slice_of(s: &str, from: usize, to: usize) -> (out: String)
    requires
        from <= to <= s@.len(),
    ensures
        out@ == s@.subrange(from as int, to as int),
{
    s.substring_char(from, to).to_owned()
}

/// Whether `text` begins with `prefix`.
pub fn starts_with(text: &Vec<char>, prefix: &Vec<char>) -> (yes: bool)
    ensures
        yes == prefix@.is_prefix_of(text@),
{
    if prefix.len() > text.len() {
        return false;
    }
    let mut i: usize = 0;
    while i < prefix.len()
        invariant
            i <= prefix.len() <= text.len(),
            forall|k: int| 0 <= k < i ==> text@[k] == prefix@[k],
        decreases prefix.len() - i,
    {
        if text[i] != prefix[i] {
            assert(text@.subrange(0, prefix@.len() as int)[i as int] != prefix@[i as int]);
            return false;
        }
        i += 1;
    }
    true
}

/// Whether `text` ends with `suffix`.
pub fn ends_with(text: &Vec<char>, suffix: &Vec<char>) -> (yes: bool)
    ensures
        yes == suffix@.is_suffix_of(text@),
{
    if suffix.len() > text.len() {
        return false;
    }
    let base: usize = text.len() - suffix.len();
    let mut i: usize = 0;
    while i < suffix.len()
        invariant
            i <= suffix.len() <= text.len(),
            base == text.len() - suffix.len(),
            forall|k: int| 0 <= k < i ==> text@[base + k] == suffix@[k],
        decreases suffix.len() - i,
    {
        if text[base + i] != suffix[i] {
            assert(text@.subrange(base as int, text@.len() as int)[i as int] != suffix@[i as int]);
            return false;
        }
        i += 1;
    }
    true
}

/// Whether two texts hold the same characters.
pub fn same_text(a: &str, b: &str) -> (yes: bool)
    ensures
        yes == (a@ == b@),
{
    let x = chars_of(a);
    let y = chars_of(b);
    let yes = x.len() == y.len() && starts_with(&x, &y);
    proof {
        if yes {
            assert(x@.subrange(0, y@.len() as int) =~= x@);
        }
    }
    yes
}

/// The length of the longest prefix of `s` that holds no `sep`.
pub open spec fn run_len(s: Seq<char>, sep: char) -> int
    decreases s.len(),
{
    if s.len() == 0 || s[0] == sep {
        0
    } else {
        1 + run_len(s.skip(1), sep)
    }
}

/// `run_len` is the position of the first `sep`, or the length of `s` where
/// there is none.
pub proof fn lemma_run_len(s: Seq<char>, sep: char)
    ensures
        0 <= run_len(s, sep) <= s.len(),
        forall|i: int| 0 <= i < run_len(s, sep) ==> s[i] != sep,
        run_len(s, sep) < s.len() ==> s[run_len(s, sep)] == sep,
        run_len(s, sep) == s.len() <==> !s.contains(sep),
    decreases s.len(),
{
    if s.len() == 0 || s[0] == sep {
    } else {
        let rest = s.skip(1);
        lemma_run_len(rest, sep);
        let n = run_len(rest, sep);
        assert forall|i: int| 0 <= i < n + 1 implies s[i] != sep by {
            if i > 0 {
                assert(rest[i - 1] == s[i]);
            }
        }
        if n < rest.len() {
            assert(rest[n] == s[n + 1]);
        }
        if rest.contains(sep) {
            let k = choose|k: int| 0 <= k < rest.len() && rest[k] == sep;
            assert(s[k + 1] == sep);
        }
        if s.contains(sep) {
            let k = choose|k: int| 0 <= k < s.len() && s[k] == sep;
            assert(rest[k - 1] == sep);
        }
    }
}

/// Any position that ends a run free of `sep` is `run_len`.
pub proof fn lemma_run_len_unique(s: Seq<char>, sep: char, n: int)
    requires
        0 <= n <= s.len(),
        forall|i: int| 0 <= i < n ==> s[i] != sep,
        n < s.len() ==> s[n] == sep,
    ensures
        run_len(s, sep) == n,
{
    lemma_run_len(s, sep);
    let m = run_len(s, sep);
    if m < n {
        assert(s[m] == sep);
    } else if n < m {
        assert(s[n] != sep);
    }
}

/// The first position at or after `from` that holds `sep`, or the length of
/// `text` where none does.
pub fn find_from(text: &Vec<char>, from: usize, sep: char) -> (end: usize)
    requires
        from <= text.len(),
    ensures
        end == from + run_len(text@.skip(from as int), sep),
        from <= end <= text.len(),
{
    let mut i: usize = from;
    while i < text.len() && text[i] != sep
        invariant
            from <= i <= text.len(),
            forall|k: int| from <= k < i ==> text@[k] != sep,
        decreases text.len() - i,
    {
        i += 1;
    }
    proof {
        lemma_run_len_unique(text@.skip(from as int), sep, i - from);
    }
    i
}

/// Whether `c` is white space: one of the characters that Unicode gives the
/// property `White_Space`.
pub open spec fn is_space(c: char) -> bool {
    let n = c as u32;
    ||| 0x09 <= n <= 0x0D
    ||| n == 0x20
    ||| n == 0x85
    ||| n == 0xA0
    ||| n == 0x1680
    ||| 0x2000 <= n <= 0x200A
    ||| n == 0x2028
    ||| n == 0x2029
    ||| n == 0x202F
    ||| n == 0x205F
    ||| n == 0x3000
}

/// Tells white space from other characters.
pub fn is_white_space(c: char) -> (yes: bool)
    ensures
        yes == is_space(c),
{
    let n: u32 = c as u32;
    (0x09 <= n && n <= 0x0D) || n == 0x20 || n == 0x85 || n == 0xA0 || n == 0x1680 || (0x2000 <= n
        && n <= 0x200A) || n == 0x2028 || n == 0x2029 || n == 0x202F || n == 0x205F || n
        == 0x3000
}

/// How many characters of white space `s` begins with.
pub open spec fn leading_space(s: Seq<char>) -> int
    decreases s.len(),
{
    if s.len() == 0 || !is_space(s[0]) {
        0
    } else {
        1 + leading_space(s.skip(1))
    }
}

/// How many characters of white space `s` ends with.
pub open spec fn trailing_space(s: Seq<char>) -> int
    decreases s.len(),
{
    if s.len() == 0 || !is_space(s.last()) {
        0
    } else {
        1 + trailing_space(s.drop_last())
    }
}

/// `s` without the white space at its two ends.
pub open spec fn trimmed(s: Seq<char>) -> Seq<char> {
    let rest = s.skip(leading_space(s));
    rest.take(rest.len() - trailing_space(rest))
}

/// Any position that ends a run of leading white space is `leading_space`.
pub proof fn lemma_leading_space(s: Seq<char>, n: int)
    requires
        0 <= n <= s.len(),
        forall|i: int| 0 <= i < n ==> is_space(s[i]),
        n < s.len() ==> !is_space(s[n]),
    ensures
        leading_space(s) == n,
    decreases s.len(),
{
    if n > 0 {
        let rest = s.skip(1);
        assert forall|i: int| 0 <= i < n - 1 implies is_space(rest[i]) by {
            assert(rest[i] == s[i + 1]);
        }
        lemma_leading_space(rest, n - 1);
    }
}

/// Any position that begins a run of trailing white space gives
/// `trailing_space`.
pub proof fn lemma_trailing_space(s: Seq<char>, n: int)
    requires
        0 <= n <= s.len(),
        forall|i: int| s.len() - n <= i < s.len() ==> is_space(s[i]),
        n < s.len() ==> !is_space(s[s.len() - n - 1]),
    ensures
        trailing_space(s) == n,
    decreases s.len(),
{
    if n > 0 {
        let rest = s.drop_last();
        assert forall|i: int| rest.len() - (n - 1) <= i < rest.len() implies is_space(
            rest[i],
        ) by {
            assert(rest[i] == s[i]);
        }
        lemma_trailing_space(rest, n - 1);
    }
}

/// The bounds of `text` without the white space at its two ends.
pub fn trim_bounds(text: &Vec<char>) -> (bounds: (usize, usize))
    ensures
        bounds.0 <= bounds.1 <= text.len(),
        text@.subrange(bounds.0 as int, bounds.1 as int) == trimmed(text@),
{
    let mut from: usize = 0;
    while from < text.len() && is_white_space(text[from])
        invariant
            from <= text.len(),
            forall|k: int| 0 <= k < from ==> is_space(text@[k]),
        decreases text.len() - from,
    {
        from += 1;
    }
    let mut to: usize = text.len();
    while to > from && is_white_space(text[to - 1])
        invariant
            from <= to <= text.len(),
            forall|k: int| to <= k < text.len() ==> is_space(text@[k]),
        decreases to,
    {
        to -= 1;
    }
    proof {
        lemma_leading_space(text@, from as int);
        let rest = text@.skip(from as int);
        lemma_trailing_space(rest, text.len() - to);
        assert(text@.subrange(from as int, to as int) =~= rest.take(rest.len() - (text.len() - to)));
    }
    (from, to)
}

/// What `String::from_utf8_lossy` makes of a run of bytes: their text, with
/// whatever is not UTF-8 replaced.
pub uninterp spec fn lossy_text(bytes: Seq<u8>) -> Seq<char>;

/// `String::from_utf8_lossy`: decodes bytes as UTF-8 and replaces what is not
/// UTF-8. The text depends on the bytes alone; it never fails.
#[verifier::external_body]
pub(crate) fn decode_lossy(bytes: &Vec<u8>) -> (text: String)
    ensures
        text@ == lossy_text(bytes@),
{
    String::from_utf8_lossy(bytes).into_owned()
}

} // verus!
