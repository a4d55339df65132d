//! Text carried in parameter buffers.
//!
//! String-valued parameters arrive as fixed-size buffers: UTF-8 text padded
//! with trailing zero bytes, and for the version parameter several lines in
//! one buffer.  This module validates the bytes, strips the padding and
//! splits the lines, each step against an exact description of what the
//! characters become.

use vstd::prelude::*;

use vstd::string::*;
use vstd::utf8::{decode_utf8, valid_utf8};

verus! {

/// Relies on core::str::from_utf8: it accepts exactly the valid UTF-8 byte
/// sequences, and the borrowed result decodes them.
#[verifier::external_body]
pub(crate) fn utf8_to_str(bytes: &[u8]) -> (r: Option<&str>)
    ensures
        r is Some <==> valid_utf8(bytes@),
        r is Some ==> r.unwrap()@ == decode_utf8(bytes@),
{
    core::str::from_utf8(bytes).ok()
}

/// The characters left after the leading zero characters go.
pub open spec fn spec_drop_leading_nuls(s: Seq<char>) -> Seq<char>
    decreases s.len(),
{
    if s.len() > 0 && s[0] == '\0' {
        spec_drop_leading_nuls(s.drop_first())
    } else {
        s
    }
}

/// The characters left after the trailing zero characters go.
pub open spec fn spec_drop_trailing_nuls(s: Seq<char>) -> Seq<char>
    decreases s.len(),
{
    if s.len() > 0 && s.last() == '\0' {
        spec_drop_trailing_nuls(s.drop_last())
    } else {
        s
    }
}

/// The characters left after the zero characters at both ends go: what a
/// padded buffer says.
pub open spec fn spec_trim_nuls(s: Seq<char>) -> Seq<char> {
    spec_drop_trailing_nuls(spec_drop_leading_nuls(s))
}

proof fn lemma_drop_leading_nuls_at(s: Seq<char>, i: int)
    requires
        0 <= i <= s.len(),
        forall|j: int| 0 <= j < i ==> s[j] == '\0',
        i == s.len() || s[i] != '\0',
    ensures
        spec_drop_leading_nuls(s) =~= s.subrange(i, s.len() as int),
    decreases i,
{
    if i == 0 {
        assert(s.subrange(0, s.len() as int) =~= s);
    } else {
        let t = s.drop_first();
        assert(forall|j: int| 0 <= j < i - 1 ==> t[j] == '\0');
        lemma_drop_leading_nuls_at(t, i - 1);
        assert(t.subrange(i - 1, t.len() as int) =~= s.subrange(i, s.len() as int));
    }
}

proof fn lemma_drop_trailing_nuls_at(s: Seq<char>, j: int)
    requires
        0 <= j <= s.len(),
        forall|k: int| j <= k < s.len() ==> s[k] == '\0',
        j == 0 || s[j - 1] != '\0',
    ensures
        spec_drop_trailing_nuls(s) =~= s.subrange(0, j),
    decreases s.len(),
{
    if j == s.len() {
        assert(s.subrange(0, s.len() as int) =~= s);
    } else {
        let t = s.drop_last();
        assert(forall|k: int| j <= k < t.len() ==> t[k] == '\0');
        lemma_drop_trailing_nuls_at(t, j);
        assert(t.subrange(0, j) =~= s.subrange(0, j));
    }
}

/// Strips the zero characters from both ends of a string.
pub fn trim_nuls(s: &str) -> (r: String)
    ensures
        r@ == spec_trim_nuls(s@),
{
    let n = s.unicode_len();
    let mut i: usize = 0;
    while i < n && s.get_char(i) == '\0'
        invariant
            i <= n == s@.len(),
            forall|j: int| 0 <= j < i ==> s@[j] == '\0',
        decreases n - i,
    {
        i += 1;
    }
    let mut j: usize = n;
    while j > i && s.get_char(j - 1) == '\0'
        invariant
            i <= j <= n == s@.len(),
            forall|k: int| j <= k < n ==> s@[k] == '\0',
        decreases j,
    {
        j -= 1;
    }
    let r = s.substring_char(i, j).to_owned();
    proof {
        lemma_drop_leading_nuls_at(s@, i as int);
        let t = s@.subrange(i as int, s@.len() as int);
        assert(forall|k: int| j - i <= k < t.len() ==> t[k] == '\0');
        lemma_drop_trailing_nuls_at(t, j - i);
        assert(t.subrange(0, j - i) =~= s@.subrange(i as int, j as int));
    }
    r
}

/// Checks that a buffer holds valid UTF-8 and strips the zero padding from
/// both ends; refuses bytes that are not UTF-8.
pub fn trimmed_text(bytes: &[u8]) -> (r: Option<String>)
    ensures
        r is Some <==> valid_utf8(bytes@),
        r is Some ==> r.unwrap()@ == spec_trim_nuls(decode_utf8(bytes@)),
{
    match utf8_to_str(bytes) {
        Some(s) => Some(trim_nuls(s)),
        None => None,
    }
}

/// The index of the first line feed, or the length when there is none.
pub open spec fn spec_line_break(s: Seq<char>) -> int
    decreases s.len(),
{
    if s.len() == 0 {
        0
    } else if s[0] == '\n' {
        0
    } else {
        1 + spec_line_break(s.drop_first())
    }
}

/// A line as it is handed out: the carriage return before a line feed does
/// not count.
pub open spec fn spec_strip_cr(line: Seq<char>) -> Seq<char> {
    if line.len() > 0 && line.last() == '\r' {
        line.drop_last()
    } else {
        line
    }
}

/// The lines of a string: split at line feeds, a carriage return before a
/// line feed stripped, and nothing after a final line feed.
pub open spec fn spec_lines(s: Seq<char>) -> Seq<Seq<char>>
    decreases s.len(),
{
    if s.len() == 0 {
        Seq::empty()
    } else {
        let b = spec_line_break(s);
        if 0 <= b && b < s.len() {
            seq![spec_strip_cr(s.subrange(0, b))] + spec_lines(
                s.subrange(b + 1, s.len() as int),
            )
        } else {
            seq![s]
        }
    }
}

proof fn lemma_line_break_at(s: Seq<char>, b: int)
    requires
        0 <= b <= s.len(),
        forall|j: int| 0 <= j < b ==> s[j] != '\n',
        b == s.len() || s[b] == '\n',
    ensures
        spec_line_break(s) == b,
    decreases b,
{
    if b == 0 {
    } else {
        let t = s.drop_first();
        assert(forall|j: int| 0 <= j < b - 1 ==> t[j] != '\n');
        lemma_line_break_at(t, b - 1);
    }
}

/// Splits a string into its lines, as [`spec_lines`] describes them.
pub fn split_lines(s: &str) -> (r: Vec<String>)
    ensures
        r@.len() == spec_lines(s@).len(),
        forall|i: int| 0 <= i < r@.len() ==> r@[i]@ == spec_lines(s@)[i],
    decreases s@.len(),
{
    let n = s.unicode_len();
    if n == 0 {
        return Vec::new();
    }
    let mut b: usize = 0;
    while b < n && s.get_char(b) != '\n'
        invariant
            b <= n == s@.len(),
            forall|j: int| 0 <= j < b ==> s@[j] != '\n',
        decreases n - b,
    {
        b += 1;
    }
    proof {
        lemma_line_break_at(s@, b as int);
    }
    if b == n {
        let mut v: Vec<String> = Vec::new();
        v.push(s.to_owned());
        return v;
    }
    let line_end = if b > 0 && s.get_char(b - 1) == '\r' {
        b - 1
    } else {
        b
    };
    let line = s.substring_char(0, line_end).to_owned();
    let rest = s.substring_char(b + 1, n);
    proof {
        assert(spec_strip_cr(s@.subrange(0, b as int)) =~= s@.subrange(0, line_end as int));
    }
    let mut v = split_lines(rest);
    v.insert(0, line);
    v
}

} // verus!
