//! Text as sequences of characters: the small operations on strings that the
//! rest of the library is built from.

use vstd::prelude::*;
use vstd::std_specs::iter::IteratorSpec;
use vstd::string::*;

verus! {

/// `String::push` appends one character.
pub assume_specification[ String::push ](s: &mut String, ch: char)
    ensures
        final(s)@ == old(s)@.push(ch),
;

/// The characters of a string, in order.
pub fn chars_of(s: &str) -> (out: Vec<char>)
    ensures
        out@ == s@,
{
    let mut out: Vec<char> = Vec::new();
    let chars = s.chars();
    for c in it: chars
        invariant
            out@ == s@.take(it.index@),
            it.seq() == s@,
    {
        out.push(c);
    }
    out
}

/// Whether two strings hold the same characters.
pub fn same_text(a: &str, b: &str) -> (out: bool)
    ensures
        out == (a@ == b@),
{
    let left = String::from_str(a);
    let right = String::from_str(b);
    left == right
}

/// The lower-case form of an ASCII capital letter; any other character itself.
pub open spec fn lower_char(c: char) -> char {
    if 'A' <= c && c <= 'Z' {
        ((c as u8 + 32) as u8) as char
    } else {
        c
    }
}

/// A sequence of characters with each ASCII capital letter in lower case.
pub open spec fn lower_text(s: Seq<char>) -> Seq<char> {
    Seq::new(s.len(), |i: int| lower_char(s[i]))
}

/// `str::to_ascii_lowercase` maps `A` to `Z` to `a` to `z` and leaves every
/// other character as it is.
pub assume_specification[ str::to_ascii_lowercase ](s: &str) -> (out: String)
    ensures
        out@ == lower_text(s@),
;

/// The character that stands for a digit below ten.
pub open spec fn digit_char(d: nat) -> char
    recommends
        d < 10,
{
    (48u8 + d as u8) as char
}

/// A natural number written in base ten, without leading zeros.
pub open spec fn decimal(n: nat) -> Seq<char>
    decreases n,
{
    if n < 10 {
        seq![digit_char(n)]
    } else {
        decimal(n / 10).push(digit_char(n % 10))
    }
}

/// Appends a number in base ten to a string.
pub fn push_decimal(out: &mut String, n: u64)
    ensures
        final(out)@ == old(out)@ + decimal(n as nat),
    decreases n,
{
    if n >= 10 {
        push_decimal(out, n / 10);
    }
    let d: u8 = (n % 10) as u8;
    out.push((48u8 + d) as char);
    proof {
        if n >= 10 {
            assert(old(out)@ + decimal(n as nat / 10).push(digit_char(n as nat % 10)) == (old(out)@
                + decimal(n as nat / 10)).push(digit_char(n as nat % 10)));
        } else {
            assert(old(out)@ + seq![digit_char(n as nat)] == old(out)@.push(digit_char(n as nat)));
        }
    }
}

/// A text with each run of slashes made one slash.
pub open spec fn squeeze_slashes(s: Seq<char>) -> Seq<char>
    decreases s.len(),
{
    if s.len() < 2 {
        s
    } else if s[0] == '/' && s[1] == '/' {
        squeeze_slashes(s.skip(1))
    } else {
        seq![s[0]] + squeeze_slashes(s.skip(1))
    }
}

/// Squeezing keeps the first character of a text.
pub proof fn squeeze_keeps_first(s: Seq<char>)
    requires
        s.len() > 0,
    ensures
        squeeze_slashes(s).len() > 0,
        squeeze_slashes(s)[0] == s[0],
    decreases s.len(),
{
    if s.len() >= 2 && s[0] == '/' && s[1] == '/' {
        squeeze_keeps_first(s.skip(1));
    }
}

/// A squeezed text holds no two slashes side by side.
pub proof fn squeezed_has_no_pair(s: Seq<char>)
    ensures
        forall|i: int|
            0 <= i && i + 1 < squeeze_slashes(s).len() ==> !(#[trigger] squeeze_slashes(s)[i] == '/'
                && squeeze_slashes(s)[i + 1] == '/'),
    decreases s.len(),
{
    if s.len() >= 2 {
        let rest = s.skip(1);
        squeezed_has_no_pair(rest);
        squeeze_keeps_first(rest);
        if !(s[0] == '/' && s[1] == '/') {
            let out = squeeze_slashes(s);
            assert(out == seq![s[0]] + squeeze_slashes(rest));
            assert forall|i: int| 0 <= i && i + 1 < out.len() implies !(#[trigger] out[i] == '/'
                && out[i + 1] == '/') by {
                if i == 0 {
                    assert(out[1] == squeeze_slashes(rest)[0]);
                } else {
                    assert(out[i] == squeeze_slashes(rest)[i - 1]);
                    assert(out[i + 1] == squeeze_slashes(rest)[i]);
                }
            }
        }
    }
}

/// Appends the characters from the place `from` on to a string, each run of
/// slashes as one slash.
pub fn push_squeezed(out: &mut String, chars: &Vec<char>, from: usize)
    requires
        from <= chars.len(),
    ensures
        final(out)@ == old(out)@ + squeeze_slashes(chars@.skip(from as int)),
{
    let ghost start = out@;
    let ghost all = squeeze_slashes(chars@.skip(from as int));
    let mut i: usize = from;
    while i < chars.len()
        invariant
            from <= i <= chars.len(),
            out@ + squeeze_slashes(chars@.skip(i as int)) == start + all,
        decreases chars.len() - i,
    {
        let ghost rest = chars@.skip(i as int);
        let ghost before = out@;
        proof {
            assert(rest.skip(1) == chars@.skip(i + 1));
        }
        if chars[i] == '/' && i + 1 < chars.len() && chars[i + 1] == '/' {
            proof {
                assert(squeeze_slashes(rest) == squeeze_slashes(rest.skip(1)));
            }
        } else {
            out.push(chars[i]);
            proof {
                if rest.len() >= 2 {
                    assert(out@ + squeeze_slashes(rest.skip(1)) == before + (seq![rest[0]]
                        + squeeze_slashes(rest.skip(1))));
                } else {
                    assert(rest.skip(1).len() == 0);
                    assert(out@ + squeeze_slashes(rest.skip(1)) == before + rest);
                }
            }
        }
        i += 1;
    }
    proof {
        assert(chars@.skip(chars.len() as int).len() == 0);
        assert(out@ + squeeze_slashes(chars@.skip(chars.len() as int)) == out@);
    }
}

/// A path under a folder: the path itself where it starts at the root; else
/// the folder, a slash unless the folder is empty or ends in one, and the path.
pub open spec fn joined(base: Seq<char>, path: Seq<char>) -> Seq<char> {
    if path.len() > 0 && path[0] == '/' {
        path
    } else if base.len() == 0 || base.last() == '/' {
        base + path
    } else {
        base + seq!['/'] + path
    }
}

/// A path under a folder.
pub fn join_path(base: &str, path: &str) -> (out: String)
    ensures
        out@ == joined(base@, path@),
{
    let base_len = base.unicode_len();
    let path_len = path.unicode_len();
    if path_len > 0 && path.get_char(0) == '/' {
        String::from_str(path)
    } else if base_len == 0 || base.get_char(base_len - 1) == '/' {
        String::from_str(base).concat(path)
    } else {
        let mut out = String::from_str(base);
        out.push('/');
        out.append(path);
        out
    }
}

/// Whether `char::is_whitespace` holds of a character: whether it has the
/// Unicode property `White_Space`.
pub uninterp spec fn is_space(c: char) -> bool;

/// Calls `char::is_whitespace`. Trusted: the result is what `is_space` names
/// for this character.
#[verifier::external_body]
fn is_whitespace(c: char) -> (out: bool)
    ensures
        out == is_space(c),
{
    c.is_whitespace()
}

/// The first place at or after `from` that holds no whitespace; the length of
/// the text where there is none.
pub open spec fn word_start(s: Seq<char>, from: int) -> int
    decreases s.len() - from,
{
    if from < 0 || from >= s.len() {
        s.len() as int
    } else if is_space(s[from]) {
        word_start(s, from + 1)
    } else {
        from
    }
}

/// The first place at or after `from` that holds whitespace; the length of
/// the text where there is none.
pub open spec fn word_end(s: Seq<char>, from: int) -> int
    decreases s.len() - from,
{
    if from < 0 || from >= s.len() {
        s.len() as int
    } else if is_space(s[from]) {
        from
    } else {
        word_end(s, from + 1)
    }
}

/// The word that begins at or after `from`: the first run of characters that
/// are not whitespace. Nothing where only whitespace is left.
pub open spec fn word_at(s: Seq<char>, from: int) -> Option<Seq<char>> {
    let start = word_start(s, from);
    if start < s.len() {
        Some(s.subrange(start, word_end(s, start)))
    } else {
        None
    }
}

/// The place behind the word that begins at or after `from`.
pub open spec fn after_word(s: Seq<char>, from: int) -> int {
    word_end(s, word_start(s, from))
}

/// The word that begins at or after `from`, with the place behind it.
pub fn next_word(chars: &Vec<char>, from: usize) -> (out: (Option<String>, usize))
    requires
        from <= chars.len(),
    ensures
        match out.0 {
            Some(word) => word_at(chars@, from as int) == Some(word@),
            None => word_at(chars@, from as int) is None,
        },
        out.1 == after_word(chars@, from as int),
        from <= out.1 <= chars.len(),
{
    let mut start: usize = from;
    while start < chars.len() && is_whitespace(chars[start])
        invariant
            from <= start <= chars.len(),
            word_start(chars@, start as int) == word_start(chars@, from as int),
        decreases chars.len() - start,
    {
        start += 1;
    }
    let mut end: usize = start;
    let mut word = String::new();
    while end < chars.len() && !is_whitespace(chars[end])
        invariant
            start <= end <= chars.len(),
            word_end(chars@, end as int) == word_end(chars@, start as int),
            word@ == chars@.subrange(start as int, end as int),
        decreases chars.len() - end,
    {
        word.push(chars[end]);
        proof {
            assert(chars@.subrange(start as int, end + 1) == chars@.subrange(
                start as int,
                end as int,
            ).push(chars@[end as int]));
        }
        end += 1;
    }
    if start < chars.len() {
        (Some(word), end)
    } else {
        (None, end)
    }
}

} // verus!
