//! Text primitives that the diagnostics are assembled from: decimal numbers,
//! runs of spaces, leading whitespace, and the lines of a text.

use vstd::prelude::*;

verus! {

/// The character that stands for the decimal digit `d`.
pub open spec fn digit_char(d: nat) -> char
    recommends
        d < 10,
{
    if d == 0 {
        '0'
    } else if d == 1 {
        '1'
    } else if d == 2 {
        '2'
    } else if d == 3 {
        '3'
    } else if d == 4 {
        '4'
    } else if d == 5 {
        '5'
    } else if d == 6 {
        '6'
    } else if d == 7 {
        '7'
    } else if d == 8 {
        '8'
    } else {
        '9'
    }
}

/// The decimal numeral of `n`: no sign, no leading zeros, `"0"` for zero.
pub open spec fn decimal(n: nat) -> Seq<char>
    decreases n,
{
    if n < 10 {
        seq![digit_char(n)]
    } else {
        decimal(n / 10).push(digit_char(n % 10))
    }
}

/// `String::push` appends the given character at the end of the string.
pub assume_specification[ String::push ](s: &mut String, c: char)
    ensures
        final(s)@ == old(s)@.push(c),
;

fn digit(d: u64) -> (c: char)
    requires
        d < 10,
    ensures
        c == digit_char(d as nat),
{
    if d == 0 {
        '0'
    } else if d == 1 {
        '1'
    } else if d == 2 {
        '2'
    } else if d == 3 {
        '3'
    } else if d == 4 {
        '4'
    } else if d == 5 {
        '5'
    } else if d == 6 {
        '6'
    } else if d == 7 {
        '7'
    } else if d == 8 {
        '8'
    } else {
        '9'
    }
}

/// Appends the decimal numeral of `n` to `out`.
pub fn push_decimal(out: &mut String, n: u64)
    ensures
        final(out)@ == old(out)@ + decimal(n as nat),
    decreases n,
{
    if n >= 10 {
        push_decimal(out, n / 10);
    }
    out.push(digit(n % 10));
}

/// A run of `n` space characters.
pub open spec fn spaces(n: nat) -> Seq<char> {
    Seq::new(n, |i: int| ' ')
}

/// Appends `n` spaces to `out`.
pub fn push_spaces(out: &mut String, n: usize)
    ensures
        final(out)@ == old(out)@ + spaces(n as nat),
{
    let mut i: usize = 0;
    while i < n
        invariant
            i <= n,
            out@ == old(out)@ + spaces(i as nat),
        decreases n - i,
    {
        out.push(' ');
        i = i + 1;
        assert(out@ =~= old(out)@ + spaces(i as nat));
    }
}

/// Whether `c` has the Unicode property `White_Space`.
pub open spec fn is_whitespace(c: char) -> bool {
    let u = c as u32;
    ||| 0x9 <= u <= 0xD
    ||| u == 0x20
    ||| u == 0x85
    ||| u == 0xA0
    ||| u == 0x1680
    ||| 0x2000 <= u <= 0x200A
    ||| u == 0x2028
    ||| u == 0x2029
    ||| u == 0x202F
    ||| u == 0x205F
    ||| u == 0x3000
}

/// How many characters of whitespace `s` begins with.
pub open spec fn leading_whitespace(s: Seq<char>) -> nat
    decreases s.len(),
{
    if s.len() > 0 && is_whitespace(s[0]) {
        1 + leading_whitespace(s.drop_first())
    } else {
        0
    }
}

/// `s` without the whitespace that it begins with.
pub open spec fn trimmed_start(s: Seq<char>) -> Seq<char> {
    s.skip(leading_whitespace(s) as int)
}

/// The leading whitespace of a text is never longer than the text.
pub proof fn lemma_leading_whitespace_bound(s: Seq<char>)
    ensures
        leading_whitespace(s) <= s.len(),
    decreases s.len(),
{
    if s.len() > 0 && is_whitespace(s[0]) {
        lemma_leading_whitespace_bound(s.drop_first());
    }
}

/// `str::trim_start` returns the slice that is left when the leading
/// whitespace, by the Unicode property `White_Space`, is removed.
#[verifier::external_body]
pub(crate) fn trim_start(line: &str) -> (trimmed: &str)
    ensures
        trimmed@ == trimmed_start(line@),
{
    line.trim_start()
}

/// How many bytes the UTF-8 encoding of `s` takes.
pub open spec fn byte_len(s: Seq<char>) -> nat {
    vstd::utf8::encode_utf8(s).len()
}

/// The bytes of a text are those of any prefix and those of the rest.
pub proof fn lemma_byte_len_split(s: Seq<char>, k: int)
    requires
        0 <= k <= s.len(),
    ensures
        byte_len(s) == byte_len(s.take(k)) + byte_len(s.skip(k)),
    decreases k,
{
    if k == 0 {
        assert(s.skip(0) =~= s);
        assert(s.take(0) =~= Seq::<char>::empty());
    } else {
        lemma_byte_len_split(s.drop_first(), k - 1);
        assert(s.take(k).drop_first() =~= s.drop_first().take(k - 1));
        assert(s.skip(k) =~= s.drop_first().skip(k - 1));
        assert(s.take(k)[0] == s[0]);
    }
}

/// How many bytes of whitespace `s` begins with: the byte length of `s` less
/// that of what is left of it without its leading whitespace.
pub open spec fn stripped_bytes(s: Seq<char>) -> nat {
    (byte_len(s) - byte_len(trimmed_start(s))) as nat
}

/// How many characters stand before the first line feed of `s`: all of them
/// where it has none.
pub open spec fn line_end(s: Seq<char>) -> nat
    decreases s.len(),
{
    if s.len() == 0 || s[0] == '\n' {
        0
    } else {
        1 + line_end(s.drop_first())
    }
}

/// `s` without the carriage return that it ends with, if it ends with one.
pub open spec fn strip_cr(s: Seq<char>) -> Seq<char> {
    if s.len() > 0 && s.last() == '\r' {
        s.drop_last()
    } else {
        s
    }
}

/// Line `n` of `text`, counted from 0. A line ends with a line feed, or with a
/// carriage return and a line feed, neither of which belongs to it; the last
/// line may end with the text. A text with fewer lines has none at `n`.
pub open spec fn nth_line(text: Seq<char>, n: nat) -> Option<Seq<char>>
    decreases text.len(),
{
    let k = line_end(text);
    if text.len() == 0 {
        None
    } else if n == 0 {
        if k < text.len() {
            Some(strip_cr(text.take(k as int)))
        } else {
            Some(text)
        }
    } else if k < text.len() {
        nth_line(text.skip(k as int + 1), (n - 1) as nat)
    } else {
        None
    }
}

/// The first line feed of a text is where no line feed stands before it.
pub proof fn lemma_line_end(s: Seq<char>, k: int)
    requires
        0 <= k <= s.len(),
        forall|j: int| 0 <= j < k ==> s[j] != '\n',
        k < s.len() ==> s[k] == '\n',
    ensures
        line_end(s) == k,
    decreases k,
{
    if k > 0 {
        lemma_line_end(s.drop_first(), k - 1);
    }
}

/// Line `n` of `text`, counted from 0, or `None` where the text has fewer
/// lines.
pub fn line_at<'a>(text: &'a str, n: usize) -> (line: Option<&'a str>)
    ensures
        match line {
            Some(l) => nth_line(text@, n as nat) == Some(l@),
            None => nth_line(text@, n as nat) is None,
        },
{
    let total = text.unicode_len();
    let mut start: usize = 0;
    let mut row: usize = 0;
    let mut i: usize = 0;
    let mut after_cr = false;
    assert(text@.skip(0) =~= text@);
    for c in it: text.chars()
        invariant
            total == text@.len(),
            it.seq() == text@,
            i == it.index(),
            row <= n,
            start <= i <= total,
            forall|j: int| start <= j < i ==> text@[j] != '\n',
            after_cr == (start < i && text@[i - 1] == '\r'),
            nth_line(text@, n as nat) == nth_line(text@.skip(start as int), (n - row) as nat),
    {
        if c == '\n' {
            proof {
                lemma_line_end(text@.skip(start as int), i - start);
            }
            if row == n {
                let end = if after_cr {
                    i - 1
                } else {
                    i
                };
                let found = text.substring_char(start, end);
                assert(text@.skip(start as int).take(i - start) =~= text@.subrange(
                    start as int,
                    i as int,
                ));
                assert(found@ =~= strip_cr(text@.subrange(start as int, i as int)));
                return Some(found);
            }
            assert(text@.skip(start as int).skip(i - start + 1) =~= text@.skip(i + 1));
            row = row + 1;
            start = i + 1;
        }
        after_cr = c == '\r';
        i = i + 1;
    }
    proof {
        lemma_line_end(text@.skip(start as int), total - start);
    }
    if row == n && start < total {
        let found = text.substring_char(start, total);
        assert(found@ =~= text@.skip(start as int));
        Some(found)
    } else {
        None
    }
}

} // verus!
