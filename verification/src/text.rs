//! Small text helpers shared by the session code: decimal rendering of
//! numbers and the clean-up applied to text that travels in request headers.

use vstd::prelude::*;

verus! {

/// `String::push` appends exactly one character to the end of the string.
pub assume_specification[ String::push ](s: &mut String, c: char)
    ensures
        final(s)@ == old(s)@.push(c),
;

/// The character that stands for a single decimal digit.
pub open spec fn digit_char(d: nat) -> char {
    if d == 0 {
        '0'
    } else if d == 1 {
        '1'
    } else if d == 2 {
        '2'
    } else if d == 3 {
        '3'
    } else if d == 4 {
        '4'
    } else if d == 5 {
        '5'
    } else if d == 6 {
        '6'
    } else if d == 7 {
        '7'
    } else if d == 8 {
        '8'
    } else {
        '9'
    }
}

/// The decimal numeral of `n`: most significant digit first, no sign, no
/// leading zero except for zero itself.
pub open spec fn decimal(n: nat) -> Seq<char>
    decreases n,
{
    if n < 10 {
        seq![digit_char(n)]
    } else {
        decimal(n / 10).push(digit_char(n % 10))
    }
}

fn digit(d: u64) -> (c: char)
    requires
        d < 10,
    ensures
        c == digit_char(d as nat),
{
    if d == 0 {
        '0'
    } else if d == 1 {
        '1'
    } else if d == 2 {
        '2'
    } else if d == 3 {
        '3'
    } else if d == 4 {
        '4'
    } else if d == 5 {
        '5'
    } else if d == 6 {
        '6'
    } else if d == 7 {
        '7'
    } else if d == 8 {
        '8'
    } else {
        '9'
    }
}

/// Appends the decimal numeral of `n` to `out`.
pub fn push_decimal(out: &mut String, n: u64)
    ensures
        final(out)@ == old(out)@ + decimal(n as nat),
    decreases n,
{
    if n < 10 {
        out.push(digit(n));
        assert(old(out)@.push(digit_char(n as nat)) =~= old(out)@ + decimal(n as nat));
    } else {
        push_decimal(out, n / 10);
        out.push(digit(n % 10));
        assert((old(out)@ + decimal((n / 10) as nat)).push(digit_char((n % 10) as nat)) =~= old(
            out,
        )@ + decimal(n as nat));
    }
}

/// Renders `n` as its decimal numeral.
pub fn decimal_string(n: u64) -> (s: String)
    ensures
        s@ == decimal(n as nat),
{
    let mut s = String::new();
    push_decimal(&mut s, n);
    assert(Seq::<char>::empty() + decimal(n as nat) =~= decimal(n as nat));
    s
}

/// Whether a character lies in the ASCII range.
pub open spec fn is_ascii_char(c: char) -> bool {
    (c as u32) < 128
}

/// The ASCII characters that count as white space when a text is trimmed:
/// space, horizontal tab, line feed, vertical tab, form feed, carriage return.
pub open spec fn is_ascii_space(c: char) -> bool {
    c == ' ' || (9 <= (c as u32) && (c as u32) <= 13)
}

/// `s` with every character outside the ASCII range removed.
pub open spec fn ascii_only(s: Seq<char>) -> Seq<char> {
    s.filter(|c: char| is_ascii_char(c))
}

/// `s` without its leading white space.
pub open spec fn trim_start(s: Seq<char>) -> Seq<char>
    decreases s.len(),
{
    if s.len() > 0 && is_ascii_space(s[0]) {
        trim_start(s.drop_first())
    } else {
        s
    }
}

/// `s` without its trailing white space.
pub open spec fn trim_end(s: Seq<char>) -> Seq<char>
    decreases s.len(),
{
    if s.len() > 0 && is_ascii_space(s.last()) {
        trim_end(s.drop_last())
    } else {
        s
    }
}

/// The form in which a free text is sent in a header: ASCII characters only,
/// then stripped of white space at both ends.
pub open spec fn sanitized(s: Seq<char>) -> Seq<char> {
    trim_end(trim_start(ascii_only(s)))
}

fn char_is_ascii(c: char) -> (r: bool)
    ensures
        r == is_ascii_char(c),
{
    (c as u32) < 128
}

fn char_is_space(c: char) -> (r: bool)
    ensures
        r == is_ascii_space(c),
{
    c == ' ' || (9 <= (c as u32) && (c as u32) <= 13)
}

/// Collects the ASCII characters of `s`, in order.
fn ascii_chars(s: &str) -> (out: Vec<char>)
    ensures
        out@ == ascii_only(s@),
{
    let n = s.unicode_len();
    let mut out: Vec<char> = Vec::new();
    let mut i: usize = 0;
    while i < n
        invariant
            n == s@.len(),
            i <= n,
            out@ == ascii_only(s@.take(i as int)),
        decreases n - i,
    {
        let c = s.get_char(i);
        proof {
            let pred = |c: char| is_ascii_char(c);
            let next = s@.take(i + 1);
            assert(next.drop_last() =~= s@.take(i as int));
            assert(next.last() == c);
            reveal_with_fuel(Seq::filter, 2);
            assert(next.filter(pred) == if pred(c) {
                s@.take(i as int).filter(pred).push(c)
            } else {
                s@.take(i as int).filter(pred)
            });
        }
        if char_is_ascii(c) {
            out.push(c);
        }
        i = i + 1;
    }
    proof {
        assert(s@.take(n as int) =~= s@);
    }
    out
}

proof fn trim_start_skips(s: Seq<char>, lo: int)
    requires
        0 <= lo <= s.len(),
        forall|k: int| 0 <= k < lo ==> is_ascii_space(#[trigger] s[k]),
    ensures
        trim_start(s) == trim_start(s.subrange(lo, s.len() as int)),
    decreases lo,
{
    if lo == 0 {
        assert(s.subrange(0, s.len() as int) =~= s);
    } else {
        let rest = s.drop_first();
        assert forall|k: int| 0 <= k < lo - 1 implies is_ascii_space(#[trigger] rest[k]) by {
            assert(rest[k] == s[k + 1]);
        }
        trim_start_skips(rest, lo - 1);
        assert(rest.subrange(lo - 1, rest.len() as int) =~= s.subrange(lo, s.len() as int));
        assert(is_ascii_space(s[0]));
    }
}

proof fn trim_end_skips(s: Seq<char>, hi: int)
    requires
        0 <= hi <= s.len(),
        forall|k: int| hi <= k < s.len() ==> is_ascii_space(#[trigger] s[k]),
    ensures
        trim_end(s) == trim_end(s.subrange(0, hi)),
    decreases s.len() - hi,
{
    if hi == s.len() {
        assert(s.subrange(0, hi) =~= s);
    } else {
        let rest = s.drop_last();
        assert forall|k: int| hi <= k < rest.len() implies is_ascii_space(#[trigger] rest[k]) by {
            assert(rest[k] == s[k]);
        }
        trim_end_skips(rest, hi);
        assert(rest.subrange(0, hi) =~= s.subrange(0, hi));
        assert(is_ascii_space(s.last()));
    }
}

/// Prepares a free text, such as a user or host name, for use as a header
/// value: drops every non-ASCII character and trims white space at both ends.
pub fn sanitize_header_text(s: &str) -> (r: String)
    ensures
        r@ == sanitized(s@),
{
    let chars = ascii_chars(s);
    let n = chars.len();
    let mut lo: usize = 0;
    while lo < n && char_is_space(chars[lo])
        invariant
            n == chars@.len(),
            lo <= n,
            forall|k: int| 0 <= k < lo ==> is_ascii_space(#[trigger] chars@[k]),
        decreases n - lo,
    {
        lo = lo + 1;
    }
    let mut hi: usize = n;
    while hi > lo && char_is_space(chars[hi - 1])
        invariant
            n == chars@.len(),
            lo <= hi <= n,
            forall|k: int| hi <= k < n ==> is_ascii_space(#[trigger] chars@[k]),
        decreases hi - lo,
    {
        hi = hi - 1;
    }
    proof {
        let all = chars@;
        let tail = all.subrange(lo as int, n as int);
        trim_start_skips(all, lo as int);
        assert(trim_start(all) == tail) by {
            if lo < n {
                assert(tail[0] == all[lo as int]);
            }
        }
        assert forall|k: int| hi - lo <= k < tail.len() implies is_ascii_space(
            #[trigger] tail[k],
        ) by {
            assert(tail[k] == all[k + lo]);
        }
        trim_end_skips(tail, hi - lo);
        let kept = tail.subrange(0, hi - lo);
        assert(kept =~= all.subrange(lo as int, hi as int));
        assert(trim_end(kept) == kept) by {
            if hi > lo {
                assert(kept.last() == all[hi - 1]);
            }
        }
    }
    let mut r = String::new();
    let mut i: usize = lo;
    while i < hi
        invariant
            lo <= i <= hi <= chars@.len(),
            r@ == chars@.subrange(lo as int, i as int),
        decreases hi - i,
    {
        r.push(chars[i]);
        assert(chars@.subrange(lo as int, i as int).push(chars@[i as int]) =~= chars@.subrange(
            lo as int,
            i + 1,
        ));
        i = i + 1;
    }
    r
}

} // verus!
