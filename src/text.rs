//! Text primitives: comparing, splitting, integer reading and writing.

use vstd::prelude::*;
use vstd::string::*;

verus! {

/// The pieces of `s` between single spaces, empty pieces kept.
pub open spec fn split_spaces(s: Seq<char>) -> Seq<Seq<char>>
    decreases s.len(),
{
    if s.len() == 0 {
        seq![Seq::<char>::empty()]
    } else {
        let p = split_spaces(s.drop_last());
        if s.last() == ' ' {
            p.push(Seq::<char>::empty())
        } else {
            p.update(p.len() - 1, p.last().push(s.last()))
        }
    }
}

/// Splitting always yields at least one piece.
pub proof fn lemma_split_nonempty(s: Seq<char>)
    ensures
        split_spaces(s).len() >= 1,
    decreases s.len(),
{
    if s.len() > 0 {
        lemma_split_nonempty(s.drop_last());
    }
}

/// The views of a vector of strings.
pub open spec fn views(v: Seq<String>) -> Seq<Seq<char>> {
    v.map_values(|t: String| t@)
}

/// Character-wise equality of two strings.
pub fn str_eq(a: &str, b: &str) -> (r: bool)
    ensures
        r == (a@ == b@),
{
    let n = a.unicode_len();
    if n != b.unicode_len() {
        return false;
    }
    let mut i: usize = 0;
    while i < n
        invariant
            n == a@.len(),
            n == b@.len(),
            i <= n,
            forall|j: int| 0 <= j < i ==> a@[j] == b@[j],
        decreases n - i,
    {
        if a.get_char(i) != b.get_char(i) {
            return false;
        }
        i = i + 1;
    }
    assert(a@ =~= b@);
    true
}

/// Splits a line into its space-separated tokens, as the command prompt reads them.
pub fn split_tokens(line: &str) -> (r: Vec<String>)
    ensures
        views(r@) == split_spaces(line@),
{
    let n = line.unicode_len();
    let mut toks: Vec<String> = Vec::new();
    let mut start: usize = 0;
    let mut i: usize = 0;
    assert(line@.take(0) =~= Seq::<char>::empty());
    assert(views(toks@).push(line@.subrange(0, 0)) =~= split_spaces(line@.take(0)));
    while i < n
        invariant
            n == line@.len(),
            start <= i <= n,
            views(toks@).push(line@.subrange(start as int, i as int)) == split_spaces(
                line@.take(i as int),
            ),
        decreases n - i,
    {
        let ghost old_toks = toks@;
        let ghost old_start = start;
        let c = line.get_char(i);
        assert(line@.take(i + 1).drop_last() =~= line@.take(i as int));
        assert(line@.take(i + 1).last() == c);
        if c == ' ' {
            let piece = line.substring_char(start, i);
            toks.push(String::from_str(piece));
            start = i + 1;
            assert(views(toks@) =~= views(old_toks).push(line@.subrange(old_start as int, i as int)));
            assert(line@.subrange(start as int, i + 1) =~= Seq::<char>::empty());
        } else {
            assert(line@.subrange(start as int, i + 1) =~= line@.subrange(
                start as int,
                i as int,
            ).push(c));
            assert(views(toks@).push(line@.subrange(start as int, i + 1)) =~= views(toks@).push(
                line@.subrange(start as int, i as int),
            ).update(views(toks@).len() as int, line@.subrange(start as int, i as int).push(c)));
        }
        i = i + 1;
    }
    let last = line.substring_char(start, n);
    let ghost before = toks@;
    toks.push(String::from_str(last));
    assert(views(toks@) =~= views(before).push(line@.subrange(start as int, n as int)));
    assert(line@.take(n as int) =~= line@);
    toks
}

/// The line with one trailing line terminator ("\n" or "\r\n") removed.
pub open spec fn without_line_end(s: Seq<char>) -> Seq<char> {
    let t = if s.len() > 0 && s.last() == '\n' {
        s.drop_last()
    } else {
        s
    };
    if t.len() > 0 && t.last() == '\r' {
        t.drop_last()
    } else {
        t
    }
}

/// Removes the line terminator that a line read from the terminal ends with.
pub fn strip_line_end(line: &str) -> (r: &str)
    ensures
        r@ == without_line_end(line@),
{
    let mut n = line.unicode_len();
    if n > 0 && line.get_char(n - 1) == '\n' {
        n = n - 1;
    }
    if n > 0 && line.get_char(n - 1) == '\r' {
        n = n - 1;
    }
    let r = line.substring_char(0, n);
    assert(line@.subrange(0, line@.len() as int) =~= line@);
    assert(line@.len() > 0 ==> line@.subrange(0, line@.len() - 1) =~= line@.drop_last());
    assert(line@.len() > 1 ==> line@.subrange(0, line@.len() - 2) =~= line@.drop_last().drop_last());
    r
}

pub open spec fn is_digit(c: char) -> bool {
    '0' <= c && c <= '9'
}

pub open spec fn digit_value(c: char) -> int {
    (c as u32) as int - ('0' as u32) as int
}

pub open spec fn all_digits(s: Seq<char>) -> bool {
    forall|i: int| 0 <= i < s.len() ==> is_digit(#[trigger] s[i])
}

/// The value of a string of decimal digits, most significant first.
pub open spec fn digits_value(s: Seq<char>) -> int
    decreases s.len(),
{
    if s.len() == 0 {
        0
    } else {
        10 * digits_value(s.drop_last()) + digit_value(s.last())
    }
}

/// The integer written in `s`: an optional sign, then one or more decimal digits.
pub open spec fn int_of(s: Seq<char>) -> Option<int> {
    if s.len() > 0 && (s[0] == '-' || s[0] == '+') {
        let d = s.drop_first();
        if d.len() > 0 && all_digits(d) {
            Some(
                if s[0] == '-' {
                    -digits_value(d)
                } else {
                    digits_value(d)
                },
            )
        } else {
            None
        }
    } else if s.len() > 0 && all_digits(s) {
        Some(digits_value(s))
    } else {
        None
    }
}

/// The `i32` written in `s`, if `s` writes one that fits.
pub open spec fn i32_of(s: Seq<char>) -> Option<i32> {
    match int_of(s) {
        Some(v) => if i32::MIN <= v && v <= i32::MAX {
            Some(v as i32)
        } else {
            None
        },
        None => None,
    }
}

proof fn lemma_digits_value_nonneg(s: Seq<char>)
    requires
        all_digits(s),
    ensures
        digits_value(s) >= 0,
    decreases s.len(),
{
    if s.len() > 0 {
        assert(all_digits(s.drop_last()));
        lemma_digits_value_nonneg(s.drop_last());
        assert(is_digit(s[s.len() - 1]));
    }
}

/// Above every magnitude an `i32` can have.
const SATURATED: u64 = 2147483649;

/// Reads a base-10 `i32` with an optional sign; `None` where the text is no such number.
pub fn parse_i32(s: &str) -> (r: Option<i32>)
    ensures
        r == i32_of(s@),
{
    let n = s.unicode_len();
    if n == 0 {
        return None;
    }
    let first = s.get_char(0);
    let signed = first == '-' || first == '+';
    let start: usize = if signed {
        1
    } else {
        0
    };
    if start == n {
        return None;
    }
    let mut acc: u64 = 0;
    let mut i: usize = start;
    assert(s@.subrange(start as int, start as int) =~= Seq::<char>::empty());
    while i < n
        invariant
            n == s@.len(),
            start <= i <= n,
            n > 0,
            first == s@[0],
            signed == (first == '-' || first == '+'),
            start == (if signed { 1usize } else { 0usize }),
            forall|j: int| start <= j < i ==> is_digit(#[trigger] s@[j]),
            all_digits(s@.subrange(start as int, i as int)),
            acc <= SATURATED,
            digits_value(s@.subrange(start as int, i as int)) < SATURATED ==> acc
                == digits_value(s@.subrange(start as int, i as int)),
            digits_value(s@.subrange(start as int, i as int)) >= SATURATED ==> acc == SATURATED,
        decreases n - i,
    {
        let c = s.get_char(i);
        if !('0' <= c && c <= '9') {
            proof {
                if signed {
                    assert(s@.drop_first()[i - 1] == c);
                    assert(!all_digits(s@.drop_first()));
                } else {
                    assert(!is_digit(s@[i as int]));
                }
            }
            return None;
        }
        let ghost prev = s@.subrange(start as int, i as int);
        let ghost next_seq = s@.subrange(start as int, i + 1);
        assert(next_seq.drop_last() =~= prev);
        assert(all_digits(next_seq));
        proof {
            lemma_digits_value_nonneg(prev);
        }
        let d = (c as u32 - '0' as u32) as u64;
        let next = acc * 10 + d;
        acc = if next > SATURATED {
            SATURATED
        } else {
            next
        };
        i = i + 1;
    }
    let ghost d = s@.subrange(start as int, n as int);
    proof {
        lemma_digits_value_nonneg(d);
        if signed {
            assert(s@.drop_first() =~= d);
        } else {
            assert(s@ =~= d);
        }
    }
    if first == '-' {
        if acc > 2147483648 {
            None
        } else {
            Some((0 - acc as i64) as i32)
        }
    } else {
        if acc > 2147483647 {
            None
        } else {
            Some(acc as i32)
        }
    }
}

pub open spec fn decimal_digits() -> Seq<char> {
    seq!['0', '1', '2', '3', '4', '5', '6', '7', '8', '9']
}

/// The decimal digits of `n`, without leading zeros.
pub open spec fn nat_text(n: nat) -> Seq<char>
    decreases n,
{
    if n < 10 {
        seq![decimal_digits()[n as int]]
    } else {
        nat_text(n / 10).push(decimal_digits()[(n % 10) as int])
    }
}

/// The decimal form of `v`, with a leading '-' when it is negative.
pub open spec fn int_text(v: int) -> Seq<char> {
    if v < 0 {
        seq!['-'] + nat_text((-v) as nat)
    } else {
        nat_text(v as nat)
    }
}

fn push_decimal(n: u64, out: &mut String)
    ensures
        final(out)@ == old(out)@ + nat_text(n as nat),
    decreases n,
{
    if n >= 10 {
        push_decimal(n / 10, out);
    }
    let d = (n % 10) as usize;
    let digits = "0123456789";
    proof {
        reveal_strlit("0123456789");
        assert(digits@ =~= decimal_digits());
    }
    let piece = digits.substring_char(d, d + 1);
    assert(piece@ =~= seq![decimal_digits()[d as int]]);
    out.append(piece);
    assert(final(out)@ =~= old(out)@ + nat_text(n as nat));
}

/// Writes `v` in decimal.
pub fn int_to_text(v: i64) -> (r: String)
    ensures
        r@ == int_text(v as int),
{
    let mut out = String::new();
    if v < 0 {
        let minus = "-";
        proof {
            reveal_strlit("-");
        }
        out.append(minus);
        let m: u64 = if v == i64::MIN {
            9223372036854775808u64
        } else {
            (0 - v) as u64
        };
        push_decimal(m, &mut out);
    } else {
        push_decimal(v as u64, &mut out);
    }
    assert(out@ =~= int_text(v as int));
    out
}

/// Writes a count in decimal.
pub fn usize_to_text(n: usize) -> (r: String)
    ensures
        r@ == int_text(n as int),
{
    let mut out = String::new();
    push_decimal(n as u64, &mut out);
    assert(out@ =~= int_text(n as int));
    out
}

} // verus!
