//! Text helpers with exact contracts: comparing, splitting into lines,
//! rendering and parsing decimal numbers, and trimming trailing white space.
use vstd::prelude::*;
use vstd::string::StringSliceAdditionalSpecFns;
use vstd::string::StrSliceExecFns;
use vstd::std_specs::iter::IteratorSpec;
use vstd::string::StringExecFns;

verus! {

/// Whether two string slices hold the same characters.
pub fn str_eq(a: &str, b: &str) -> (r: bool)
    ensures
        r == (a@ == b@),
{
    let ab = a.as_bytes();
    let bb = b.as_bytes();
    proof {
        vstd::utf8::encode_utf8_decode_utf8(a@);
        vstd::utf8::encode_utf8_decode_utf8(b@);
    }
    if ab.len() != bb.len() {
        assert(a.spec_bytes().len() != b.spec_bytes().len());
        return false;
    }
    let n = ab.len();
    let mut i: usize = 0;
    while i < n
        invariant
            n == ab@.len(),
            ab@ == a.spec_bytes(),
            bb@ == b.spec_bytes(),
            n == bb@.len(),
            i <= n,
            forall|j: int| 0 <= j < i ==> ab@[j] == bb@[j],
        decreases n - i,
    {
        if ab[i] != bb[i] {
            assert(ab@[i as int] != bb@[i as int]);
            assert(a.spec_bytes() != b.spec_bytes());
            return false;
        }
        i = i + 1;
    }
    assert(ab@ =~= bb@);
    true
}

/// The characters of a string slice, in order.
pub fn chars_of(s: &str) -> (v: Vec<char>)
    ensures
        v@ == s@,
{
    broadcast use vstd::string::group_string_axioms;

    let mut v: Vec<char> = Vec::new();
    for c in it: s.chars()
        invariant
            v@ == it.seq().take(it.index() as int),
    {
        v.push(c);
    }
    assert(v@ =~= s@);
    v
}

/// The index of the first newline in `s`, or its length when there is none.
pub open spec fn first_newline(s: Seq<char>) -> int
    decreases s.len(),
{
    if s.len() == 0 {
        0
    } else if s[0] == '\n' {
        0
    } else {
        1 + first_newline(s.drop_first())
    }
}

/// The first newline lies within the text, or just past its end.
pub proof fn lemma_first_newline_bounds(s: Seq<char>)
    ensures
        0 <= first_newline(s) <= s.len(),
    decreases s.len(),
{
    if s.len() > 0 && s[0] != '\n' {
        lemma_first_newline_bounds(s.drop_first());
    }
}

/// A line without the carriage return that ends it, if any.
pub open spec fn strip_cr(line: Seq<char>) -> Seq<char> {
    if line.len() > 0 && line.last() == '\r' {
        line.drop_last()
    } else {
        line
    }
}

/// The lines of a text: pieces split at each newline, a carriage return just
/// before a newline dropped with it, and no empty piece after a final newline.
pub open spec fn spec_lines(s: Seq<char>) -> Seq<Seq<char>>
    decreases s.len(),
{
    if s.len() == 0 {
        Seq::empty()
    } else {
        let i = first_newline(s);
        if i >= s.len() {
            seq![s]
        } else {
            proof {
                lemma_first_newline_bounds(s);
            }
            seq![strip_cr(s.take(i))] + spec_lines(s.skip(i + 1))
        }
    }
}

proof fn lemma_first_newline(s: Seq<char>, m: int)
    requires
        0 <= m <= s.len(),
        forall|k: int| 0 <= k < m ==> s[k] != '\n',
        m < s.len() ==> s[m] == '\n',
    ensures
        first_newline(s) == m,
    decreases m,
{
    if m > 0 {
        lemma_first_newline(s.drop_first(), m - 1);
    }
}

/// The lines of a text, as `str::lines` yields them.
pub fn lines(text: &str) -> (r: Vec<String>)
    ensures
        r.deep_view() == spec_lines(text@),
{
    let cs = chars_of(text);
    let n = cs.len();
    let mut out: Vec<String> = Vec::new();
    let mut start: usize = 0;
    let mut i: usize = 0;
    assert(cs@.skip(0) =~= cs@);
    while i < n
        invariant
            n == cs@.len(),
            cs@ == text@,
            start <= i <= n,
            forall|k: int| start <= k < i ==> cs@[k] != '\n',
            spec_lines(cs@) == out.deep_view() + spec_lines(cs@.skip(start as int)),
        decreases n - i,
    {
        if cs[i] == '\n' {
            let ghost rest = cs@.skip(start as int);
            proof {
                lemma_first_newline(rest, i - start);
                assert(rest.take(i - start) =~= cs@.subrange(start as int, i as int));
                assert(rest.skip(i - start + 1) =~= cs@.skip(i + 1));
            }
            let end = if i > start && cs[i - 1] == '\r' { i - 1 } else { i };
            assert(cs@.subrange(start as int, end as int) =~= strip_cr(cs@.subrange(start as int, i as int)));
            let line = text.substring_char(start, end).to_owned();
            let ghost before = out.deep_view();
            out.push(line);
            assert(out.deep_view() =~= before.push(line@));
            assert(spec_lines(cs@) =~= out.deep_view() + spec_lines(cs@.skip(i + 1)));
            start = i + 1;
        }
        i = i + 1;
    }
    if start < n {
        let ghost rest = cs@.skip(start as int);
        proof {
            lemma_first_newline(rest, n - start);
            assert(rest =~= cs@.subrange(start as int, n as int));
        }
        let line = text.substring_char(start, n).to_owned();
        let ghost before = out.deep_view();
        out.push(line);
        assert(out.deep_view() =~= before.push(line@));
    } else {
        assert(cs@.skip(start as int).len() == 0);
    }
    assert(spec_lines(cs@) =~= out.deep_view());
    out
}

proof fn lemma_first_newline_props(s: Seq<char>)
    ensures
        first_newline(s) < s.len() ==> s[first_newline(s)] == '\n',
        forall|k: int| 0 <= k < first_newline(s) ==> s[k] != '\n',
    decreases s.len(),
{
    lemma_first_newline_bounds(s);
    if s.len() > 0 && s[0] != '\n' {
        lemma_first_newline_props(s.drop_first());
        lemma_first_newline_bounds(s.drop_first());
        if first_newline(s) < s.len() {
            assert(s[first_newline(s)] == s.drop_first()[first_newline(s.drop_first())]);
        }
        assert forall|k: int| 0 <= k < first_newline(s) implies s[k] != '\n' by {
            if k > 0 {
                assert(s[k] == s.drop_first()[k - 1]);
            }
        }
    }
}

/// Lines joined back together, a newline between each two.
pub open spec fn join_lines(ls: Seq<Seq<char>>) -> Seq<char>
    decreases ls.len(),
{
    if ls.len() == 0 {
        Seq::empty()
    } else if ls.len() == 1 {
        ls[0]
    } else {
        ls[0] + seq!['\n'] + join_lines(ls.drop_first())
    }
}

/// No line holds a newline.
pub proof fn lemma_lines_hold_no_newline(s: Seq<char>)
    ensures
        forall|i: int, k: int| 0 <= i < spec_lines(s).len() && 0 <= k < spec_lines(s)[i].len()
            ==> #[trigger] spec_lines(s)[i][k] != '\n',
    decreases s.len(),
{
    if s.len() > 0 {
        let i = first_newline(s);
        lemma_first_newline_bounds(s);
        lemma_first_newline_props(s);
        if i < s.len() {
            lemma_lines_hold_no_newline(s.skip(i + 1));
            let ls = spec_lines(s);
            assert forall|a: int, k: int| 0 <= a < ls.len() && 0 <= k < ls[a].len() implies #[trigger] ls[a][k] != '\n' by {
                if a > 0 {
                    assert(ls[a] == spec_lines(s.skip(i + 1))[a - 1]);
                } else {
                    assert(ls[0] == strip_cr(s.take(i)));
                    assert(ls[0][k] == s[k]);
                }
            }
        }
    }
}

/// Empty lines are kept and only line endings are dropped: for a text without
/// carriage returns, joining its lines with newlines gives the text back,
/// less the final newline if it ends with one.
#[verifier::rlimit(40)]
pub proof fn lemma_lines_rejoin(s: Seq<char>)
    requires
        !s.contains('\r'),
    ensures
        join_lines(spec_lines(s)) == (if s.len() > 0 && s.last() == '\n' { s.drop_last() } else { s }),
    decreases s.len(),
{
    if s.len() > 0 {
        let i = first_newline(s);
        lemma_first_newline_bounds(s);
        lemma_first_newline_props(s);
        if i < s.len() {
            let head = s.take(i);
            let rest = s.skip(i + 1);
            assert(!rest.contains('\r')) by {
                if rest.contains('\r') {
                    let k = choose|k: int| 0 <= k < rest.len() && rest[k] == '\r';
                    assert(s[k + i + 1] == '\r');
                }
            }
            if head.len() > 0 && head.last() == '\r' {
                assert(s[i - 1] == '\r');
            }
            assert(strip_cr(head) == head);
            lemma_lines_rejoin(rest);
            if rest.len() == 0 {
                assert(spec_lines(s) =~= seq![head]);
                assert(head =~= s.drop_last());
            } else {
                let ls = spec_lines(s);
                assert(ls.drop_first() =~= spec_lines(rest));
                assert(spec_lines(rest).len() > 0);
                if rest.last() == '\n' {
                    assert(head + seq!['\n'] + rest.drop_last() =~= s.drop_last());
                } else {
                    assert(head + seq!['\n'] + rest =~= s);
                }
            }
        }
    }
}

/// The decimal digit character for `d` below ten.
pub open spec fn digit_char(d: nat) -> char {
    "0123456789"@[d as int]
}

/// The decimal rendering of a natural number, without leading zeros.
pub open spec fn decimal(n: nat) -> Seq<char>
    decreases n,
{
    if n < 10 {
        seq![digit_char(n)]
    } else {
        decimal(n / 10).push(digit_char(n % 10))
    }
}

/// Renders a number in decimal, as `Display` does for unsigned integers.
pub fn decimal_string(n: usize) -> (r: String)
    ensures
        r@ == decimal(n as nat),
{
    proof {
        reveal_strlit("0123456789");
    }
    let digits_src = "0123456789";
    let mut digits: Vec<usize> = Vec::new();
    let mut m = n;
    while m >= 10
        invariant
            forall|k: int| 0 <= k < digits@.len() ==> digits@[k] < 10,
            decimal(n as nat) == decimal(m as nat) + Seq::new(
                digits@.len(),
                |k: int| digit_char(digits@[digits@.len() - 1 - k] as nat),
            ),
        decreases m,
    {
        let ghost before = digits@;
        digits.push(m % 10);
        assert(decimal(m as nat) == decimal((m / 10) as nat).push(digit_char((m % 10) as nat)));
        assert(Seq::new(digits@.len(), |k: int| digit_char(digits@[digits@.len() - 1 - k] as nat)) =~= seq![
            digit_char((m % 10) as nat),
        ] + Seq::new(before.len(), |k: int| digit_char(before[before.len() - 1 - k] as nat)));
        m = m / 10;
    }
    let mut out = String::new();
    out.append(digits_src.substring_char(m, m + 1));
    assert(out@ =~= decimal(m as nat));
    let ghost tail = Seq::new(digits@.len(), |k: int| digit_char(digits@[digits@.len() - 1 - k] as nat));
    let mut i = digits.len();
    while i > 0
        invariant
            i <= digits@.len(),
            digits_src@ == "0123456789"@,
            digits_src@.len() == 10,
            forall|k: int| 0 <= k < digits@.len() ==> digits@[k] < 10,
            tail == Seq::new(digits@.len(), |k: int| digit_char(digits@[digits@.len() - 1 - k] as nat)),
            decimal(n as nat) == decimal(m as nat) + tail,
            out@ == decimal(m as nat) + tail.take(digits@.len() - i),
        decreases i,
    {
        i = i - 1;
        let d = digits[i];
        out.append(digits_src.substring_char(d, d + 1));
        assert(tail[digits@.len() - i - 1] == digit_char(d as nat));
        assert(tail.take(digits@.len() - i) =~= tail.take(digits@.len() - i - 1).push(digit_char(d as nat)));
    }
    assert(tail.take(digits@.len() as int) =~= tail);
    out
}

/// The decimal rendering of an integer: a minus sign before a negative one.
pub open spec fn signed_decimal(n: int) -> Seq<char> {
    if n < 0 {
        "-"@ + decimal((-n) as nat)
    } else {
        decimal(n as nat)
    }
}

/// Renders a signed number in decimal, as `Display` does for `i32`.
pub fn signed_decimal_string(n: i32) -> (r: String)
    ensures
        r@ == signed_decimal(n as int),
{
    if n < 0 {
        let magnitude = (-(n as i64)) as u64;
        assert(magnitude <= 0x8000_0000);
        let mut out = String::new();
        out.append("-");
        let digits = decimal_string(magnitude as usize);
        out.append(digits.as_str());
        out
    } else {
        decimal_string(n as usize)
    }
}

/// Whether every character of `s` is an ASCII decimal digit.
pub open spec fn all_digits(s: Seq<char>) -> bool {
    forall|i: int| 0 <= i < s.len() ==> '0' <= #[trigger] s[i] <= '9'
}

/// The number that a run of decimal digits denotes.
pub open spec fn digits_value(s: Seq<char>) -> nat
    decreases s.len(),
{
    if s.len() == 0 {
        0
    } else {
        digits_value(s.drop_last()) * 10 + ((s.last() as int) - ('0' as int)) as nat
    }
}

/// The digits of an unsigned number's text: the text after one optional
/// leading plus sign.
pub open spec fn unsigned_digits(s: Seq<char>) -> Seq<char> {
    if s.len() > 0 && s[0] == '+' {
        s.skip(1)
    } else {
        s
    }
}

/// What parsing `s` as a `u64` gives, as `str::parse` does: an optional
/// plus sign, then at least one decimal digit, and a value that fits.
pub open spec fn spec_parse_u64(s: Seq<char>) -> Option<u64> {
    let d = unsigned_digits(s);
    if d.len() > 0 && all_digits(d) && digits_value(d) <= u64::MAX {
        Some(digits_value(d) as u64)
    } else {
        None
    }
}

/// A longer run of digits denotes at least as much as its prefix.
proof fn lemma_digits_value_prefix(s: Seq<char>, i: int, j: int)
    requires
        0 <= i <= j <= s.len(),
        all_digits(s),
    ensures
        digits_value(s.take(i)) <= digits_value(s.take(j)),
    decreases j - i,
{
    if i < j {
        lemma_digits_value_prefix(s, i, j - 1);
        assert(s.take(j).drop_last() =~= s.take(j - 1));
        assert(s.take(j).last() == s[j - 1]);
    }
}

/// Parses a whole string as a `u64` in decimal, as `str::parse` does.
pub fn parse_u64(s: &str) -> (r: Option<u64>)
    ensures
        r == spec_parse_u64(s@),
{
    let cs = chars_of(s);
    let n = cs.len();
    let start: usize = if n > 0 && cs[0] == '+' { 1 } else { 0 };
    let ghost d = unsigned_digits(s@);
    assert(d =~= cs@.skip(start as int));
    if start >= n {
        return None;
    }
    let mut value: u64 = 0;
    let mut i: usize = start;
    while i < n
        invariant
            cs@ == s@,
            n == cs@.len(),
            start <= i <= n,
            d == cs@.skip(start as int),
            d == unsigned_digits(s@),
            all_digits(d.take(i - start)),
            value == digits_value(d.take(i - start)),
        decreases n - i,
    {
        let c = cs[i];
        let ghost k = (i - start) as int;
        assert(d[k] == c);
        if c < '0' || c > '9' {
            assert(!all_digits(d));
            return None;
        }
        let digit = (c as u32 - '0' as u32) as u64;
        assert(d.take(k + 1).drop_last() =~= d.take(k));
        assert(d.take(k + 1).last() == c);
        assert(digits_value(d.take(k + 1)) == value * 10 + digit);
        assert(all_digits(d.take(k + 1))) by {
            assert forall|j: int| 0 <= j < k + 1 implies '0' <= #[trigger] d.take(k + 1)[j] <= '9' by {
                if j < k {
                    assert(d.take(k + 1)[j] == d.take(k)[j]);
                }
            }
        }
        match value.checked_mul(10) {
            Some(tens) => match tens.checked_add(digit) {
                Some(next) => {
                    value = next;
                },
                None => {
                    proof {
                        if all_digits(d) {
                            assert(d.take(d.len() as int) =~= d);
                            lemma_digits_value_prefix(d, k + 1, d.len() as int);
                        }
                    }
                    return None;
                },
            },
            None => {
                proof {
                    if all_digits(d) {
                        assert(d.take(d.len() as int) =~= d);
                        lemma_digits_value_prefix(d, k + 1, d.len() as int);
                    }
                }
                return None;
            },
        }
        i = i + 1;
    }
    assert(d.take(n - start) =~= d);
    Some(value)
}

/// Whether a character has Unicode's White_Space property, as
/// `char::is_whitespace` tests it.
pub open spec fn spec_is_whitespace(c: char) -> bool {
    ||| ('\u{9}' <= c <= '\u{d}')
    ||| c == ' '
    ||| c == '\u{85}'
    ||| c == '\u{a0}'
    ||| c == '\u{1680}'
    ||| ('\u{2000}' <= c <= '\u{200a}')
    ||| c == '\u{2028}'
    ||| c == '\u{2029}'
    ||| c == '\u{202f}'
    ||| c == '\u{205f}'
    ||| c == '\u{3000}'
}

/// Whether a character is white space, as `char::is_whitespace` tells.
pub fn is_whitespace(c: char) -> (r: bool)
    ensures
        r == spec_is_whitespace(c),
{
    ('\u{9}' <= c && c <= '\u{d}') || c == ' ' || c == '\u{85}' || c == '\u{a0}' || c == '\u{1680}' || (
    '\u{2000}' <= c && c <= '\u{200a}') || c == '\u{2028}' || c == '\u{2029}' || c == '\u{202f}' || c
        == '\u{205f}' || c == '\u{3000}'
}

/// A text without its trailing white space.
pub open spec fn spec_trim_end(s: Seq<char>) -> Seq<char>
    decreases s.len(),
{
    if s.len() > 0 && spec_is_whitespace(s.last()) {
        spec_trim_end(s.drop_last())
    } else {
        s
    }
}

/// Trimming keeps a prefix that is empty or ends in a character other than
/// white space, and drops only white space.
proof fn lemma_trim_end(s: Seq<char>)
    ensures
        spec_trim_end(s).len() <= s.len(),
        spec_trim_end(s) == s.take(spec_trim_end(s).len() as int),
        spec_trim_end(s).len() == 0 || !spec_is_whitespace(spec_trim_end(s).last()),
        forall|i: int| spec_trim_end(s).len() <= i < s.len() ==> spec_is_whitespace(#[trigger] s[i]),
    decreases s.len(),
{
    if s.len() > 0 && spec_is_whitespace(s.last()) {
        let p = s.drop_last();
        lemma_trim_end(p);
        let t = spec_trim_end(p);
        assert(s.take(t.len() as int) =~= p.take(t.len() as int));
        assert forall|i: int| t.len() <= i < s.len() implies spec_is_whitespace(#[trigger] s[i]) by {
            if i < s.len() - 1 {
                assert(s[i] == p[i]);
            }
        }
    } else {
        assert(s.take(s.len() as int) =~= s);
    }
}

/// The text without its trailing white space, as `str::trim_end` gives it:
/// the longest prefix that is empty or ends in a character other than white
/// space, all that follows it being white space.
pub fn trim_end(s: &str) -> (r: String)
    ensures
        r@ == spec_trim_end(s@),
        r@ == s@.take(r@.len() as int),
        r@.len() == 0 || !spec_is_whitespace(r@.last()),
        forall|i: int| r@.len() <= i < s@.len() ==> spec_is_whitespace(#[trigger] s@[i]),
{
    proof {
        lemma_trim_end(s@);
    }
    let cs = chars_of(s);
    let mut end = cs.len();
    assert(s@.take(end as int) =~= s@);
    while end > 0 && is_whitespace(cs[end - 1])
        invariant
            cs@ == s@,
            end <= cs@.len(),
            spec_trim_end(s@) == spec_trim_end(s@.take(end as int)),
        decreases end,
    {
        assert(s@.take(end as int).drop_last() =~= s@.take(end - 1));
        end = end - 1;
    }
    assert(s@.subrange(0, end as int) =~= s@.take(end as int));
    s.substring_char(0, end).to_owned()
}

} // verus!
