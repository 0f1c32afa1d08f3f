//! Unsigned numbers in decimal: reading them as `str::parse` does, and writing them.
use vstd::prelude::*;
use vstd::string::*;
use crate::text::{chars_of, opt_str};

verus! {

broadcast use vstd::string::group_string_axioms;

/// `c` is one of `0` to `9`.
pub open spec fn is_digit(c: char) -> bool {
    '0' <= c <= '9'
}

/// The digit `d`, for `d` under ten.
pub open spec fn digit(d: nat) -> char {
    (48 + d) as char
}

/// The number that a run of digits stands for.
pub open spec fn digits_value(s: Seq<char>) -> nat
    decreases s.len(),
{
    if s.len() == 0 {
        0
    } else {
        10 * digits_value(s.drop_last()) + (s.last() as nat - 48) as nat
    }
}

/// `s` after a leading `+`, if it has one.
pub open spec fn after_plus(s: Seq<char>) -> Seq<char> {
    if s.len() > 0 && s[0] == '+' {
        s.drop_first()
    } else {
        s
    }
}

/// What `s` reads as: at least one digit after an optional `+`, and nothing else,
/// with a value of at most `max`.
pub open spec fn parsed(s: Seq<char>, max: nat) -> Option<nat> {
    let d = after_plus(s);
    if d.len() > 0 && (forall|k: int| 0 <= k < d.len() ==> is_digit(#[trigger] d[k]))
        && digits_value(d) <= max {
        Some(digits_value(d))
    } else {
        None
    }
}

/// The number that the text reads as, or `default` where it reads as none.
pub open spec fn number_or(text: Option<Seq<char>>, max: nat, default: nat) -> nat {
    match text {
        Some(t) => match parsed(t, max) {
            Some(n) => n,
            None => default,
        },
        None => default,
    }
}

/// `n` in decimal, without leading zeros.
pub open spec fn decimal(n: nat) -> Seq<char>
    decreases n,
{
    if n < 10 {
        seq![digit(n)]
    } else {
        decimal(n / 10).push(digit(n % 10))
    }
}

proof fn lemma_prefix_value_is_smaller(s: Seq<char>, k: int)
    requires
        0 <= k <= s.len(),
        forall|j: int| 0 <= j < s.len() ==> is_digit(#[trigger] s[j]),
    ensures
        digits_value(s.take(k)) <= digits_value(s),
    decreases s.len(),
{
    if k < s.len() {
        lemma_prefix_value_is_smaller(s.drop_last(), k);
        assert(s.drop_last().take(k) =~= s.take(k));
    } else {
        assert(s.take(k) =~= s);
    }
}

/// Reads `s` as an unsigned decimal number of at most `max`.
pub fn parse_unsigned(s: &str, max: u64) -> (r: Option<u64>)
    ensures
        r is Some == parsed(s@, max as nat) is Some,
        r matches Some(n) ==> parsed(s@, max as nat) == Some(n as nat),
        r matches Some(n) ==> n <= max,
{
    let cs = chars_of(s);
    let mut i: usize = 0;
    if cs.len() > 0 && cs[0] == '+' {
        i = 1;
    }
    let ghost d = after_plus(s@);
    let ghost start = i as int;
    assert(d =~= s@.skip(start));
    if i == cs.len() {
        return None;
    }
    let mut n: u64 = 0;
    while i < cs.len()
        invariant
            cs@ == s@,
            0 <= start <= i <= cs.len(),
            d == after_plus(s@),
            d == s@.skip(start),
            d.len() > 0,
            forall|k: int| 0 <= k < i - start ==> is_digit(#[trigger] d[k]),
            n == digits_value(d.take(i - start)),
            n <= max,
        decreases cs.len() - i,
    {
        let c = cs[i];
        assert(d[i - start] == c);
        if c < '0' || c > '9' {
            return None;
        }
        let v: u64 = c as u64 - 48;
        proof {
            assert(d.take(i + 1 - start).drop_last() =~= d.take(i - start));
            assert(digits_value(d.take(i + 1 - start)) == 10 * n + v);
            if forall|k: int| 0 <= k < d.len() ==> is_digit(#[trigger] d[k]) {
                lemma_prefix_value_is_smaller(d, i + 1 - start);
            }
        }
        if v > max || n > (max - v) / 10 {
            return None;
        }
        n = n * 10 + v;
        i += 1;
    }
    assert(d.take(i - start) =~= d);
    Some(n)
}

/// The number that the text reads as, or `default` where it reads as none.
pub fn parse_or(text: Option<&str>, max: u64, default: u64) -> (r: u64)
    ensures
        r == number_or(opt_str(text), max as nat, default as nat),
        text is None ==> r == default,
        text matches Some(t) ==> r == (match parsed(t@, max as nat) {
            Some(n) => n,
            None => default as nat,
        }),
{
    match text {
        Some(t) => match parse_unsigned(t, max) {
            Some(n) => n,
            None => default,
        },
        None => default,
    }
}

fn digit_text(d: u64) -> (r: &'static str)
    requires
        d < 10,
    ensures
        r@ == seq![digit(d as nat)],
{
    proof {
        reveal_strlit("0");
        reveal_strlit("1");
        reveal_strlit("2");
        reveal_strlit("3");
        reveal_strlit("4");
        reveal_strlit("5");
        reveal_strlit("6");
        reveal_strlit("7");
        reveal_strlit("8");
        reveal_strlit("9");
    }
    if d == 0 {
        assert("0"@ =~= seq![digit(0)]);
        "0"
    } else if d == 1 {
        assert("1"@ =~= seq![digit(1)]);
        "1"
    } else if d == 2 {
        assert("2"@ =~= seq![digit(2)]);
        "2"
    } else if d == 3 {
        assert("3"@ =~= seq![digit(3)]);
        "3"
    } else if d == 4 {
        assert("4"@ =~= seq![digit(4)]);
        "4"
    } else if d == 5 {
        assert("5"@ =~= seq![digit(5)]);
        "5"
    } else if d == 6 {
        assert("6"@ =~= seq![digit(6)]);
        "6"
    } else if d == 7 {
        assert("7"@ =~= seq![digit(7)]);
        "7"
    } else if d == 8 {
        assert("8"@ =~= seq![digit(8)]);
        "8"
    } else {
        assert("9"@ =~= seq![digit(9)]);
        "9"
    }
}

/// Writes `n` in decimal.
pub fn decimal_text(n: u64) -> (r: String)
    ensures
        r@ == decimal(n as nat),
    decreases n,
{
    if n < 10 {
        digit_text(n).to_owned()
    } else {
        let head = decimal_text(n / 10);
        let r = head.concat(digit_text(n % 10));
        assert(r@ =~= decimal(n as nat));
        r
    }
}

proof fn lemma_decimal_digits(n: nat)
    ensures
        decimal(n).len() > 0,
        forall|k: int| 0 <= k < decimal(n).len() ==> is_digit(#[trigger] decimal(n)[k]),
        digits_value(decimal(n)) == n,
    decreases n,
{
    if n < 10 {
        assert(decimal(n).drop_last() =~= Seq::<char>::empty());
        assert(digits_value(Seq::<char>::empty()) == 0);
    } else {
        lemma_decimal_digits(n / 10);
        assert(decimal(n).drop_last() =~= decimal(n / 10));
    }
}

/// Reading a number that was written in decimal gives the number back.
pub proof fn law_written_number_reads_back(n: nat, max: nat)
    requires
        n <= max,
    ensures
        parsed(decimal(n), max) == Some(n),
{
    lemma_decimal_digits(n);
    assert(is_digit(decimal(n)[0]));
}

/// What is read is a number of at most `max`, written with at least one of the digits 0
/// to 9 and nothing else but a `+` before them; and each text of that form is read.
pub proof fn law_only_digits_are_read(s: Seq<char>, max: nat)
    ensures
        parsed(s, max) matches Some(n) ==> n <= max,
        parsed(s, max) is Some ==> s.len() > 0 && (forall|k: int|
            0 < k < s.len() ==> '0' <= #[trigger] s[k] <= '9') && ('0' <= s[0] <= '9' || (s[0]
            == '+' && s.len() > 1)),
        s.len() > 0 && (forall|k: int| 0 <= k < s.len() ==> '0' <= #[trigger] s[k] <= '9') ==> (
        parsed(s, max) is Some <==> exists|n: nat|
            n <= max && #[trigger] parsed(s, n) == Some(n)),
        s.len() == 0 || s[0] != '+' ==> parsed(seq!['+'] + s, max) == parsed(s, max),
{
    let d = after_plus(s);
    if parsed(s, max) is Some {
        assert(is_digit(d[0]));
        if s[0] == '+' {
            assert(d =~= s.drop_first());
            assert forall|k: int| 0 < k < s.len() implies '0' <= #[trigger] s[k] <= '9' by {
                assert(is_digit(d[k - 1]));
            }
        } else {
            assert forall|k: int| 0 < k < s.len() implies '0' <= #[trigger] s[k] <= '9' by {
                assert(is_digit(d[k]));
            }
        }
    }
    if s.len() > 0 && (forall|k: int| 0 <= k < s.len() ==> '0' <= #[trigger] s[k] <= '9') {
        assert('0' <= s[0] <= '9');
        assert(d == s);
        assert forall|k: int| 0 <= k < d.len() implies is_digit(#[trigger] d[k]) by {
            assert('0' <= s[k] <= '9');
        }
        assert(parsed(s, digits_value(s)) == Some(digits_value(s)));
    }
    if s.len() == 0 || s[0] != '+' {
        assert((seq!['+'] + s).drop_first() =~= s);
    }
}

/// Reading goes digit by digit: one digit is read as its number, and a further digit
/// makes ten times the number before it and that digit, as long as that is at most
/// `max`.
pub proof fn law_digits_are_read_in_order(s: Seq<char>, n: nat, c: char, max: nat)
    requires
        '0' <= c <= '9',
    ensures
        parsed(seq![c], max) == (if c as nat - '0' as nat <= max {
            Some((c as nat - '0' as nat) as nat)
        } else {
            None
        }),
        parsed(s, n) == Some(n) ==> parsed(s.push(c), max) == (if 10 * n + (c as nat - '0' as nat)
            <= max {
            Some((10 * n + (c as nat - '0' as nat)) as nat)
        } else {
            None
        }),
{
    let one = seq![c];
    assert(one.drop_last() =~= Seq::<char>::empty());
    assert(digits_value(Seq::<char>::empty()) == 0);
    assert(is_digit(one[0]));
    assert(after_plus(one) == one);
    if parsed(s, n) == Some(n) {
        let d = after_plus(s);
        let more = s.push(c);
        assert(is_digit(d[0]));
        assert(after_plus(more) =~= d.push(c));
        assert(d.push(c).drop_last() =~= d);
        assert forall|k: int| 0 <= k < d.push(c).len() implies is_digit(
            #[trigger] d.push(c)[k],
        ) by {
            if k < d.len() {
                assert(is_digit(d[k]));
            }
        }
    }
}

/// A number is written digit by digit, without leading zeros.
pub proof fn law_numbers_are_written_in_order(n: nat, d: nat)
    requires
        d < 10,
    ensures
        decimal(d) == seq![('0' as nat + d) as char],
        n > 0 ==> decimal(10 * n + d) == decimal(n).push(('0' as nat + d) as char),
        n > 0 ==> decimal(n)[0] != '0',
    decreases n,
{
    if n > 0 {
        assert((10 * n + d) / 10 == n);
        assert((10 * n + d) % 10 == d);
        if n >= 10 {
            law_numbers_are_written_in_order(n / 10, d);
            lemma_decimal_digits(n / 10);
        }
    }
}

/// A text that reads as a number stands for it, and for every other one, and for no
/// text at all, the default stands.
pub proof fn law_the_default_stands_in(text: Seq<char>, max: nat, default: nat)
    ensures
        number_or(None, max, default) == default,
        parsed(text, max) is None ==> number_or(Some(text), max, default) == default,
        parsed(text, max) matches Some(n) ==> number_or(Some(text), max, default) == n,
{
}

} // verus!
