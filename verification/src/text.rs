//! Verified helpers for assembling SQL text: joining pieces with a
//! separator, rendering integers as decimal digits, and substituting a
//! rendered value for the placeholder of a predicate template.

use vstd::prelude::*;

verus! {

/// The text obtained by placing `sep` between consecutive elements of
/// `pieces`; empty when `pieces` is empty.
pub open spec fn joined(pieces: Seq<Seq<char>>, sep: Seq<char>) -> Seq<char>
    decreases pieces.len(),
{
    if pieces.len() == 0 {
        Seq::empty()
    } else if pieces.len() == 1 {
        pieces[0]
    } else {
        joined(pieces.drop_last(), sep) + sep + pieces.last()
    }
}

/// Concatenates the strings of `items`, placing `sep` between consecutive
/// ones.
pub fn join_with(items: &Vec<String>, sep: &str) -> (r: String)
    ensures
        r@ == joined(items@.map_values(|s: String| s@), sep@),
{
    let ghost views = items@.map_values(|s: String| s@);
    let mut r = String::new();
    let mut i: usize = 0;
    while i < items.len()
        invariant
            i <= items.len(),
            views == items@.map_values(|s: String| s@),
            views.len() == items@.len(),
            r@ == joined(views.take(i as int), sep@),
        decreases items.len() - i,
    {
        if i > 0 {
            r.append(sep);
        }
        r.append(items[i].as_str());
        proof {
            assert(views.take(i + 1).drop_last() =~= views.take(i as int));
        }
        i = i + 1;
    }
    proof {
        assert(views.take(items@.len() as int) =~= views);
    }
    r
}

/// The decimal digit character for `d` (`0 <= d <= 9`).
pub open spec fn digit_char(d: nat) -> char {
    if d == 0 {
        '0'
    } else if d == 1 {
        '1'
    } else if d == 2 {
        '2'
    } else if d == 3 {
        '3'
    } else if d == 4 {
        '4'
    } else if d == 5 {
        '5'
    } else if d == 6 {
        '6'
    } else if d == 7 {
        '7'
    } else if d == 8 {
        '8'
    } else {
        '9'
    }
}

/// The decimal digits of `n`, most significant first, with no sign and no
/// leading zero (a single `'0'` for zero itself).
pub open spec fn dec_digits(n: nat) -> Seq<char>
    decreases n,
{
    if n < 10 {
        seq![digit_char(n)]
    } else {
        dec_digits(n / 10) + seq![digit_char(n % 10)]
    }
}

/// The decimal rendering of `v`: a minus sign for negative values, then
/// the digits of the absolute value.
pub open spec fn dec_int(v: int) -> Seq<char> {
    if v < 0 {
        seq!['-'] + dec_digits((-v) as nat)
    } else {
        dec_digits(v as nat)
    }
}

/// The one-character string for the decimal digit `d`.
fn digit_str(d: u64) -> (r: &'static str)
    requires
        d < 10,
    ensures
        r@ == seq![digit_char(d as nat)],
{
    if d == 0 {
        proof {
            reveal_strlit("0");
            assert("0"@ =~= seq![digit_char(d as nat)]);
        }
        "0"
    } else if d == 1 {
        proof {
            reveal_strlit("1");
            assert("1"@ =~= seq![digit_char(d as nat)]);
        }
        "1"
    } else if d == 2 {
        proof {
            reveal_strlit("2");
            assert("2"@ =~= seq![digit_char(d as nat)]);
        }
        "2"
    } else if d == 3 {
        proof {
            reveal_strlit("3");
            assert("3"@ =~= seq![digit_char(d as nat)]);
        }
        "3"
    } else if d == 4 {
        proof {
            reveal_strlit("4");
            assert("4"@ =~= seq![digit_char(d as nat)]);
        }
        "4"
    } else if d == 5 {
        proof {
            reveal_strlit("5");
            assert("5"@ =~= seq![digit_char(d as nat)]);
        }
        "5"
    } else if d == 6 {
        proof {
            reveal_strlit("6");
            assert("6"@ =~= seq![digit_char(d as nat)]);
        }
        "6"
    } else if d == 7 {
        proof {
            reveal_strlit("7");
            assert("7"@ =~= seq![digit_char(d as nat)]);
        }
        "7"
    } else if d == 8 {
        proof {
            reveal_strlit("8");
            assert("8"@ =~= seq![digit_char(d as nat)]);
        }
        "8"
    } else {
        proof {
            reveal_strlit("9");
            assert("9"@ =~= seq![digit_char(d as nat)]);
        }
        "9"
    }
}

/// Renders `n` as its decimal digits.
pub fn u64_to_dec(n: u64) -> (r: String)
    ensures
        r@ == dec_digits(n as nat),
    decreases n,
{
    if n < 10 {
        digit_str(n).to_owned()
    } else {
        let mut r = u64_to_dec(n / 10);
        r.append(digit_str(n % 10));
        proof {
            assert((n / 10) as nat == n as nat / 10);
            assert((n % 10) as nat == n as nat % 10);
        }
        r
    }
}

/// Renders `v` in decimal, with a leading minus sign when negative.
pub fn i64_to_dec(v: i64) -> (r: String)
    ensures
        r@ == dec_int(v as int),
{
    if v >= 0 {
        u64_to_dec(v as u64)
    } else {
        let m: u64 = (-(v as i128)) as u64;
        proof {
            assert(m == -(v as int));
        }
        let mut r = String::from_str("-");
        r.append(u64_to_dec(m).as_str());
        proof {
            reveal_strlit("-");
            assert(r@ =~= dec_int(v as int));
        }
        r
    }
}

/// Whether `a` and `b` hold the same characters.
pub fn str_eq(a: &str, b: &str) -> (r: bool)
    ensures
        r == (a@ == b@),
{
    let an = a.unicode_len();
    let bn = b.unicode_len();
    if an != bn {
        return false;
    }
    let mut i: usize = 0;
    while i < an
        invariant
            an == a@.len(),
            an == b@.len(),
            i <= an,
            forall|j: int| 0 <= j < i ==> a@[j] == b@[j],
        decreases an - i,
    {
        if a.get_char(i) != b.get_char(i) {
            return false;
        }
        i = i + 1;
    }
    proof {
        assert(a@ =~= b@);
    }
    true
}

/// Whether `c` is a decimal digit.
pub open spec fn is_digit(c: char) -> bool {
    '0' as int <= c as int <= '9' as int
}

/// The numeric value of the digit `c`.
pub open spec fn digit_val(c: char) -> nat {
    (c as int - '0' as int) as nat
}

/// Whether `t` consists of decimal digits only.
pub open spec fn all_digits(t: Seq<char>) -> bool {
    forall|i: int| 0 <= i < t.len() ==> is_digit(#[trigger] t[i])
}

/// The number the digit string `t` denotes, most significant digit
/// first; zero for the empty string.
pub open spec fn digits_val(t: Seq<char>) -> nat
    decreases t.len(),
{
    if t.len() == 0 {
        0
    } else {
        digits_val(t.drop_last()) * 10 + digit_val(t.last())
    }
}

/// The number `t` parses to as a `usize`: an optional leading `+`, then
/// one or more digits denoting a value that fits; `None` on any other
/// shape.
pub open spec fn parsed_usize(t: Seq<char>) -> Option<usize> {
    let body = if t.len() > 0 && t[0] == '+' {
        t.skip(1)
    } else {
        t
    };
    if body.len() > 0 && all_digits(body) && digits_val(body) <= usize::MAX {
        Some(digits_val(body) as usize)
    } else {
        None
    }
}

/// Reading one more digit multiplies the accumulated value by ten and
/// adds the digit.
proof fn lemma_digits_val_step(t: Seq<char>, k: int)
    requires
        0 <= k < t.len(),
    ensures
        digits_val(t.take(k + 1)) == digits_val(t.take(k)) * 10 + digit_val(t[k]),
{
    assert(t.take(k + 1).drop_last() =~= t.take(k));
    assert(t.take(k + 1).last() == t[k]);
}

/// A digit string denotes at least what any of its prefixes denotes.
proof fn lemma_digits_val_prefix(t: Seq<char>, k: int)
    requires
        0 <= k <= t.len(),
    ensures
        digits_val(t) >= digits_val(t.take(k)),
    decreases t.len() - k,
{
    if k == t.len() {
        assert(t.take(k) =~= t);
    } else {
        lemma_digits_val_step(t, k);
        lemma_digits_val_prefix(t, k + 1);
    }
}

/// Parses `s` as a decimal `usize`: an optional leading `+`, then one or
/// more digits; `None` on any other shape or when the value does not
/// fit.
pub fn parse_usize(s: &str) -> (r: Option<usize>)
    ensures
        r == parsed_usize(s@),
{
    let n = s.unicode_len();
    let mut start: usize = 0;
    if n > 0 && s.get_char(0) == '+' {
        start = 1;
    }
    let ghost body = if s@.len() > 0 && s@[0] == '+' {
        s@.skip(1)
    } else {
        s@
    };
    proof {
        assert(s@.skip(0) =~= s@);
        assert(body == s@.skip(start as int));
    }
    if start == n {
        return None;
    }
    let mut acc: usize = 0;
    let mut i: usize = start;
    while i < n
        invariant
            start <= i <= n,
            n == s@.len(),
            start <= 1,
            body == (if s@.len() > 0 && s@[0] == '+' {
                s@.skip(1)
            } else {
                s@
            }),
            body == s@.skip(start as int),
            body.len() == n - start,
            forall|j: int| 0 <= j < i - start ==> is_digit(#[trigger] body[j]),
            acc as nat == digits_val(body.take(i - start)),
        decreases n - i,
    {
        let c = s.get_char(i);
        let cv = c as u32;
        proof {
            assert(body[i - start] == s@[i as int]);
        }
        if cv < 48 || cv > 57 {
            proof {
                assert(!is_digit(body[i - start]));
            }
            return None;
        }
        let d = (cv - 48) as usize;
        proof {
            assert(d == digit_val(body[i - start]));
            lemma_digits_val_step(body, i - start);
        }
        if acc > (usize::MAX - d) / 10 {
            proof {
                assert(digits_val(body.take(i - start + 1)) > usize::MAX);
                lemma_digits_val_prefix(body, i - start + 1);
            }
            return None;
        }
        acc = acc * 10 + d;
        i = i + 1;
    }
    proof {
        assert(body.take(n - start) =~= body);
    }
    Some(acc)
}

/// Whether a `{}` placeholder begins at position `i` of `t`.
pub open spec fn placeholder_at(t: Seq<char>, i: int) -> bool {
    0 <= i && i + 2 <= t.len() && t[i] == '{' && t[i + 1] == '}'
}

/// `t` with `v` substituted for the leftmost `{}` placeholder, or `t`
/// itself when no placeholder occurs in it.
pub open spec fn substituted(t: Seq<char>, v: Seq<char>) -> Seq<char>
    decreases t.len(),
{
    if t.len() < 2 {
        t
    } else if t[0] == '{' && t[1] == '}' {
        v + t.skip(2)
    } else {
        seq![t[0]] + substituted(t.skip(1), v)
    }
}

/// When the leftmost placeholder of `t` sits at `i`, the substitution
/// splices `v` between the text before `i` and the text after the
/// placeholder.
proof fn lemma_substituted_at(t: Seq<char>, v: Seq<char>, i: int)
    requires
        placeholder_at(t, i),
        forall|j: int| 0 <= j < i ==> !placeholder_at(t, j),
    ensures
        substituted(t, v) == t.take(i) + v + t.skip(i + 2),
    decreases i,
{
    if i == 0 {
        assert(substituted(t, v) =~= t.take(0) + v + t.skip(2));
    } else {
        assert(!placeholder_at(t, 0));
        let rest = t.skip(1);
        assert(placeholder_at(rest, i - 1));
        assert(forall|j: int| 0 <= j < i - 1 ==> !placeholder_at(rest, j)) by {
            assert(forall|j: int| 0 <= j < i - 1 ==> placeholder_at(rest, j) ==> placeholder_at(
                t,
                j + 1,
            ));
        }
        lemma_substituted_at(rest, v, i - 1);
        assert(substituted(t, v) == seq![t[0]] + substituted(rest, v));
        assert(seq![t[0]] + (rest.take(i - 1) + v + rest.skip(i + 1)) =~= t.take(i) + v + t.skip(
            i + 2,
        ));
    }
}

/// When no placeholder occurs in `t`, the substitution leaves `t` as it
/// is.
proof fn lemma_substituted_none(t: Seq<char>, v: Seq<char>)
    requires
        forall|j: int| !placeholder_at(t, j),
    ensures
        substituted(t, v) == t,
    decreases t.len(),
{
    if t.len() < 2 {
    } else {
        assert(!placeholder_at(t, 0));
        let rest = t.skip(1);
        assert(forall|j: int| placeholder_at(rest, j) ==> placeholder_at(t, j + 1));
        lemma_substituted_none(rest, v);
        assert(seq![t[0]] + rest =~= t);
    }
}

/// Substitutes `value` for the leftmost `{}` placeholder of `template`;
/// hands the template back unchanged when it holds none.
pub fn substitute(template: &str, value: &str) -> (r: String)
    ensures
        r@ == substituted(template@, value@),
{
    let n = template.unicode_len();
    let mut i: usize = 0;
    while i + 1 < n
        invariant
            n == template@.len(),
            i == 0 || i < n,
            forall|j: int| 0 <= j < i ==> !placeholder_at(template@, j),
        decreases n - i,
    {
        if template.get_char(i) == '{' && template.get_char(i + 1) == '}' {
            let mut r = template.substring_char(0, i).to_owned();
            r.append(value);
            r.append(template.substring_char(i + 2, n));
            proof {
                lemma_substituted_at(template@, value@, i as int);
                assert(template@.subrange(0, i as int) == template@.take(i as int));
                assert(template@.subrange(i + 2, n as int) =~= template@.skip(i + 2));
            }
            return r;
        }
        i = i + 1;
    }
    proof {
        assert forall|j: int| !placeholder_at(template@, j) by {
            if 0 <= j && j + 2 <= template@.len() {
                assert(j < i);
            }
        }
        lemma_substituted_none(template@, value@);
    }
    template.to_owned()
}

} // verus!

