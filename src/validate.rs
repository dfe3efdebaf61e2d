//! The text typed on the game screen: a range written `<digits>..<digits>`
//! and a guess written `<digits>`, both checked and read as numbers.

use vstd::prelude::*;

verus! {

/// An ASCII decimal digit.
pub open spec fn is_digit(c: char) -> bool {
    '0' <= c && c <= '9'
}

/// A non-empty run of ASCII decimal digits, and nothing else.
pub open spec fn all_digits(s: Seq<char>) -> bool {
    &&& s.len() > 0
    &&& forall|i: int| 0 <= i < s.len() ==> is_digit(#[trigger] s[i])
}

/// The value of one digit.
pub open spec fn digit_value(c: char) -> nat {
    (c as int - '0' as int) as nat
}

/// The number that a run of digits writes in base ten.
pub open spec fn number_value(s: Seq<char>) -> nat
    decreases s.len(),
{
    if s.len() == 0 {
        0
    } else {
        number_value(s.drop_last()) * 10 + digit_value(s.last())
    }
}

/// The text `a..b`.
pub open spec fn range_text(a: Seq<char>, b: Seq<char>) -> Seq<char> {
    a + seq!['.', '.'] + b
}

/// `s` is the range text whose bounds are written `a` and `b`.
pub open spec fn parses_as_range(s: Seq<char>, a: Seq<char>, b: Seq<char>) -> bool {
    &&& all_digits(a)
    &&& all_digits(b)
    &&& s == range_text(a, b)
}

/// The bounds `a`, `b` and the guess `g`, written as digits, are accepted:
/// every value fits in a `usize`, `a < b` and `a <= g <= b`.
pub open spec fn bounds_accepted(a: Seq<char>, b: Seq<char>, g: Seq<char>) -> bool {
    &&& all_digits(g)
    &&& number_value(b) <= usize::MAX
    &&& number_value(a) < number_value(b)
    &&& number_value(a) <= number_value(g)
    &&& number_value(g) <= number_value(b)
}

/// The typed range and guess are accepted.
pub open spec fn input_accepted(range: Seq<char>, guess: Seq<char>) -> bool {
    exists|a: Seq<char>, b: Seq<char>|
        #[trigger] parses_as_range(range, a, b) && bounds_accepted(a, b, guess)
}

/// The two bounds written in a range text, where it is one.
pub open spec fn range_bounds(s: Seq<char>) -> (Seq<char>, Seq<char>) {
    choose|a: Seq<char>, b: Seq<char>| parses_as_range(s, a, b)
}

/// A longer run of digits never has a smaller value than its prefix.
pub proof fn lemma_prefix_value_le(s: Seq<char>, k: int)
    requires
        0 <= k <= s.len(),
        forall|i: int| 0 <= i < s.len() ==> is_digit(#[trigger] s[i]),
    ensures
        number_value(s.take(k)) <= number_value(s),
    decreases s.len(),
{
    if k < s.len() {
        let t = s.drop_last();
        assert(t.take(k) =~= s.take(k));
        assert forall|i: int| 0 <= i < t.len() implies is_digit(#[trigger] t[i]) by {
            assert(t[i] == s[i]);
        }
        lemma_prefix_value_le(t, k);
    } else {
        assert(s.take(k) =~= s);
    }
}

/// Whether every character of `s[lo..hi]` is a digit.
fn digits_between(s: &Vec<char>, lo: usize, hi: usize) -> (r: bool)
    requires
        lo <= hi <= s.len(),
    ensures
        r == (forall|i: int| lo <= i < hi ==> is_digit(#[trigger] s@[i])),
{
    let mut i: usize = lo;
    while i < hi
        invariant
            lo <= i <= hi <= s.len(),
            forall|j: int| lo <= j < i ==> is_digit(#[trigger] s@[j]),
        decreases hi - i,
    {
        let c = s[i];
        if !('0' <= c && c <= '9') {
            return false;
        }
        i += 1;
    }
    true
}

/// The value of the digits `s[lo..hi]`, or `None` where it does not fit in a
/// `usize`.
fn digits_value(s: &Vec<char>, lo: usize, hi: usize) -> (r: Option<usize>)
    requires
        lo <= hi <= s.len(),
        forall|i: int| lo <= i < hi ==> is_digit(#[trigger] s@[i]),
    ensures
        number_value(s@.subrange(lo as int, hi as int)) <= usize::MAX ==> r == Some(
            number_value(s@.subrange(lo as int, hi as int)) as usize,
        ),
        number_value(s@.subrange(lo as int, hi as int)) > usize::MAX ==> r is None,
{
    let ghost whole = s@.subrange(lo as int, hi as int);
    let mut acc: usize = 0;
    let mut i: usize = lo;
    assert(s@.subrange(lo as int, lo as int) =~= Seq::<char>::empty());
    while i < hi
        invariant
            lo <= i <= hi <= s.len(),
            whole == s@.subrange(lo as int, hi as int),
            forall|j: int| lo <= j < hi ==> is_digit(#[trigger] s@[j]),
            acc as nat == number_value(s@.subrange(lo as int, i as int)),
        decreases hi - i,
    {
        let c = s[i];
        assert(is_digit(s@[i as int]));
        let d: usize = ((c as u32) - ('0' as u32)) as usize;
        let ghost next = s@.subrange(lo as int, i + 1);
        assert(next.drop_last() =~= s@.subrange(lo as int, i as int));
        assert(next.last() == c);
        assert(number_value(next) == acc * 10 + d);
        assert(whole.take(i + 1 - lo) =~= next);
        assert forall|j: int| 0 <= j < whole.len() implies is_digit(#[trigger] whole[j]) by {
            assert(whole[j] == s@[lo + j]);
        }
        proof {
            lemma_prefix_value_le(whole, i + 1 - lo);
        }
        if acc > (usize::MAX - d) / 10 {
            assert(acc * 10 + d > usize::MAX) by (nonlinear_arith)
                requires
                    acc > (usize::MAX - d) / 10,
                    d <= 9,
            ;
            return None;
        }
        assert(acc * 10 + d <= usize::MAX) by (nonlinear_arith)
            requires
                acc <= (usize::MAX - d) / 10,
                d <= 9,
        ;
        acc = acc * 10 + d;
        i += 1;
    }
    assert(s@.subrange(lo as int, i as int) =~= whole);
    Some(acc)
}


/// Where `s` is the range text of `a` and `b`, the first dot of `s` stands
/// right after `a`, so the two bounds are read back from that position.
proof fn lemma_range_split(s: Seq<char>, a: Seq<char>, b: Seq<char>, i: int)
    requires
        parses_as_range(s, a, b),
        0 <= i <= s.len(),
        forall|j: int| 0 <= j < i ==> #[trigger] s[j] != '.',
        i == s.len() || s[i] == '.',
    ensures
        i == a.len(),
        a == s.subrange(0, i),
        b == s.subrange(i + 2, s.len() as int),
{
    assert(s[a.len() as int] == '.');
    if i < a.len() {
        assert(s[i] == a[i]);
        assert(is_digit(a[i]));
    }
    assert(a =~= s.subrange(0, a.len() as int));
    assert(b =~= s.subrange(a.len() as int + 2, s.len() as int));
}

/// Reads the lower bound, the upper bound and the guess from accepted input,
/// and gives `None` for input that is not accepted.
pub fn read_input(range: &Vec<char>, guess: &Vec<char>) -> (r: Option<(usize, usize, usize)>)
    ensures
        r is Some <==> input_accepted(range@, guess@),
        r matches Some((lo, hi, g)) ==> {
            &&& lo as nat == number_value(range_bounds(range@).0)
            &&& hi as nat == number_value(range_bounds(range@).1)
            &&& g as nat == number_value(guess@)
            &&& lo < hi
            &&& lo <= g <= hi
        },
{
    let n = range.len();
    let mut i: usize = 0;
    while i < n && range[i] != '.'
        invariant
            0 <= i <= n == range.len(),
            forall|j: int| 0 <= j < i ==> #[trigger] range@[j] != '.',
        decreases n - i,
    {
        i += 1;
    }
    let ghost s = range@;
    if i == 0 || n - i <= 2 || range[i + 1] != '.' || !digits_between(range, 0, i)
        || !digits_between(range, i + 2, n) || guess.len() == 0 || !digits_between(
        guess,
        0,
        guess.len(),
    ) {
        assert forall|a: Seq<char>, b: Seq<char>|
            #[trigger] parses_as_range(s, a, b) implies !bounds_accepted(a, b, guess@) by {
            lemma_range_split(s, a, b, i as int);
            assert(s[i + 1] == '.');
            assert forall|j: int| 0 <= j < i implies is_digit(#[trigger] s[j]) by {
                assert(s[j] == a[j]);
            }
            assert forall|j: int| i + 2 <= j < n implies is_digit(#[trigger] s[j]) by {
                assert(s[j] == b[j - i - 2]);
            }
            if all_digits(guess@) {
                assert forall|j: int| 0 <= j < guess.len() implies is_digit(
                    #[trigger] guess@[j],
                ) by {}
            }
        }
        return None;
    }
    let ghost a = s.subrange(0, i as int);
    let ghost b = s.subrange(i + 2, n as int);
    assert(s =~= range_text(a, b));
    assert(parses_as_range(s, a, b));
    assert(guess@.subrange(0, guess.len() as int) =~= guess@);
    assert(range@.subrange(0, i as int) == a);
    let lo = digits_value(range, 0, i);
    let hi = digits_value(range, i + 2, n);
    let g = digits_value(guess, 0, guess.len());
    assert forall|a2: Seq<char>, b2: Seq<char>| #[trigger] parses_as_range(s, a2, b2) implies a2
        == a && b2 == b by {
        lemma_range_split(s, a2, b2, i as int);
    }
    match (lo, hi, g) {
        (Some(lo), Some(hi), Some(g)) => {
            if lo < hi && lo <= g && g <= hi {
                assert(bounds_accepted(a, b, guess@));
                let ghost ab = range_bounds(s);
                assert(parses_as_range(s, ab.0, ab.1));
                Some((lo, hi, g))
            } else {
                None
            }
        },
        _ => None,
    }
}

/// Decides whether the typed range and guess are accepted: the range is two
/// runs of digits around `..`, the guess is one run of digits, the lower
/// bound is strictly below the upper one, the guess lies between them
/// inclusively, and every number fits in a `usize`.
pub fn validate_input(range: &Vec<char>, guess: &Vec<char>) -> (r: bool)
    ensures
        r == input_accepted(range@, guess@),
{
    read_input(range, guess).is_some()
}

/// A range text `a..b` with a guess `g` is accepted exactly when the guess is
/// a run of digits, `a < b`, `a <= g <= b`, and `b` fits in a `usize`.
pub proof fn lemma_range_text_accepted(a: Seq<char>, b: Seq<char>, g: Seq<char>)
    requires
        all_digits(a),
        all_digits(b),
    ensures
        input_accepted(range_text(a, b), g) <==> bounds_accepted(a, b, g),
{
    let s = range_text(a, b);
    assert(parses_as_range(s, a, b));
    let i = a.len() as int;
    assert forall|j: int| 0 <= j < i implies #[trigger] s[j] != '.' by {
        assert(s[j] == a[j]);
        assert(is_digit(a[j]));
    }
    assert(s[i] == '.');
    assert forall|a2: Seq<char>, b2: Seq<char>| #[trigger] parses_as_range(s, a2, b2) implies a2
        == a && b2 == b by {
        lemma_range_split(s, a2, b2, i);
        assert(a =~= s.subrange(0, i));
        assert(b =~= s.subrange(i + 2, s.len() as int));
    }
}

/// A range text that is not two runs of digits around `..` is never accepted,
/// whatever the guess.
pub proof fn lemma_malformed_range_rejected(range: Seq<char>, guess: Seq<char>)
    requires
        forall|a: Seq<char>, b: Seq<char>| !#[trigger] parses_as_range(range, a, b),
    ensures
        !input_accepted(range, guess),
{
}

} // verus!
