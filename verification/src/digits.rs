//! Decimal rendering and parsing of unsigned integers, used by the Ollama
//! context codec: the context travels through the environment as a
//! space-separated list of decimal numbers.

use vstd::prelude::*;

verus! {

/// `c` is a decimal digit.
pub open spec fn is_digit(c: char) -> bool {
    c == '0' || c == '1' || c == '2' || c == '3' || c == '4' || c == '5' || c == '6' || c == '7'
        || c == '8' || c == '9'
}

/// The value of a decimal digit; characters that are not digits count as 0.
pub open spec fn digit_val(c: char) -> nat {
    if c == '0' {
        0
    } else if c == '1' {
        1
    } else if c == '2' {
        2
    } else if c == '3' {
        3
    } else if c == '4' {
        4
    } else if c == '5' {
        5
    } else if c == '6' {
        6
    } else if c == '7' {
        7
    } else if c == '8' {
        8
    } else if c == '9' {
        9
    } else {
        0
    }
}

/// The decimal digit for a value below ten; other values give '0'.
pub open spec fn digit_char(d: nat) -> char {
    if d == 1 {
        '1'
    } else if d == 2 {
        '2'
    } else if d == 3 {
        '3'
    } else if d == 4 {
        '4'
    } else if d == 5 {
        '5'
    } else if d == 6 {
        '6'
    } else if d == 7 {
        '7'
    } else if d == 8 {
        '8'
    } else if d == 9 {
        '9'
    } else {
        '0'
    }
}

/// Every character of `s` is a decimal digit.
pub open spec fn all_digits(s: Seq<char>) -> bool {
    forall|k: int| 0 <= k < s.len() ==> is_digit(#[trigger] s[k])
}

/// The value of `s` read as a decimal number, most significant digit first.
pub open spec fn dec_val(s: Seq<char>) -> nat
    decreases s.len()
{
    if s.len() == 0 {
        0
    } else {
        dec_val(s.drop_last()) * 10 + digit_val(s.last())
    }
}

/// The decimal rendering of `n`, without sign or leading zeros.
pub open spec fn u2dec(n: nat) -> Seq<char>
    decreases n
{
    if n < 10 {
        seq![digit_char(n)]
    } else {
        u2dec(n / 10).push(digit_char(n % 10))
    }
}

/// `t` is a well-formed decimal token that fits the machine word: an
/// optional leading `+`, then at least one digit, with a value at most
/// `usize::MAX` — exactly the tokens the standard unsigned parser
/// accepts.
pub open spec fn token_fits(t: Seq<char>) -> bool {
    if t.len() >= 1 && t[0] == '+' {
        t.len() >= 2 && all_digits(t.skip(1)) && dec_val(t.skip(1)) <= usize::MAX
    } else {
        t.len() >= 1 && all_digits(t) && dec_val(t) <= usize::MAX
    }
}

/// The value of one token, leading `+` allowed.
pub open spec fn token_val(t: Seq<char>) -> nat {
    if t.len() >= 1 && t[0] == '+' {
        dec_val(t.skip(1))
    } else {
        dec_val(t)
    }
}

/// Reading back the decimal rendering of `n` gives `n`.
pub proof fn lemma_dec_val_u2dec(n: nat)
    ensures
        dec_val(u2dec(n)) == n,
    decreases n
{
    if n < 10 {
        assert(u2dec(n) =~= seq![digit_char(n)]);
        assert(u2dec(n).drop_last() =~= Seq::<char>::empty());
        assert(digit_val(digit_char(n)) == n);
        assert(dec_val(Seq::<char>::empty()) == 0);
        assert(u2dec(n).last() == digit_char(n));
        assert(dec_val(u2dec(n)) == dec_val(u2dec(n).drop_last()) * 10 + digit_val(u2dec(n).last()));
    } else {
        lemma_dec_val_u2dec(n / 10);
        assert(u2dec(n).drop_last() =~= u2dec(n / 10));
        assert(u2dec(n).last() == digit_char(n % 10));
        assert(digit_val(digit_char(n % 10)) == n % 10);
        assert(dec_val(u2dec(n)) == (n / 10) * 10 + n % 10);
        assert(n == (n / 10) * 10 + n % 10);
    }
}

/// The decimal rendering is non-empty and made of digits only.
pub proof fn lemma_u2dec_digits(n: nat)
    ensures
        u2dec(n).len() >= 1,
        all_digits(u2dec(n)),
    decreases n
{
    if n < 10 {
    } else {
        lemma_u2dec_digits(n / 10);
        assert forall|k: int| 0 <= k < u2dec(n).len() implies is_digit(#[trigger] u2dec(n)[k]) by {
            if k < u2dec(n / 10).len() {
                assert(u2dec(n)[k] == u2dec(n / 10)[k]);
            }
        }
    }
}

/// For digit strings, the value of a prefix never exceeds the value of the
/// whole string.
pub proof fn lemma_dec_val_prefix(s: Seq<char>, k: int)
    requires
        0 <= k <= s.len(),
    ensures
        dec_val(s.take(k)) <= dec_val(s),
    decreases s.len() - k
{
    if k == s.len() {
        assert(s.take(k) =~= s);
    } else {
        lemma_dec_val_prefix(s, k + 1);
        assert(s.take(k + 1).drop_last() =~= s.take(k));
        assert(dec_val(s.take(k + 1)) == dec_val(s.take(k)) * 10 + digit_val(s.take(k + 1).last()));
        assert(dec_val(s.take(k)) * 10 >= dec_val(s.take(k))) by (nonlinear_arith);
    }
}

/// The digit character for a value below ten.
pub fn digit_to_char(d: usize) -> (r: char)
    requires
        d < 10,
    ensures
        r == digit_char(d as nat),
{
    if d == 1 {
        '1'
    } else if d == 2 {
        '2'
    } else if d == 3 {
        '3'
    } else if d == 4 {
        '4'
    } else if d == 5 {
        '5'
    } else if d == 6 {
        '6'
    } else if d == 7 {
        '7'
    } else if d == 8 {
        '8'
    } else if d == 9 {
        '9'
    } else {
        '0'
    }
}

/// Whether `c` is a decimal digit, and its value if so.
pub fn char_digit_val(c: char) -> (r: Option<usize>)
    ensures
        is_digit(c) ==> (r matches Some(d) && d < 10 && d as nat == digit_val(c)),
        !is_digit(c) ==> r is None,
{
    if c == '0' {
        Some(0)
    } else if c == '1' {
        Some(1)
    } else if c == '2' {
        Some(2)
    } else if c == '3' {
        Some(3)
    } else if c == '4' {
        Some(4)
    } else if c == '5' {
        Some(5)
    } else if c == '6' {
        Some(6)
    } else if c == '7' {
        Some(7)
    } else if c == '8' {
        Some(8)
    } else if c == '9' {
        Some(9)
    } else {
        None
    }
}

/// The decimal rendering of `n` as a string.
pub fn usize_to_dec(n: usize) -> (r: String)
    ensures
        r@ == u2dec(n as nat),
{
    let mut digs: Vec<char> = Vec::new();
    digs.push(digit_to_char(n % 10));
    let mut m: usize = n / 10;
    proof {
        lemma_reverse_single(digit_char((n % 10) as nat));
        if n >= 10 {
            assert(u2dec(n as nat) == u2dec((n / 10) as nat).push(digit_char((n % 10) as nat)));
            assert(u2dec(n as nat) =~= u2dec((n / 10) as nat) + digs@.reverse());
        } else {
            assert(u2dec(n as nat) =~= digs@.reverse());
        }
    }
    while m > 0
        invariant
            m > 0 ==> u2dec(n as nat) == u2dec(m as nat) + digs@.reverse(),
            m == 0 ==> u2dec(n as nat) == digs@.reverse(),
        decreases m,
    {
        let ghost old_digs = digs@;
        let d = m % 10;
        digs.push(digit_to_char(d));
        proof {
            lemma_reverse_push(old_digs, digit_char(d as nat));
            if m >= 10 {
                assert(u2dec(m as nat) == u2dec((m / 10) as nat).push(digit_char(d as nat)));
                assert(u2dec(m as nat) + old_digs.reverse() =~= u2dec((m / 10) as nat) + digs@.reverse());
            } else {
                assert(u2dec(m as nat) =~= seq![digit_char(d as nat)]);
                assert(u2dec(m as nat) + old_digs.reverse() =~= digs@.reverse());
            }
        }
        m = m / 10;
    }
    let mut r = String::new();
    let len = digs.len();
    let mut i: usize = len;
    while i > 0
        invariant
            len == digs@.len(),
            i <= len,
            r@.len() == len - i,
            forall|k: int| 0 <= k < r@.len() ==> r@[k] == digs@[len - 1 - k],
        decreases i,
    {
        i = i - 1;
        crate::textutil::push_char(&mut r, digs[i]);
    }
    proof {
        assert(r@ =~= digs@.reverse());
    }
    r
}

proof fn lemma_reverse_single(c: char)
    ensures
        seq![c].reverse() =~= seq![c],
{
}

proof fn lemma_reverse_push(s: Seq<char>, c: char)
    ensures
        s.push(c).reverse() =~= seq![c] + s.reverse(),
{
    assert forall|k: int| 0 <= k < s.push(c).reverse().len() implies s.push(c).reverse()[k] == (seq![c]
        + s.reverse())[k] by {
        if k == 0 {
            assert(s.push(c).reverse()[0] == s.push(c)[s.len() as int]);
        } else {
            assert(s.push(c).reverse()[k] == s.push(c)[s.len() - k]);
            assert((seq![c] + s.reverse())[k] == s.reverse()[k - 1]);
            assert(s.reverse()[k - 1] == s[s.len() - k]);
        }
    }
}

/// The value `acc * 10 + d` would not fit in `usize`.
pub fn dec_step_overflows(acc: usize, d: usize) -> (r: bool)
    requires
        d < 10,
    ensures
        r == (acc * 10 + d > usize::MAX),
{
    let r = acc > (usize::MAX - d) / 10;
    proof {
        lemma_dec_step_overflow(acc as nat, d as nat);
    }
    r
}

proof fn lemma_dec_step_overflow(acc: nat, d: nat)
    requires
        acc <= usize::MAX,
        d < 10,
    ensures
        (acc > ((usize::MAX - d) as nat) / 10) == (acc * 10 + d > usize::MAX),
{
    let x = (usize::MAX - d) as nat;
    let b = x / 10;
    assert(x == 10 * (x / 10) + x % 10);
    assert(x % 10 < 10);
    if acc > b {
        assert(acc * 10 >= (b + 1) * 10) by (nonlinear_arith)
            requires
                acc >= b + 1,
        ;
    } else {
        assert(acc * 10 <= b * 10) by (nonlinear_arith)
            requires
                acc <= b,
        ;
    }
}

} // verus!
