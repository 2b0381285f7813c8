use vstd::prelude::*;

verus! {

/// The character of the decimal digit `d`.
pub open spec fn digit_char(d: nat) -> char {
    if d == 0 {
        '0'
    } else if d == 1 {
        '1'
    } else if d == 2 {
        '2'
    } else if d == 3 {
        '3'
    } else if d == 4 {
        '4'
    } else if d == 5 {
        '5'
    } else if d == 6 {
        '6'
    } else if d == 7 {
        '7'
    } else if d == 8 {
        '8'
    } else {
        '9'
    }
}

/// The value of a decimal digit character.
pub open spec fn char_digit(c: char) -> nat {
    if c == '1' {
        1
    } else if c == '2' {
        2
    } else if c == '3' {
        3
    } else if c == '4' {
        4
    } else if c == '5' {
        5
    } else if c == '6' {
        6
    } else if c == '7' {
        7
    } else if c == '8' {
        8
    } else if c == '9' {
        9
    } else {
        0
    }
}

/// The decimal digits of `n`, most significant first, without leading zeros.
pub open spec fn digits_of(n: nat) -> Seq<char>
    decreases n,
{
    if n < 10 {
        seq![digit_char(n)]
    } else {
        digits_of(n / 10).push(digit_char(n % 10))
    }
}

/// `s` left-padded with zeros to at least `width` characters.
pub open spec fn zero_padded(s: Seq<char>, width: nat) -> Seq<char> {
    if s.len() >= width {
        s
    } else {
        Seq::new((width - s.len()) as nat, |i: int| '0') + s
    }
}

/// `amount` base units written as a decimal number with `decimals` fractional
/// digits and at least one integer digit; with no decimals, the plain integer.
pub open spec fn ui_amount(amount: nat, decimals: nat) -> Seq<char> {
    if decimals == 0 {
        digits_of(amount)
    } else {
        let p = zero_padded(digits_of(amount), decimals + 1);
        let k = p.len() - decimals;
        p.subrange(0, k) + seq!['.'] + p.subrange(k, p.len() as int)
    }
}

/// The integer that the digits of `s` spell, the decimal point skipped.
pub open spec fn digits_value(s: Seq<char>) -> nat
    decreases s.len(),
{
    if s.len() == 0 {
        0
    } else if s.last() == '.' {
        digits_value(s.drop_last())
    } else {
        digits_value(s.drop_last()) * 10 + char_digit(s.last())
    }
}

fn digit(d: u64) -> (c: char)
    requires
        d < 10,
    ensures
        c == digit_char(d as nat),
{
    if d == 0 {
        '0'
    } else if d == 1 {
        '1'
    } else if d == 2 {
        '2'
    } else if d == 3 {
        '3'
    } else if d == 4 {
        '4'
    } else if d == 5 {
        '5'
    } else if d == 6 {
        '6'
    } else if d == 7 {
        '7'
    } else if d == 8 {
        '8'
    } else {
        '9'
    }
}

/// The one-character text of a digit or of the decimal point.
fn char_text(c: char) -> (s: &'static str)
    requires
        c == '.' || exists|d: nat| d < 10 && c == digit_char(d),
    ensures
        s@ == seq![c],
{
    if c == '.' {
        proof {
            reveal_strlit(".");
        }
        "."
    } else if c == '0' {
        proof {
            reveal_strlit("0");
        }
        "0"
    } else if c == '1' {
        proof {
            reveal_strlit("1");
        }
        "1"
    } else if c == '2' {
        proof {
            reveal_strlit("2");
        }
        "2"
    } else if c == '3' {
        proof {
            reveal_strlit("3");
        }
        "3"
    } else if c == '4' {
        proof {
            reveal_strlit("4");
        }
        "4"
    } else if c == '5' {
        proof {
            reveal_strlit("5");
        }
        "5"
    } else if c == '6' {
        proof {
            reveal_strlit("6");
        }
        "6"
    } else if c == '7' {
        proof {
            reveal_strlit("7");
        }
        "7"
    } else if c == '8' {
        proof {
            reveal_strlit("8");
        }
        "8"
    } else {
        proof {
            reveal_strlit("9");
        }
        "9"
    }
}

/// Every character of a formatted amount is a digit or the decimal point.
pub open spec fn is_amount_char(c: char) -> bool {
    c == '.' || exists|d: nat| d < 10 && c == digit_char(d)
}

proof fn lemma_digits_of_chars(n: nat)
    ensures
        forall|i: int| 0 <= i < digits_of(n).len() ==> is_amount_char(#[trigger] digits_of(n)[i]),
        digits_of(n).len() >= 1,
    decreases n,
{
    if n >= 10 {
        lemma_digits_of_chars(n / 10);
        let m = (n % 10) as nat;
        assert(is_amount_char(digit_char(m)));
    } else {
        assert(is_amount_char(digit_char(n)));
    }
}

/// The decimal digits of `amount`.
fn decimal_digits(amount: u64) -> (r: Vec<char>)
    ensures
        r@ == digits_of(amount as nat),
{
    let mut n: u64 = amount;
    let mut tail: Vec<char> = Vec::new();
    while n >= 10
        invariant
            digits_of(amount as nat) == digits_of(n as nat) + tail@,
        decreases n,
    {
        let d = digit(n % 10);
        proof {
            assert(digits_of(n as nat) == digits_of((n / 10) as nat).push(d));
            assert(digits_of((n / 10) as nat) + tail@.insert(0, d) =~= digits_of(n as nat)
                + tail@);
        }
        tail.insert(0, d);
        n = n / 10;
    }
    let d = digit(n);
    tail.insert(0, d);
    assert(digits_of(n as nat) =~= seq![d]);
    assert(tail@ =~= digits_of(amount as nat));
    tail
}

/// Renders `amount` base units as a decimal number with exactly `decimals`
/// fractional digits, zero-padded so that the integer part is never empty
/// (5 with 9 decimals is `0.000000005`). With no decimals it is the plain
/// integer.
pub fn amount_to_ui_amount_string(amount: u64, decimals: u8) -> (r: String)
    ensures
        r@ == ui_amount(amount as nat, decimals as nat),
{
    let digits = decimal_digits(amount);
    let mut chars: Vec<char> = Vec::new();
    if decimals > 0 {
        let width: usize = decimals as usize + 1;
        let mut z: usize = 0;
        let zeros: usize = if digits.len() < width {
            width - digits.len()
        } else {
            0
        };
        while z < zeros
            invariant
                z <= zeros,
                chars@ == Seq::new(z as nat, |i: int| '0'),
            decreases zeros - z,
        {
            chars.push('0');
            z = z + 1;
            assert(chars@ =~= Seq::new(z as nat, |i: int| '0'));
        }
        let ghost padding = chars@;
        let mut i: usize = 0;
        while i < digits.len()
            invariant
                i <= digits@.len(),
                chars@ == padding + digits@.subrange(0, i as int),
            decreases digits@.len() - i,
        {
            chars.push(digits[i]);
            i = i + 1;
            assert(chars@ =~= padding + digits@.subrange(0, i as int));
        }
        assert(digits@.subrange(0, digits@.len() as int) =~= digits@);
        assert(chars@ =~= zero_padded(digits_of(amount as nat), decimals as nat + 1));
        let k: usize = chars.len() - decimals as usize;
        let ghost p = chars@;
        chars.insert(k, '.');
        assert(chars@ =~= p.subrange(0, k as int) + seq!['.'] + p.subrange(k as int, p.len() as int));
    } else {
        chars = digits;
    }
    let ghost text = chars@;
    proof {
        lemma_digits_of_chars(amount as nat);
        assert forall|i: int| 0 <= i < text.len() implies is_amount_char(#[trigger] text[i]) by {
            if decimals > 0 {
                let p = zero_padded(digits_of(amount as nat), decimals as nat + 1);
                let k = p.len() - decimals;
                if text[i] != '.' {
                    if i < k {
                        assert(text[i] == p[i]);
                    } else {
                        assert(text[i] == p[i - 1]);
                    }
                    if p.len() > digits_of(amount as nat).len() {
                        let z = p.len() - digits_of(amount as nat).len();
                        let j = if i < k { i } else { i - 1 };
                        if j >= z {
                            assert(p[j] == digits_of(amount as nat)[j - z]);
                        } else {
                            assert(is_amount_char(digit_char(0)));
                        }
                    }
                }
            }
        }
    }
    let mut r = String::new();
    let mut i: usize = 0;
    while i < chars.len()
        invariant
            i <= text.len(),
            chars@ == text,
            r@ == text.subrange(0, i as int),
            forall|j: int| 0 <= j < text.len() ==> is_amount_char(#[trigger] text[j]),
        decreases text.len() - i,
    {
        let s = char_text(chars[i]);
        r.append(s);
        i = i + 1;
        assert(r@ =~= text.subrange(0, i as int));
    }
    assert(text.subrange(0, text.len() as int) =~= text);
    r
}

proof fn lemma_value_of_digits(n: nat)
    ensures
        digits_value(digits_of(n)) == n,
    decreases n,
{
    let s = digits_of(n);
    if n < 10 {
        assert(s.drop_last() =~= Seq::<char>::empty());
        assert(char_digit(digit_char(n)) == n);
        assert(digits_value(s.drop_last()) == 0);
        assert(s.last() != '.');
        assert(digits_value(s) == n);
    } else {
        let q = n / 10;
        let d = (n % 10) as nat;
        lemma_value_of_digits(q);
        assert(s.drop_last() =~= digits_of(q));
        assert(s.last() == digit_char(d));
        assert(digit_char(d) != '.');
        assert(char_digit(digit_char(d)) == d);
        assert(digits_value(s) == q * 10 + d);
        assert(q * 10 + d == n) by (nonlinear_arith)
            requires
                q == n / 10,
                d == n % 10,
        ;
    }
}

proof fn lemma_value_of_zeros(k: nat)
    ensures
        digits_value(Seq::new(k, |i: int| '0')) == 0,
    decreases k,
{
    if k > 0 {
        lemma_value_of_zeros((k - 1) as nat);
        assert(Seq::new(k, |i: int| '0').drop_last() =~= Seq::new((k - 1) as nat, |i: int| '0'));
    }
}

proof fn lemma_value_skips_leading_zeros(k: nat, s: Seq<char>)
    ensures
        digits_value(Seq::new(k, |i: int| '0') + s) == digits_value(s),
    decreases s.len(),
{
    let z = Seq::new(k, |i: int| '0');
    if s.len() == 0 {
        assert(z + s =~= z);
        lemma_value_of_zeros(k);
    } else {
        lemma_value_skips_leading_zeros(k, s.drop_last());
        assert((z + s).drop_last() =~= z + s.drop_last());
    }
}

proof fn lemma_value_skips_point(a: Seq<char>, b: Seq<char>)
    ensures
        digits_value(a + seq!['.'] + b) == digits_value(a + b),
    decreases b.len(),
{
    if b.len() == 0 {
        assert(a + seq!['.'] + b =~= a.push('.'));
        assert(a.push('.').drop_last() =~= a);
        assert(a + b =~= a);
    } else {
        lemma_value_skips_point(a, b.drop_last());
        assert((a + seq!['.'] + b).drop_last() =~= a + seq!['.'] + b.drop_last());
        assert((a + b).drop_last() =~= a + b.drop_last());
    }
}

/// Reading the digits of a formatted amount back, the decimal point skipped,
/// gives the amount again, whatever the number of decimals.
pub proof fn lemma_ui_amount_round_trip(amount: u64, decimals: u8)
    ensures
        digits_value(ui_amount(amount as nat, decimals as nat)) == amount,
{
    let d = digits_of(amount as nat);
    lemma_value_of_digits(amount as nat);
    if decimals > 0 {
        let p = zero_padded(d, decimals as nat + 1);
        let k = p.len() - decimals;
        if d.len() < decimals as nat + 1 {
            lemma_value_skips_leading_zeros((decimals as nat + 1 - d.len()) as nat, d);
        }
        lemma_value_skips_point(p.subrange(0, k), p.subrange(k, p.len() as int));
        assert(p.subrange(0, k) + p.subrange(k, p.len() as int) =~= p);
    }
}

} // verus!
