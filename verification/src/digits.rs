use vstd::prelude::*;
use vstd::string::StringExecFns;

verus! {

/// The character for one decimal digit value.
pub open spec fn digit_char(d: int) -> char {
    if d == 0 {
        '0'
    } else if d == 1 {
        '1'
    } else if d == 2 {
        '2'
    } else if d == 3 {
        '3'
    } else if d == 4 {
        '4'
    } else if d == 5 {
        '5'
    } else if d == 6 {
        '6'
    } else if d == 7 {
        '7'
    } else if d == 8 {
        '8'
    } else {
        '9'
    }
}

pub open spec fn is_digit(c: char) -> bool {
    '0' <= c && c <= '9'
}

/// Decimal digits of `n`, most significant first: minimal, so no leading
/// zeros except for the value `0`, which renders as `"0"`.
pub open spec fn dec_digits(n: nat) -> Seq<char>
    decreases n,
{
    if n < 10 {
        seq![digit_char(n as int)]
    } else {
        dec_digits(n / 10).push(digit_char((n % 10) as int))
    }
}

/// Two zero-padded decimal digits of `n < 100`.
pub open spec fn two_digits(n: int) -> Seq<char> {
    seq![digit_char(n / 10), digit_char(n % 10)]
}

pub proof fn lemma_dec_digits_wf(n: nat)
    ensures
        dec_digits(n).len() >= 1,
        forall|k: int| 0 <= k < dec_digits(n).len() ==> is_digit(#[trigger] dec_digits(n)[k]),
        dec_digits(n)[0] == '0' <==> n == 0,
    decreases n,
{
    if n >= 10 {
        lemma_dec_digits_wf(n / 10);
        assert(n / 10 >= 1) by (nonlinear_arith)
            requires n >= 10;
    }
}

/// Renders one digit value as its one-character string.
pub fn digit_str(d: u128) -> (r: &'static str)
    requires
        d <= 9,
    ensures
        r@ == seq![digit_char(d as int)],
{
    if d == 0 {
        proof { reveal_strlit("0"); assert("0"@ =~= seq![digit_char(0int)]); }
        "0"
    } else if d == 1 {
        proof { reveal_strlit("1"); assert("1"@ =~= seq![digit_char(1int)]); }
        "1"
    } else if d == 2 {
        proof { reveal_strlit("2"); assert("2"@ =~= seq![digit_char(2int)]); }
        "2"
    } else if d == 3 {
        proof { reveal_strlit("3"); assert("3"@ =~= seq![digit_char(3int)]); }
        "3"
    } else if d == 4 {
        proof { reveal_strlit("4"); assert("4"@ =~= seq![digit_char(4int)]); }
        "4"
    } else if d == 5 {
        proof { reveal_strlit("5"); assert("5"@ =~= seq![digit_char(5int)]); }
        "5"
    } else if d == 6 {
        proof { reveal_strlit("6"); assert("6"@ =~= seq![digit_char(6int)]); }
        "6"
    } else if d == 7 {
        proof { reveal_strlit("7"); assert("7"@ =~= seq![digit_char(7int)]); }
        "7"
    } else if d == 8 {
        proof { reveal_strlit("8"); assert("8"@ =~= seq![digit_char(8int)]); }
        "8"
    } else {
        proof { reveal_strlit("9"); assert("9"@ =~= seq![digit_char(9int)]); }
        "9"
    }
}

/// The digits of a sequence of digit values, least significant first,
/// read back most significant first.
pub open spec fn chars_rev(rev: Seq<u128>) -> Seq<char> {
    Seq::new(rev.len(), |i: int| digit_char(rev[rev.len() - 1 - i] as int))
}

/// Appends the minimal decimal rendering of `n` to `out`.
pub fn append_decimal(out: &mut String, n: u128)
    ensures
        final(out)@ == old(out)@ + dec_digits(n as nat),
{
    let mut rev: Vec<u128> = Vec::new();
    let mut m: u128 = n;
    rev.push(m % 10);
    m = m / 10;
    proof {
        assert(n < 10 ==> m == 0 && n % 10 == n) by (nonlinear_arith)
            requires m == n / 10;
        assert(dec_digits(n as nat) =~= if m == 0 {
            chars_rev(rev@)
        } else {
            dec_digits(m as nat) + chars_rev(rev@)
        });
    }
    while m > 0
        invariant
            rev@.len() >= 1,
            forall|k: int| 0 <= k < rev@.len() ==> #[trigger] rev@[k] <= 9,
            m == 0 ==> dec_digits(n as nat) =~= chars_rev(rev@),
            m > 0 ==> dec_digits(n as nat) =~= dec_digits(m as nat) + chars_rev(rev@),
        decreases m,
    {
        let d = m % 10;
        let m2 = m / 10;
        proof {
            assert(m2 < m && d <= 9) by (nonlinear_arith)
                requires m > 0 && d == m % 10 && m2 == m / 10;
            assert(m < 10 ==> m2 == 0 && d == m) by (nonlinear_arith)
                requires m2 == m / 10 && d == m % 10;
            assert(dec_digits(m as nat) =~= if m2 == 0 {
                seq![digit_char(d as int)]
            } else {
                dec_digits(m2 as nat) + seq![digit_char(d as int)]
            });
            assert(chars_rev(rev@.push(d)) =~= seq![digit_char(d as int)] + chars_rev(rev@));
            assert(m2 == 0 ==> dec_digits(n as nat) =~= chars_rev(rev@.push(d)));
            assert(m2 > 0 ==> dec_digits(n as nat) =~= dec_digits(m2 as nat) + chars_rev(
                rev@.push(d),
            ));
        }
        rev.push(d);
        m = m2;
    }
    let ghost pre = out@;
    let mut i: usize = rev.len();
    while i > 0
        invariant
            i <= rev@.len(),
            forall|k: int| 0 <= k < rev@.len() ==> #[trigger] rev@[k] <= 9,
            dec_digits(n as nat) =~= chars_rev(rev@),
            out@ =~= pre + chars_rev(rev@).subrange(0, rev@.len() - i),
        decreases i,
    {
        i = i - 1;
        let s = digit_str(rev[i]);
        out.append(s);
        proof {
            assert(out@ =~= pre + chars_rev(rev@).subrange(0, rev@.len() - i));
        }
    }
    proof {
        assert(chars_rev(rev@).subrange(0, rev@.len() as int) =~= chars_rev(rev@));
        assert(out@ =~= pre + dec_digits(n as nat));
    }
}

/// Appends two zero-padded decimal digits of `n < 100` to `out`.
pub fn append_two_digits(out: &mut String, n: u32)
    requires
        n < 100,
    ensures
        final(out)@ == old(out)@ + two_digits(n as int),
{
    proof {
        assert(n / 10 <= 9 && n % 10 <= 9) by (nonlinear_arith)
            requires n < 100;
    }
    let hi = digit_str((n / 10) as u128);
    let lo = digit_str((n % 10) as u128);
    out.append(hi);
    out.append(lo);
    proof {
        assert(out@ =~= old(out)@ + two_digits(n as int));
    }
}

} // verus!
