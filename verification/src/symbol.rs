use vstd::prelude::*;
use vstd::string::StringExecFns;
use crate::digits::{append_decimal, append_two_digits, dec_digits, digit_char, is_digit,
    lemma_dec_digits_wf, two_digits};
use crate::types::{DecodedRequest, OptionType};

verus! {

/// Uppercase English three-letter abbreviation of month `m` (1 to 12).
pub open spec fn mon3(m: int) -> Seq<char> {
    if m == 1 {
        seq!['J', 'A', 'N']
    } else if m == 2 {
        seq!['F', 'E', 'B']
    } else if m == 3 {
        seq!['M', 'A', 'R']
    } else if m == 4 {
        seq!['A', 'P', 'R']
    } else if m == 5 {
        seq!['M', 'A', 'Y']
    } else if m == 6 {
        seq!['J', 'U', 'N']
    } else if m == 7 {
        seq!['J', 'U', 'L']
    } else if m == 8 {
        seq!['A', 'U', 'G']
    } else if m == 9 {
        seq!['S', 'E', 'P']
    } else if m == 10 {
        seq!['O', 'C', 'T']
    } else if m == 11 {
        seq!['N', 'O', 'V']
    } else {
        seq!['D', 'E', 'C']
    }
}

pub fn month_str(m: u32) -> (r: &'static str)
    requires
        1 <= m <= 12,
    ensures
        r@ == mon3(m as int),
{
    if m == 1 {
        proof { reveal_strlit("JAN"); assert("JAN"@ =~= mon3(1)); }
        "JAN"
    } else if m == 2 {
        proof { reveal_strlit("FEB"); assert("FEB"@ =~= mon3(2)); }
        "FEB"
    } else if m == 3 {
        proof { reveal_strlit("MAR"); assert("MAR"@ =~= mon3(3)); }
        "MAR"
    } else if m == 4 {
        proof { reveal_strlit("APR"); assert("APR"@ =~= mon3(4)); }
        "APR"
    } else if m == 5 {
        proof { reveal_strlit("MAY"); assert("MAY"@ =~= mon3(5)); }
        "MAY"
    } else if m == 6 {
        proof { reveal_strlit("JUN"); assert("JUN"@ =~= mon3(6)); }
        "JUN"
    } else if m == 7 {
        proof { reveal_strlit("JUL"); assert("JUL"@ =~= mon3(7)); }
        "JUL"
    } else if m == 8 {
        proof { reveal_strlit("AUG"); assert("AUG"@ =~= mon3(8)); }
        "AUG"
    } else if m == 9 {
        proof { reveal_strlit("SEP"); assert("SEP"@ =~= mon3(9)); }
        "SEP"
    } else if m == 10 {
        proof { reveal_strlit("OCT"); assert("OCT"@ =~= mon3(10)); }
        "OCT"
    } else if m == 11 {
        proof { reveal_strlit("NOV"); assert("NOV"@ =~= mon3(11)); }
        "NOV"
    } else {
        proof { reveal_strlit("DEC"); assert("DEC"@ =~= mon3(12)); }
        "DEC"
    }
}

/// The option-type letter: `C` for Call, `P` for Put.
pub open spec fn type_char(o: OptionType) -> char {
    match o {
        OptionType::Call => 'C',
        OptionType::Put => 'P',
    }
}

/// The canonical instrument symbol `<MARKET>-<DDMMMYY>-<STRIKE>-<C|P>`:
/// market name, expiry day (two digits, zero-padded), month abbreviation,
/// two-digit year, minimal decimal strike, option-type letter.
pub open spec fn symbol_spec(
    market: Seq<char>,
    y: int,
    m: int,
    d: int,
    strike: nat,
    o: OptionType,
) -> Seq<char> {
    market + seq!['-'] + two_digits(d) + mon3(m) + two_digits(y % 100) + seq!['-'] + dec_digits(
        strike,
    ) + seq!['-'] + seq![type_char(o)]
}

/// Assembles the instrument symbol of a decoded request. Cannot fail once
/// decoding has succeeded, and is determined by the decoded fields alone.
pub fn build_symbol(req: &DecodedRequest) -> (r: String)
    requires
        req.wf(),
    ensures
        r@ == symbol_spec(
            req.market@,
            req.year as int,
            req.month as int,
            req.day as int,
            req.strike as nat,
            req.opt,
        ),
{
    let mut s = req.market.clone();
    proof { reveal_strlit("-"); assert("-"@ =~= seq!['-']); }
    s.append("-");
    append_two_digits(&mut s, req.day);
    s.append(month_str(req.month));
    append_two_digits(&mut s, req.year % 100);
    s.append("-");
    append_decimal(&mut s, req.strike);
    s.append("-");
    match req.opt {
        OptionType::Call => {
            proof { reveal_strlit("C"); assert("C"@ =~= seq![type_char(OptionType::Call)]); }
            s.append("C");
        },
        OptionType::Put => {
            proof { reveal_strlit("P"); assert("P"@ =~= seq![type_char(OptionType::Put)]); }
            s.append("P");
        },
    }
    proof {
        assert(s@ =~= symbol_spec(
            req.market@,
            req.year as int,
            req.month as int,
            req.day as int,
            req.strike as nat,
            req.opt,
        ));
    }
    s
}

/// The public order-book endpoint, up to the instrument-name query value.
pub open spec fn url_prefix() -> Seq<char> {
    "https://www.deribit.com/api/v2/public/get_order_book?instrument_name="@
}

/// The quote URL for one instrument symbol.
pub fn request_url(symbol: &str) -> (r: String)
    ensures
        r@ == url_prefix() + symbol@,
{
    let mut u = String::from_str(
        "https://www.deribit.com/api/v2/public/get_order_book?instrument_name=",
    );
    u.append(symbol);
    u
}

pub open spec fn is_upper_alnum(c: char) -> bool {
    ('A' <= c && c <= 'Z') || is_digit(c)
}

/// A market name as the exchange canonicalizes it: one to sixteen
/// uppercase ASCII letters.
pub open spec fn market_wf(m: Seq<char>) -> bool {
    &&& 1 <= m.len() <= 16
    &&& forall|k: int| 0 <= k < m.len() ==> 'A' <= #[trigger] m[k] && m[k] <= 'Z'
}

/// One decomposition of `s` into the symbol's parts: the market name ends
/// at `i`, the strike ends at `j`. Mirrors the pattern
/// `[A-Z0-9]+ - \d\d (JAN|...|DEC) \d\d - \d+ - [CP]` with a minimal strike.
pub open spec fn symbol_parts(s: Seq<char>, i: int, j: int) -> bool {
    &&& 1 <= i
    &&& i + 10 <= j
    &&& j + 2 == s.len()
    &&& (forall|k: int| 0 <= k < i ==> is_upper_alnum(#[trigger] s[k]))
    &&& s[i] == '-'
    &&& is_digit(s[i + 1]) && is_digit(s[i + 2])
    &&& (exists|mo: int| 1 <= mo <= 12 && s.subrange(i + 3, i + 6) =~= #[trigger] mon3(mo))
    &&& is_digit(s[i + 6]) && is_digit(s[i + 7])
    &&& s[i + 8] == '-'
    &&& (forall|k: int| i + 9 <= k < j ==> is_digit(#[trigger] s[k]))
    &&& (s[i + 9] == '0' ==> j == i + 10)
    &&& s[j] == '-'
    &&& (s[j + 1] == 'C' || s[j + 1] == 'P')
}

/// `s` has the symbol shape `<MARKET>-<DDMMMYY>-<STRIKE>-<C|P>`.
pub open spec fn symbol_wf(s: Seq<char>) -> bool {
    exists|i: int, j: int| #[trigger] symbol_parts(s, i, j)
}

/// Symbol format law: for a well-formed market name, calendar-plausible
/// date fields, any strike and either option type, the assembled symbol
/// has the canonical shape.
pub proof fn lemma_symbol_format(
    market: Seq<char>,
    y: int,
    m: int,
    d: int,
    strike: nat,
    o: OptionType,
)
    requires
        market_wf(market),
        1 <= m <= 12,
        1 <= d <= 31,
        0 <= y,
    ensures
        symbol_wf(symbol_spec(market, y, m, d, strike, o)),
{
    let s = symbol_spec(market, y, m, d, strike, o);
    let i = market.len() as int;
    lemma_dec_digits_wf(strike);
    let n = dec_digits(strike).len() as int;
    let j = i + 9 + n;
    let yy = y % 100;
    assert(mon3(m).len() == 3);
    assert(s.len() == j + 2);
    assert(d / 10 <= 9 && 0 <= d / 10 && d % 10 <= 9 && 0 <= d % 10) by (nonlinear_arith)
        requires 1 <= d <= 31;
    assert(yy / 10 <= 9 && 0 <= yy / 10 && yy % 10 <= 9 && 0 <= yy % 10) by (nonlinear_arith)
        requires 0 <= yy < 100;
    assert(forall|t: int| 0 <= t <= 9 ==> is_digit(#[trigger] digit_char(t)));
    assert(forall|k: int| 0 <= k < i ==> s[k] == market[k]);
    assert(s[i] == '-');
    assert(s[i + 1] == digit_char(d / 10));
    assert(s[i + 2] == digit_char(d % 10));
    assert(s.subrange(i + 3, i + 6) =~= mon3(m));
    assert(s[i + 6] == digit_char(yy / 10));
    assert(s[i + 7] == digit_char(yy % 10));
    assert(s[i + 8] == '-');
    assert(forall|k: int| i + 9 <= k < j ==> s[k] == dec_digits(strike)[k - (i + 9)]);
    assert(s[i + 9] == '0' ==> strike == 0 && n == 1);
    assert(s[j] == '-');
    assert(s[j + 1] == type_char(o));
    assert(symbol_parts(s, i, j));
}

} // verus!
