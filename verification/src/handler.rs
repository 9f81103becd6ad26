use vstd::prelude::*;
use crate::callback::{build_callbacks, callbacks_shape};
use crate::rescale::{rescalable, rescale_to_8, rescale8_spec, MAX_MANTISSA};
use crate::symbol::{build_symbol, lemma_symbol_format, market_wf, request_url, symbol_spec,
    symbol_wf, url_prefix};
use crate::time::{civil_from_timestamp, civil_of, MAX_UTC_SECS};
use crate::types::{Callback, DecodedRequest, Error, OptionType, Order};

verus! {

/// The low 64-bit word of the expiry field; higher bits are ignored.
pub open spec fn low_word(e: u128) -> u128 {
    e % 0x10000000000000000
}

/// Whether the raw record decodes: the narrowed expiry must be a
/// non-negative signed word inside the calendar range, and the option type
/// must be 0 or 1.
pub open spec fn order_valid(o: Order) -> bool {
    &&& low_word(o.exp_date) < 0x8000000000000000
    &&& low_word(o.exp_date) <= MAX_UTC_SECS as u128
    &&& o.option_type <= 1
}

/// The option side a valid record asks for.
pub open spec fn order_opt(o: Order) -> OptionType {
    if o.option_type == 0 {
        OptionType::Call
    } else {
        OptionType::Put
    }
}

/// The UTC expiry date of a valid record.
pub open spec fn order_civil(o: Order) -> (int, int, int) {
    civil_of(low_word(o.exp_date) as int)
}

/// The instrument symbol a valid record determines: a function of the
/// market name, the narrowed expiry, the strike and the option type alone.
pub open spec fn order_symbol(o: Order) -> Seq<char> {
    let (y, m, d) = order_civil(o);
    symbol_spec(o.market_id@, y, m, d, o.strike_price as nat, order_opt(o))
}

/// Validates the raw request record: narrows the expiry to its low word,
/// resolves it to a UTC calendar date, and maps the option-type byte to
/// its enum. Fails with `InvalidParameter` exactly when the narrowed
/// expiry falls outside the signed word or the calendar range, or the
/// option type is neither 0 nor 1.
pub fn decode_order(params: &Order) -> (r: Result<DecodedRequest, Error>)
    ensures
        r.is_ok() <==> order_valid(*params),
        r matches Ok(d) ==> {
            &&& d.wf()
            &&& d.market@ == params.market_id@
            &&& (d.year as int, d.month as int, d.day as int) == order_civil(*params)
            &&& d.strike == params.strike_price
            &&& d.opt == order_opt(*params)
        },
        r matches Err(e) ==> e == Error::InvalidParameter,
{
    let ts = (params.exp_date % 0x10000000000000000) as u64;
    if ts >= 0x8000000000000000u64 {
        return Err(Error::InvalidParameter);
    }
    let (year, month, day) = match civil_from_timestamp(ts) {
        Some(ymd) => ymd,
        None => return Err(Error::InvalidParameter),
    };
    let opt = match params.option_type {
        0u8 => OptionType::Call,
        1u8 => OptionType::Put,
        _ => return Err(Error::InvalidParameter),
    };
    Ok(DecodedRequest {
        market: params.market_id.clone(),
        year,
        month,
        day,
        strike: params.strike_price,
        opt,
    })
}

/// Everything the fetch step needs, derived from one valid request: the
/// decoded record, the instrument symbol and the quote URL.
#[derive(Debug)]
pub struct Prepared {
    pub request: DecodedRequest,
    pub symbol: String,
    pub url: String,
}

/// The pipeline up to the outbound fetch: decode, format the symbol, and
/// build the order-book URL. On failure nothing is produced, so no fetch
/// can follow; the error is exactly the decoder's.
pub fn prepare_request(params: &Order) -> (r: Result<Prepared, Error>)
    ensures
        r.is_ok() <==> order_valid(*params),
        r matches Ok(p) ==> {
            &&& p.request.wf()
            &&& p.symbol@ == order_symbol(*params)
            &&& p.url@ == url_prefix() + order_symbol(*params)
            &&& (market_wf(params.market_id@) ==> symbol_wf(p.symbol@))
        },
        r matches Err(e) ==> e == Error::InvalidParameter,
{
    let request = decode_order(params)?;
    let symbol = build_symbol(&request);
    let url = request_url(symbol.as_str());
    proof {
        if market_wf(params.market_id@) {
            lemma_symbol_format(
                request.market@,
                request.year as int,
                request.month as int,
                request.day as int,
                request.strike as nat,
                request.opt,
            );
        }
    }
    Ok(Prepared { request, symbol, url })
}

/// The pipeline after the outbound fetch. `fetched` is the quote outcome
/// as plain values: `None` for any transport or decoding failure,
/// otherwise the mark implied volatility as a decimal mantissa and scale.
/// A missing quote is exactly `FetchError`; a quote outside the
/// fixed-point range is exactly `InvalidParameter`; otherwise the three
/// callbacks are built from the rescaled mantissa.
pub fn finish_request(
    receiver: [u8; 20],
    request_id: [u8; 20],
    fetched: Option<(i128, u32)>,
) -> (r: Result<Vec<Callback>, Error>)
    ensures
        fetched is None ==> (r matches Err(e) && e == Error::FetchError),
        fetched matches Some(ms) ==> {
            &&& (r.is_ok() <==> rescalable(ms.0 as int, ms.1 as nat))
            &&& (r matches Ok(cbs) ==> callbacks_shape(
                cbs@,
                receiver,
                request_id,
                rescale8_spec(ms.0 as nat, ms.1 as nat) as u128,
            ))
            &&& (r matches Err(e) ==> e == Error::InvalidParameter)
        },
{
    let (mantissa, scale) = match fetched {
        Some(ms) => ms,
        None => return Err(Error::FetchError),
    };
    let x = match rescale_to_8(mantissa, scale) {
        Ok(x) => x,
        Err(e) => return Err(e),
    };
    assert(x <= MAX_MANTISSA);
    Ok(build_callbacks(receiver, request_id, x))
}

/// Determinism of the instrument symbol: two raw records that agree on the
/// market name, the expiry word, the strike and the option type determine
/// byte-identical symbols.
pub proof fn lemma_symbol_deterministic(a: Order, b: Order)
    requires
        a.market_id@ == b.market_id@,
        a.exp_date == b.exp_date,
        a.strike_price == b.strike_price,
        a.option_type == b.option_type,
    ensures
        order_symbol(a) == order_symbol(b),
{
}

} // verus!
