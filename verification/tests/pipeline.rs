use iv_oracle::handler::{finish_request, prepare_request};
use iv_oracle::types::{Error, Order};
use rust_decimal::prelude::FromPrimitive;

const URL_PREFIX: &str = "https://www.deribit.com/api/v2/public/get_order_book?instrument_name=";

fn order(market: &str, exp_date: u128, strike_price: u128, option_type: u8) -> Order {
    Order { market_id: market.to_string(), exp_date, strike_price, option_type }
}

const RECEIVER: [u8; 20] = [0xAA; 20];
const REQUEST_ID: [u8; 20] = [
    1, 2, 3, 4, 5, 6, 7, 8, 9, 10, 11, 12, 13, 14, 15, 16, 17, 18, 19, 20,
];

#[test]
fn eth_call_symbol_and_url() {
    let p = prepare_request(&order("ETH", 1695945600, 2000, 0)).unwrap();
    assert_eq!(p.symbol, "ETH-29SEP23-2000-C");
    assert_eq!(p.url, format!("{}{}", URL_PREFIX, "ETH-29SEP23-2000-C"));
}

#[test]
fn btc_put_symbol() {
    let p = prepare_request(&order("BTC", 1704067200, 45000, 1)).unwrap();
    assert_eq!(p.symbol, "BTC-01JAN24-45000-P");
}

#[test]
fn epoch_symbol() {
    let p = prepare_request(&order("ETH", 0, 100, 0)).unwrap();
    assert_eq!(p.symbol, "ETH-01JAN70-100-C");
}

#[test]
fn unknown_market_still_formats() {
    let p = prepare_request(&order("XXX", 1704067200, 100, 0)).unwrap();
    assert_eq!(p.symbol, "XXX-01JAN24-100-C");
}

#[test]
fn leap_day_symbol() {
    let p = prepare_request(&order("BTC", 1709164800, 60000, 1)).unwrap();
    assert_eq!(p.symbol, "BTC-29FEB24-60000-P");
}

#[test]
fn strike_zero_renders_single_zero() {
    let p = prepare_request(&order("ETH", 1704067200, 0, 0)).unwrap();
    assert_eq!(p.symbol, "ETH-01JAN24-0-C");
}

#[test]
fn all_twelve_months_render() {
    let first_of_month_2024: [(u128, &str); 12] = [
        (1704067200, "01JAN24"),
        (1706745600, "01FEB24"),
        (1709251200, "01MAR24"),
        (1711929600, "01APR24"),
        (1714521600, "01MAY24"),
        (1717200000, "01JUN24"),
        (1719792000, "01JUL24"),
        (1722470400, "01AUG24"),
        (1725148800, "01SEP24"),
        (1727740800, "01OCT24"),
        (1730419200, "01NOV24"),
        (1733011200, "01DEC24"),
    ];
    for (ts, code) in first_of_month_2024 {
        let p = prepare_request(&order("ETH", ts, 2500, 0)).unwrap();
        assert_eq!(p.symbol, format!("ETH-{}-2500-C", code));
    }
}

#[test]
fn time_of_day_does_not_change_the_date_code() {
    let midnight = prepare_request(&order("ETH", 1695945600, 2000, 0)).unwrap();
    let last_second = prepare_request(&order("ETH", 1695945600 + 86399, 2000, 0)).unwrap();
    assert_eq!(midnight.symbol, last_second.symbol);
}

#[test]
fn symbol_is_deterministic() {
    let a = prepare_request(&order("ETH", 1695945600, 2000, 0)).unwrap();
    let b = prepare_request(&order("ETH", 1695945600, 2000, 0)).unwrap();
    assert_eq!(a.symbol, b.symbol);
    assert_eq!(a.url, b.url);
}

#[test]
fn exp_date_high_bits_are_ignored() {
    let low: u128 = 1695945600;
    let with_high = low + (7u128 << 64);
    let a = prepare_request(&order("ETH", low, 2000, 0)).unwrap();
    let b = prepare_request(&order("ETH", with_high, 2000, 0)).unwrap();
    assert_eq!(a.symbol, b.symbol);
}

#[test]
fn bad_option_type_is_invalid_parameter() {
    let r = prepare_request(&order("ETH", 1695945600, 2000, 2));
    assert_eq!(r.unwrap_err(), Error::InvalidParameter);
}

#[test]
fn expiry_with_sign_bit_is_invalid_parameter() {
    let r = prepare_request(&order("ETH", 1u128 << 63, 2000, 0));
    assert_eq!(r.unwrap_err(), Error::InvalidParameter);
}

#[test]
fn expiry_at_calendar_edge() {
    assert!(prepare_request(&order("ETH", 8210266876799, 2000, 0)).is_ok());
    let r = prepare_request(&order("ETH", 8210266876800, 2000, 0));
    assert_eq!(r.unwrap_err(), Error::InvalidParameter);
}

#[test]
fn three_callbacks_from_mark_iv() {
    // mark_iv = 0.54321 carried as mantissa 54321, scale 5: x = 54321000.
    let cbs = finish_request(RECEIVER, REQUEST_ID, Some((54321, 5))).unwrap();
    assert_eq!(cbs.len(), 3);
    for (i, cb) in cbs.iter().enumerate() {
        let i = i as u128;
        assert_eq!(cb.receiver, RECEIVER);
        assert_eq!(cb.request_id, REQUEST_ID);
        assert_eq!(cb.index, i as u64);
        assert_eq!(cb.payload, vec![54321001 + i, 54321002 + i, 54321003 + i]);
    }
}

#[test]
fn mark_iv_from_double_through_decimal() {
    // The fetch edge hands the float-typed quote over as decimal mantissa
    // and scale; 0.54321 must land on the fixed-point mantissa 54321000.
    let dec = rust_decimal::Decimal::from_f64(0.54321).unwrap();
    let cbs = finish_request(RECEIVER, REQUEST_ID, Some((dec.mantissa(), dec.scale()))).unwrap();
    assert_eq!(cbs[0].payload, vec![54321001, 54321002, 54321003]);
    assert_eq!(cbs[1].payload, vec![54321002, 54321003, 54321004]);
    assert_eq!(cbs[2].payload, vec![54321003, 54321004, 54321005]);
}

#[test]
fn missing_quote_is_fetch_error_with_no_callbacks() {
    let r = finish_request(RECEIVER, REQUEST_ID, None);
    assert_eq!(r.unwrap_err(), Error::FetchError);
}

#[test]
fn negative_quote_is_rejected_with_no_callbacks() {
    let r = finish_request(RECEIVER, REQUEST_ID, Some((-54321, 5)));
    assert_eq!(r.unwrap_err(), Error::InvalidParameter);
}
