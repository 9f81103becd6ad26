use vstd::prelude::*;

verus! {

/// The two failure kinds of one handler invocation; both are terminal and
/// yield zero callbacks.
#[derive(Clone, Copy, Debug, PartialEq, Eq)]
pub enum Error {
    /// Upstream HTTP or JSON problem, or the required quote field is
    /// absent or not a number.
    FetchError,
    /// A decoded input violates the request invariants: bad option type,
    /// bad expiry timestamp, or a quote value outside the fixed-point range.
    InvalidParameter,
}

/// Which side of the option contract a request asks about.
#[derive(Clone, Copy, Debug, PartialEq, Eq)]
pub enum OptionType {
    Call,
    Put,
}

/// The raw request record as the host hands it over, with the on-chain
/// words narrowed to plain integers. The expiry and strike arrive as
/// unsigned words; only the low 64 bits of the expiry are interpreted.
#[derive(Clone, Debug)]
pub struct Order {
    /// Short textual asset symbol, e.g. `"ETH"`.
    pub market_id: String,
    /// POSIX seconds of the option's expiry instant, UTC.
    pub exp_date: u128,
    /// The exchange's integer strike, no implicit decimals.
    pub strike_price: u128,
    /// `0` for Call, `1` for Put; anything else is invalid.
    pub option_type: u8,
}

/// A validated request: the expiry resolved to a UTC calendar date and the
/// option type resolved to its enum.
#[derive(Debug)]
pub struct DecodedRequest {
    pub market: String,
    pub year: u32,
    pub month: u32,
    pub day: u32,
    pub strike: u128,
    pub opt: OptionType,
}

impl DecodedRequest {
    /// Field bounds that decoding establishes and the formatter relies on.
    pub open spec fn wf(&self) -> bool {
        &&& 1 <= self.month <= 12
        &&& 1 <= self.day <= 31
        &&& 1970 <= self.year
    }
}

/// One prepared on-chain callback invocation: the target contract, the
/// request id passed through opaquely, the callback index, and the ordered
/// payload words.
#[derive(Clone, Debug, PartialEq, Eq)]
pub struct Callback {
    pub receiver: [u8; 20],
    pub request_id: [u8; 20],
    pub index: u64,
    pub payload: Vec<u128>,
}

} // verus!
