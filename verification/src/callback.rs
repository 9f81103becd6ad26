use vstd::prelude::*;
use crate::types::Callback;

verus! {

/// The specified on-chain shape of one run's output: exactly three
/// callbacks, ordered by index, each carrying the receiver, the request id
/// passed through unchanged, and the payload `[x+i+1, x+i+2, x+i+3]`
/// derived from the rescaled mantissa `x`.
pub open spec fn callbacks_shape(
    cbs: Seq<Callback>,
    receiver: [u8; 20],
    request_id: [u8; 20],
    x: u128,
) -> bool {
    &&& cbs.len() == 3
    &&& forall|i: int| 0 <= i < 3 ==> {
        let cb = #[trigger] cbs[i];
        &&& cb.receiver@ == receiver@
        &&& cb.request_id@ == request_id@
        &&& cb.index == i
        &&& cb.payload@.len() == 3
        &&& (forall|j: int| 0 <= j < 3 ==> #[trigger] cb.payload@[j] == x + i + j + 1)
    }
}

/// Builds the three prepared callback invocations for one request. The
/// payload arithmetic stays inside the machine word: the rescaled mantissa
/// is bounded well below the word's top, so no sum wraps.
pub fn build_callbacks(receiver: [u8; 20], request_id: [u8; 20], x: u128) -> (r: Vec<Callback>)
    requires
        x + 5 <= u128::MAX,
    ensures
        callbacks_shape(r@, receiver, request_id, x),
{
    let mut out: Vec<Callback> = Vec::new();
    let mut i: u64 = 0;
    while i < 3
        invariant
            x + 5 <= u128::MAX,
            i <= 3,
            out@.len() == i,
            forall|k: int| 0 <= k < i ==> {
                let cb = #[trigger] out@[k];
                &&& cb.receiver@ == receiver@
                &&& cb.request_id@ == request_id@
                &&& cb.index == k
                &&& cb.payload@.len() == 3
                &&& (forall|j: int| 0 <= j < 3 ==> #[trigger] cb.payload@[j] == x + k + j + 1)
            },
        decreases 3 - i,
    {
        let y = i as u128;
        let payload: Vec<u128> = vec![x + y + 1, x + y + 2, x + y + 3];
        out.push(Callback { receiver, request_id, index: i, payload });
        i = i + 1;
    }
    out
}

} // verus!
