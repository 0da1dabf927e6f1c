use vstd::prelude::*;

verus! {

/// Window size handed out when no round has taken place yet.
pub const INITIAL_WINDOW: usize = 16;

/// Below this size a stateless transport doubles its window.
pub const STATELESS_DOUBLING_LIMIT: usize = 16384;

/// Below this size a stateful transport doubles its window.
pub const STATEFUL_DOUBLING_LIMIT: usize = 64;

/// The next negotiation window, as a mathematical integer.
///
/// Small windows double; past the limit a stateless transport grows by a
/// tenth and a stateful one by a half, both rounded down.
pub open spec fn next_window(stateless: bool, previous: Option<int>) -> int {
    match previous {
        None => INITIAL_WINDOW as int,
        Some(p) => if stateless {
            if p < STATELESS_DOUBLING_LIMIT { p * 2 } else { p + p / 10 }
        } else {
            if p < STATEFUL_DOUBLING_LIMIT { p * 2 } else { p + p / 2 }
        },
    }
}

/// Lifts an optional window size to mathematical integers.
pub open spec fn as_int(previous: Option<usize>) -> Option<int> {
    match previous {
        None => None,
        Some(p) => Some(p as int),
    }
}

/// Computes the size of the next batch of "have" announcements from the
/// previous one, or the initial size if there was none.
pub fn window_size(stateless: bool, previous: Option<usize>) -> (r: usize)
    requires
        next_window(stateless, as_int(previous)) <= usize::MAX,
    ensures
        r == next_window(stateless, as_int(previous)),
        previous.is_none() ==> r == INITIAL_WINDOW,
        previous matches Some(p) ==> (p > 0 ==> r > p),
{
    match previous {
        None => INITIAL_WINDOW,
        Some(p) => {
            if stateless {
                if p < STATELESS_DOUBLING_LIMIT {
                    p * 2
                } else {
                    p + p / 10
                }
            } else {
                if p < STATEFUL_DOUBLING_LIMIT {
                    p * 2
                } else {
                    p + p / 2
                }
            }
        },
    }
}

/// Every round of negotiation that starts from a positive window ends with a
/// strictly larger one, for stateless and stateful transports alike.
pub proof fn lemma_window_grows(stateless: bool, previous: int)
    requires
        previous > 0,
    ensures
        next_window(stateless, Some(previous)) > previous,
        next_window(stateless, None) > 0,
{
}

} // verus!
