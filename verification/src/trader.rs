//! What a trader does with each market event it receives.
use crate::logger::{decimal, format_u64};
use vstd::prelude::*;
use vstd::string::*;

verus! {

/// The message a trader reports when its receiver fell `behind` events
/// behind the market: `<trader>: lagged behind <behind>`.
pub fn lagged_message(trader_name: &str, behind: u64) -> (r: String)
    ensures
        r@ == trader_name@ + ": lagged behind "@ + decimal(behind as nat),
{
    let mut s = String::from_str(trader_name);
    s.append(": lagged behind ");
    let n = format_u64(behind);
    s.append(n.as_str());
    s
}

} // verus!
