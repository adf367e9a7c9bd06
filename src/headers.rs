//! The three rate-limit response headers and their decimal values.
use vstd::prelude::*;

use crate::limiter::RateLimitHeaders;

verus! {

pub const LIMIT_HEADER: &'static str = "x-ratelimit-limit";

pub const REMAINING_HEADER: &'static str = "x-ratelimit-remaining";

pub const RESET_HEADER: &'static str = "x-ratelimit-reset";

/// ASCII code of the decimal digit `d`.
pub open spec fn digit(d: nat) -> u8 {
    (48 + d % 10) as u8
}

/// Decimal rendering of `n` in ASCII, without leading zeros.
pub open spec fn decimal(n: nat) -> Seq<u8>
    decreases n,
{
    if n < 10 {
        seq![digit(n)]
    } else {
        decimal(n / 10).push(digit(n % 10))
    }
}

/// Renders `n` in decimal ASCII digits.
pub fn decimal_bytes(n: u64) -> (r: Vec<u8>)
    ensures
        r@ == decimal(n as nat),
    decreases n,
{
    if n < 10 {
        let mut v: Vec<u8> = Vec::new();
        v.push(48u8 + n as u8);
        proof {
            assert(v@ =~= seq![digit(n as nat)]);
        }
        v
    } else {
        let mut v = decimal_bytes(n / 10);
        v.push(48u8 + (n % 10) as u8);
        v
    }
}

impl RateLimitHeaders {
    /// The header names and decimal values to attach to a response, forwarded
    /// or rejected alike.
    pub fn fields(&self) -> (r: Vec<(&'static str, Vec<u8>)>)
        ensures
            r@.len() == 3,
            r@[0].0@ == LIMIT_HEADER@,
            r@[0].1@ == decimal(self.limit as nat),
            r@[1].0@ == REMAINING_HEADER@,
            r@[1].1@ == decimal(self.remaining as nat),
            r@[2].0@ == RESET_HEADER@,
            r@[2].1@ == decimal(self.reset as nat),
    {
        let mut r: Vec<(&'static str, Vec<u8>)> = Vec::new();
        r.push((LIMIT_HEADER, decimal_bytes(self.limit as u64)));
        r.push((REMAINING_HEADER, decimal_bytes(self.remaining as u64)));
        r.push((RESET_HEADER, decimal_bytes(self.reset)));
        r
    }
}

} // verus!
