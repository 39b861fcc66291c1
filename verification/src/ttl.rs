//! The cache TTL as the proxy reads it: whole milliseconds, at most
//! 2^32 - 1, written in base 10.

use crate::decimal::{decimal, render_decimal};
use std::time::Duration;
use vstd::prelude::*;

verus! {

/// The whole milliseconds that a duration holds: what `Duration::as_millis`
/// returns for it.
pub uninterp spec fn duration_millis(duration: Duration) -> nat;

/// `Duration::as_millis` is not specified by vstd. Its result is taken as the
/// meaning of `duration_millis`; nothing more is claimed of it.
pub assume_specification[ Duration::as_millis ](duration: &Duration) -> (millis: u128)
    ensures
        millis == duration_millis(*duration),
;

/// The largest TTL, in milliseconds, that the proxy is told.
pub const MAX_TTL_MILLIS: u32 = 4294967295;

/// `millis`, or the largest TTL where `millis` is beyond it.
pub open spec fn saturated_millis(millis: nat) -> nat {
    if millis > MAX_TTL_MILLIS {
        MAX_TTL_MILLIS as nat
    } else {
        millis
    }
}

/// The TTL header for a TTL of `millis` milliseconds: the base-10 numeral of
/// `millis`, saturated at the largest TTL.
pub open spec fn ttl_header_text(millis: nat) -> Seq<char> {
    decimal(saturated_millis(millis))
}

/// Clamps a number of milliseconds to the largest TTL.
pub fn saturate_millis(millis: u128) -> (capped: u32)
    ensures
        capped == saturated_millis(millis as nat),
{
    if millis > MAX_TTL_MILLIS as u128 {
        MAX_TTL_MILLIS
    } else {
        millis as u32
    }
}

/// Renders the TTL header for a TTL of `millis` milliseconds.
pub fn render_ttl_millis(millis: u128) -> (text: String)
    ensures
        text@ == ttl_header_text(millis as nat),
{
    render_decimal(saturate_millis(millis))
}

/// Renders the TTL header for the TTL `ttl`.
pub fn render_ttl(ttl: Duration) -> (text: String)
    ensures
        text@ == ttl_header_text(duration_millis(ttl)),
{
    render_ttl_millis(ttl.as_millis())
}

} // verus!
