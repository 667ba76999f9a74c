//! The connection retry schedule: exponential backoff from 100 ms, up to 5
//! attempts before the process gives up. The I/O shell sleeps for the delays
//! computed here between connection attempts.

use vstd::prelude::*;

verus! {

/// Base delay of the exponential schedule, in milliseconds.
pub const RETRY_BASE_MS: u64 = 100;

/// Connection attempts before giving up.
pub const RETRY_BUDGET: u32 = 5;

/// The multiplicative schedule: the delay before retry number `n` (counted
/// from 0) is `RETRY_BASE_MS` to the power `n + 1`, saturating at `u64::MAX`.
pub open spec fn spec_retry_delay_ms(n: nat) -> nat
    decreases n,
{
    if n == 0 {
        RETRY_BASE_MS as nat
    } else {
        spec_retry_delay_ms((n - 1) as nat) * (RETRY_BASE_MS as nat)
    }
}

/// Whether another connection attempt is owed after `failures` failed ones.
pub fn should_retry(failures: u32) -> (r: bool)
    ensures
        r == (failures < RETRY_BUDGET),
{
    failures < RETRY_BUDGET
}

/// The delay in milliseconds before retry number `n`, saturated to `u64`.
pub fn retry_delay_ms(n: u32) -> (r: u64)
    ensures
        spec_retry_delay_ms(n as nat) <= u64::MAX ==> r == spec_retry_delay_ms(n as nat),
        spec_retry_delay_ms(n as nat) > u64::MAX ==> r == u64::MAX,
{
    let mut i: u32 = 0;
    let mut d: u64 = RETRY_BASE_MS;
    while i < n
        invariant
            i <= n,
            spec_retry_delay_ms(i as nat) <= u64::MAX ==> d == spec_retry_delay_ms(i as nat),
            spec_retry_delay_ms(i as nat) > u64::MAX ==> d == u64::MAX,
        decreases n - i,
    {
        proof {
            assert(spec_retry_delay_ms((i + 1) as nat) == spec_retry_delay_ms(i as nat) * (
            RETRY_BASE_MS as nat));
        }
        if d > u64::MAX / RETRY_BASE_MS {
            proof {
                assert(spec_retry_delay_ms((i + 1) as nat) > u64::MAX) by (nonlinear_arith)
                    requires
                        spec_retry_delay_ms((i + 1) as nat) == spec_retry_delay_ms(i as nat) * (
                        RETRY_BASE_MS as nat),
                        spec_retry_delay_ms(i as nat) >= d,
                        d > (u64::MAX as nat) / (RETRY_BASE_MS as nat),
                        RETRY_BASE_MS == 100,
                ;
            }
            d = u64::MAX;
        } else {
            proof {
                assert(d * RETRY_BASE_MS <= u64::MAX) by (nonlinear_arith)
                    requires
                        d <= (u64::MAX as nat) / (RETRY_BASE_MS as nat),
                        RETRY_BASE_MS == 100,
                ;
            }
            d = d * RETRY_BASE_MS;
        }
        i = i + 1;
    }
    d
}

} // verus!
