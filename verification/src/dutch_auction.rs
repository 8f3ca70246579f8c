//! The Dutch-auction pricer: linear interpolation between two amounts over a
//! time window, clamped outside it.

use crate::host::Env;
use vstd::prelude::*;

verus! {

#[derive(Copy, Clone, Debug, Eq, PartialEq, PartialOrd, Ord, Structural)]
pub enum Error {
    InvalidTimeRange,
    AuctionNotStarted,
    InvalidAmountRange,
    ArithmeticOverflow,
}

impl Error {
    /// The number under which the ledger reports the error.
    pub fn code(&self) -> (c: u32)
        ensures
            c == match *self {
                Error::InvalidTimeRange => 1u32,
                Error::AuctionNotStarted => 2u32,
                Error::InvalidAmountRange => 3u32,
                Error::ArithmeticOverflow => 4u32,
            },
    {
        match self {
            Error::InvalidTimeRange => 1,
            Error::AuctionNotStarted => 2,
            Error::InvalidAmountRange => 3,
            Error::ArithmeticOverflow => 4,
        }
    }
}

/// The amount at time `now` on the line from `start` at `t_start` to `end` at
/// `t_end`: `start` before the window, `end` from its end on, and in between
/// `start` moved toward `end` by the elapsed share of their distance, the
/// share rounded toward zero.
pub open spec fn interpolate(start: int, end: int, t_start: int, t_end: int, now: int) -> int {
    if now < t_start {
        start
    } else if now >= t_end {
        end
    } else if start >= end {
        start - ((start - end) * (now - t_start)) / (t_end - t_start)
    } else {
        start + ((end - start) * (now - t_start)) / (t_end - t_start)
    }
}

/// Whether the interpolation at `now` leaves the 128-bit range on its way:
/// inside the window, the distance of the two amounts or its product with the
/// elapsed time does not fit.
pub open spec fn interpolation_overflows(start: int, end: int, t_start: int, t_end: int, now: int) -> bool {
    let distance = if start >= end {
        start - end
    } else {
        end - start
    };
    t_start <= now < t_end && (distance > i128::MAX || distance * (now - t_start) > i128::MAX)
}

/// What the pricer answers for a descending taking amount.
pub open spec fn taking_amount_result(
    now: u64,
    taking_amount_start: i128,
    taking_amount_end: i128,
    auction_start_time: u64,
    auction_end_time: u64,
) -> Result<i128, Error> {
    if auction_end_time <= auction_start_time {
        Err(Error::InvalidTimeRange)
    } else if taking_amount_start <= taking_amount_end {
        Err(Error::InvalidAmountRange)
    } else if interpolation_overflows(
        taking_amount_start as int,
        taking_amount_end as int,
        auction_start_time as int,
        auction_end_time as int,
        now as int,
    ) {
        Err(Error::ArithmeticOverflow)
    } else {
        Ok(
            interpolate(
                taking_amount_start as int,
                taking_amount_end as int,
                auction_start_time as int,
                auction_end_time as int,
                now as int,
            ) as i128,
        )
    }
}

/// What the pricer answers for an ascending making amount.
pub open spec fn making_amount_result(
    now: u64,
    making_amount_start: i128,
    making_amount_end: i128,
    auction_start_time: u64,
    auction_end_time: u64,
) -> Result<i128, Error> {
    if auction_end_time <= auction_start_time {
        Err(Error::InvalidTimeRange)
    } else if making_amount_start >= making_amount_end {
        Err(Error::InvalidAmountRange)
    } else if interpolation_overflows(
        making_amount_start as int,
        making_amount_end as int,
        auction_start_time as int,
        auction_end_time as int,
        now as int,
    ) {
        Err(Error::ArithmeticOverflow)
    } else {
        Ok(
            interpolate(
                making_amount_start as int,
                making_amount_end as int,
                auction_start_time as int,
                auction_end_time as int,
                now as int,
            ) as i128,
        )
    }
}

/// The elapsed share `distance * elapsed / duration` of a distance lies
/// between zero and the distance.
pub proof fn lemma_share_bounds(distance: int, elapsed: int, duration: int)
    requires
        0 <= distance,
        0 <= elapsed < duration,
    ensures
        0 <= (distance * elapsed) / duration <= distance,
        distance > 0 ==> (distance * elapsed) / duration < distance,
{
    assert(0 <= distance * elapsed) by (nonlinear_arith)
        requires
            0 <= distance,
            0 <= elapsed,
    ;
    assert(distance * elapsed <= distance * duration) by (nonlinear_arith)
        requires
            0 <= distance,
            elapsed < duration,
    ;
    assert(distance > 0 ==> distance * elapsed < distance * duration) by (nonlinear_arith)
        requires
            0 <= distance,
            0 <= elapsed < duration,
    ;
    let p = distance * elapsed;
    assert(0 <= p / duration) by (nonlinear_arith)
        requires
            0 <= p,
            0 < duration,
    ;
    assert(p / duration <= distance) by (nonlinear_arith)
        requires
            p <= distance * duration,
            0 < duration,
    ;
    assert(distance > 0 ==> p / duration < distance) by (nonlinear_arith)
        requires
            distance > 0 ==> p < distance * duration,
            0 <= p,
            0 < duration,
    ;
}

/// The pricer. It stores nothing: an instance is as good as another.
#[derive(Clone, Copy, Debug, PartialEq, Eq, Structural)]
pub struct SorobanDutchAuction;

impl SorobanDutchAuction {
    /// The taking amount that a descending auction asks at the ledger's
    /// current time. `making_amount` does not enter the price.
    pub fn calculate_taking_amount(
        env: &Env,
        making_amount: i128,
        taking_amount_start: i128,
        taking_amount_end: i128,
        auction_start_time: u64,
        auction_end_time: u64,
    ) -> (r: Result<i128, Error>)
        ensures
            r == taking_amount_result(
                env.timestamp,
                taking_amount_start,
                taking_amount_end,
                auction_start_time,
                auction_end_time,
            ),
    {
        if auction_end_time <= auction_start_time {
            return Err(Error::InvalidTimeRange);
        }
        if taking_amount_start <= taking_amount_end {
            return Err(Error::InvalidAmountRange);
        }
        let current_time = env.ledger_timestamp();
        if current_time < auction_start_time {
            return Ok(taking_amount_start);
        }
        if current_time >= auction_end_time {
            return Ok(taking_amount_end);
        }
        let time_elapsed: u64 = current_time - auction_start_time;
        let total_duration: u64 = auction_end_time - auction_start_time;
        let price_difference = match taking_amount_start.checked_sub(taking_amount_end) {
            Some(d) => d,
            None => {
                return Err(Error::ArithmeticOverflow);
            },
        };
        let product = match price_difference.checked_mul(time_elapsed as i128) {
            Some(p) => p,
            None => {
                return Err(Error::ArithmeticOverflow);
            },
        };
        proof {
            lemma_share_bounds(price_difference as int, time_elapsed as int, total_duration as int);
        }
        let price_reduction = product / (total_duration as i128);
        Ok(taking_amount_start - price_reduction)
    }

    /// The making amount that an ascending auction offers at the ledger's
    /// current time. `taking_amount` does not enter the result.
    pub fn calculate_making_amount(
        env: &Env,
        taking_amount: i128,
        making_amount_start: i128,
        making_amount_end: i128,
        auction_start_time: u64,
        auction_end_time: u64,
    ) -> (r: Result<i128, Error>)
        ensures
            r == making_amount_result(
                env.timestamp,
                making_amount_start,
                making_amount_end,
                auction_start_time,
                auction_end_time,
            ),
    {
        if auction_end_time <= auction_start_time {
            return Err(Error::InvalidTimeRange);
        }
        if making_amount_start >= making_amount_end {
            return Err(Error::InvalidAmountRange);
        }
        let current_time = env.ledger_timestamp();
        if current_time < auction_start_time {
            return Ok(making_amount_start);
        }
        if current_time >= auction_end_time {
            return Ok(making_amount_end);
        }
        let time_elapsed: u64 = current_time - auction_start_time;
        let total_duration: u64 = auction_end_time - auction_start_time;
        let amount_difference = match making_amount_end.checked_sub(making_amount_start) {
            Some(d) => d,
            None => {
                return Err(Error::ArithmeticOverflow);
            },
        };
        let product = match amount_difference.checked_mul(time_elapsed as i128) {
            Some(p) => p,
            None => {
                return Err(Error::ArithmeticOverflow);
            },
        };
        proof {
            lemma_share_bounds(amount_difference as int, time_elapsed as int, total_duration as int);
        }
        let amount_increase = product / (total_duration as i128);
        Ok(making_amount_start + amount_increase)
    }
}

/// Between its two amounts a descending price stays: it never exceeds the
/// start amount and never falls below the end amount.
pub proof fn lemma_interpolate_between(start: int, end: int, t_start: int, t_end: int, now: int)
    requires
        t_start < t_end,
    ensures
        start >= end ==> end <= interpolate(start, end, t_start, t_end, now) <= start,
        start <= end ==> start <= interpolate(start, end, t_start, t_end, now) <= end,
{
    if t_start <= now < t_end {
        if start >= end {
            lemma_share_bounds(start - end, now - t_start, t_end - t_start);
        } else {
            lemma_share_bounds(end - start, now - t_start, t_end - t_start);
        }
    }
}

/// Later is never dearer: the interpolated amount of a descending line does
/// not rise as time goes on, whether the two times lie before, inside or
/// after the window.
pub proof fn lemma_interpolate_descends(
    start: int,
    end: int,
    t_start: int,
    t_end: int,
    earlier: int,
    later: int,
)
    requires
        t_start < t_end,
        start >= end,
        earlier <= later,
    ensures
        interpolate(start, end, t_start, t_end, earlier) >= interpolate(
            start,
            end,
            t_start,
            t_end,
            later,
        ),
{
    lemma_interpolate_between(start, end, t_start, t_end, earlier);
    lemma_interpolate_between(start, end, t_start, t_end, later);
    if t_start <= earlier && later < t_end {
        let distance = start - end;
        let duration = t_end - t_start;
        let x = earlier - t_start;
        let y = later - t_start;
        assert(distance * x <= distance * y) by (nonlinear_arith)
            requires
                0 <= distance,
                x <= y,
        ;
        vstd::arithmetic::div_mod::lemma_div_is_ordered(distance * x, distance * y, duration);
    }
}

/// The pricer is monotone and exact at its endpoints. For a window
/// `auction_start_time < auction_end_time` and amounts
/// `taking_amount_start > taking_amount_end`: of two times the later one
/// never gets the higher answer; before the window and at its start the
/// answer is the start amount; from its end on it is the end amount. Inside
/// the window the pricer fails where the distance of the two amounts, or its
/// product with the elapsed time, leaves the 128-bit range, so the claims
/// that reach into the window ask that it answered.
pub proof fn lemma_taking_amount_monotone_exact_at_endpoints(
    earlier: u64,
    later: u64,
    taking_amount_start: i128,
    taking_amount_end: i128,
    auction_start_time: u64,
    auction_end_time: u64,
)
    requires
        auction_start_time < auction_end_time,
        taking_amount_start > taking_amount_end,
        earlier <= later,
    ensures
        ({
            let first = taking_amount_result(
                earlier,
                taking_amount_start,
                taking_amount_end,
                auction_start_time,
                auction_end_time,
            );
            let second = taking_amount_result(
                later,
                taking_amount_start,
                taking_amount_end,
                auction_start_time,
                auction_end_time,
            );
            &&& first is Ok && second is Ok ==> first->Ok_0 >= second->Ok_0
            &&& first is Ok ==> taking_amount_end <= first->Ok_0 <= taking_amount_start
            &&& earlier < auction_start_time ==> first == Ok::<i128, Error>(taking_amount_start)
            &&& earlier == auction_start_time && first is Ok ==> first == Ok::<i128, Error>(
                taking_amount_start,
            )
            &&& earlier >= auction_end_time ==> first == Ok::<i128, Error>(taking_amount_end)
        }),
{
    let s = taking_amount_start as int;
    let e = taking_amount_end as int;
    let t0 = auction_start_time as int;
    let t1 = auction_end_time as int;
    lemma_interpolate_between(s, e, t0, t1, earlier as int);
    lemma_interpolate_between(s, e, t0, t1, later as int);
    lemma_interpolate_descends(s, e, t0, t1, earlier as int, later as int);
    assert(((s - e) * 0) / (t1 - t0) == 0) by (nonlinear_arith)
        requires
            t1 - t0 > 0,
    ;
}

/// The pricer is linear at the midpoint. For a window
/// `auction_start_time < auction_end_time` and amounts
/// `taking_amount_start > taking_amount_end`, the answer at the time
/// `(auction_start_time + auction_end_time) / 2` is the start amount less
/// the distance of the amounts times half the window's length (rounded
/// down), divided by the window's length (rounded toward zero). Where that
/// product or the distance leaves the 128-bit range the pricer fails with
/// `ArithmeticOverflow` instead.
pub proof fn lemma_taking_amount_linear_midpoint(
    taking_amount_start: i128,
    taking_amount_end: i128,
    auction_start_time: u64,
    auction_end_time: u64,
)
    requires
        auction_start_time < auction_end_time,
        taking_amount_start > taking_amount_end,
    ensures
        ({
            let s = taking_amount_start as int;
            let e = taking_amount_end as int;
            let duration = auction_end_time - auction_start_time;
            let midpoint = ((auction_start_time + auction_end_time) / 2) as u64;
            let answer = taking_amount_result(
                midpoint,
                taking_amount_start,
                taking_amount_end,
                auction_start_time,
                auction_end_time,
            );
            &&& midpoint == (auction_start_time + auction_end_time) / 2
            &&& match answer {
                Ok(amount) => amount == s - ((s - e) * (duration / 2)) / duration,
                Err(err) => err == Error::ArithmeticOverflow && (s - e > i128::MAX || (s - e) * (
                duration / 2) > i128::MAX),
            }
        }),
{
    let s = taking_amount_start as int;
    let e = taking_amount_end as int;
    let t0 = auction_start_time as int;
    let t1 = auction_end_time as int;
    let mid = (t0 + t1) / 2;
    assert(mid - t0 == (t1 - t0) / 2);
    lemma_interpolate_between(s, e, t0, t1, mid);
}

} // verus!
