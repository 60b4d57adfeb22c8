use crate::string::{StringModel, TCString};
use vstd::prelude::*;

verus! {

/// The string that reports an error to the caller: owned text that holds
/// the error's message.
pub fn err_to_tcstring(e: String) -> (r: TCString<'static>)
    ensures
        r@ == StringModel::String(e@),
{
    TCString::from_string(e)
}

/// Reads `Vec::capacity`. Std promises of it only that the vector can hold
/// that many elements without reallocating, so it is never less than the
/// length.
#[verifier::external_body]
fn vec_capacity<T>(vec: &Vec<T>) -> (r: usize)
    ensures
        r >= vec@.len(),
{
    vec.capacity()
}

/// Takes a vector apart into the pointer to its buffer, its length and its
/// capacity, without dropping any element. The pointer owns the buffer and
/// is never NULL, also for an empty vector.
pub fn vec_into_raw_parts<T>(vec: Vec<T>) -> (r: (Option<Vec<T>>, usize, usize))
    ensures
        r.0 == Some(vec),
        r.1 == vec@.len(),
        r.2 >= r.1,
{
    let len = vec.len();
    let cap = vec_capacity(&vec);
    (Some(vec), len, cap)
}

/// The time that a `time_t` from the foreign side stands for, in seconds
/// since the epoch: 0 stands for "no time".
pub open spec fn time_of(time: i64) -> Option<i64> {
    if time != 0 {
        Some(time)
    } else {
        None
    }
}

/// The `time_t` that stands for a time on the foreign side: 0 for "no
/// time".
pub open spec fn time_t_of(ts: Option<i64>) -> i64 {
    match ts {
        Some(secs) => secs,
        None => 0,
    }
}

/// Reads a `time_t` from the foreign side as seconds since the epoch.
/// Gives `None` for 0.
pub fn time_t_to_timestamp(time: i64) -> (r: Option<i64>)
    ensures
        r == time_of(time),
{
    if time != 0 {
        return Some(time);
    }
    None
}

/// Gives a time, in seconds since the epoch, to the foreign side as a
/// `time_t`. Gives 0 for `None`.
pub fn timestamp_to_time_t(ts: Option<i64>) -> (r: i64)
    ensures
        r == time_t_of(ts),
{
    match ts {
        Some(secs) => secs,
        None => 0,
    }
}

/// Every `time_t` comes back as it was after it was read and given out
/// again. A time comes back as it was unless it is the epoch itself, which
/// the foreign side cannot tell from "no time".
pub proof fn lemma_time_round_trip(time: i64, ts: Option<i64>)
    ensures
        time_t_of(time_of(time)) == time,
        ts != Some(0i64) ==> time_of(time_t_of(ts)) == ts,
        time_of(time_t_of(Some(0i64))) == None::<i64>,
{
}

} // verus!
