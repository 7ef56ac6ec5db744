use vstd::prelude::*;

verus! {

/// How many attempts a bounded-retry call performs when every attempt
/// fails: one even when the configured bound is zero, else the bound
/// itself.
pub open spec fn attempts_allowed(max_retries: u64) -> int {
    if max_retries <= 1 {
        1
    } else {
        max_retries as int
    }
}

/// Calls `func` until it succeeds, at most `max_retries` times (at least
/// once), and also reports how many attempts were made.  An error result
/// means every allowed attempt was made and failed, and is the failure
/// of the last one.
pub fn do_retry_counted<F, R, E>(func: &F, max_retries: u64) -> (r: (Result<R, E>, u64))
    where F: Fn() -> Result<R, E>,
    requires
        call_requires(*func, ()),
    ensures
        call_ensures(*func, (), r.0),
        1 <= r.1 <= attempts_allowed(max_retries),
        r.0 is Err ==> r.1 == attempts_allowed(max_retries),
{
    let mut attempts: u64 = 1;
    let mut result = func();
    while result.is_err() && attempts < max_retries
        invariant
            call_requires(*func, ()),
            call_ensures(*func, (), result),
            1 <= attempts <= attempts_allowed(max_retries),
        decreases max_retries - attempts,
    {
        result = func();
        attempts = attempts + 1;
    }
    (result, attempts)
}

/// Calls `func` until it succeeds, at most `max_retries` times and at
/// least once; whatever comes back is the outcome of one of the calls.
pub fn do_retry<F, R, E>(func: F, max_retries: u64) -> (result: Result<R, E>)
    where F: Fn() -> Result<R, E>,
    requires
        call_requires(func, ()),
    ensures
        call_ensures(func, (), result),
{
    let r = do_retry_counted(&func, max_retries);
    r.0
}

} // verus!
