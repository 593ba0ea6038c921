use vstd::prelude::*;

verus! {

/// How often a failing operation may be retried.
///
/// `max_retries == None` keeps retrying forever; `Some(n)` allows `n`
/// retries after the first attempt, so `n + 1` attempts in all.
#[derive(Clone, Copy, Debug, PartialEq, Eq, Structural)]
pub struct RetryPolicy {
    pub max_retries: Option<u64>,
}

impl RetryPolicy {
    /// Whether another attempt may follow after `failures` failed attempts.
    pub open spec fn allows_spec(self, failures: u64) -> bool {
        match self.max_retries {
            None => true,
            Some(n) => failures <= n,
        }
    }

    /// The policy that never gives up.
    pub fn forever() -> (r: Self)
        ensures
            r.max_retries is None,
    {
        RetryPolicy { max_retries: None }
    }

    /// The policy that gives up after `n` retries.
    pub fn at_most(n: u64) -> (r: Self)
        ensures
            r.max_retries == Some(n),
    {
        RetryPolicy { max_retries: Some(n) }
    }

    pub fn allows(&self, failures: u64) -> (r: bool)
        ensures
            r == self.allows_spec(failures),
    {
        match self.max_retries {
            None => true,
            Some(n) => failures <= n,
        }
    }
}

/// A failure counter that stops at the largest `u64`.
pub open spec fn bumped(failures: u64) -> u64 {
    if failures == u64::MAX {
        failures
    } else {
        (failures + 1) as u64
    }
}

pub fn bump(failures: u64) -> (r: u64)
    ensures
        r == bumped(failures),
{
    if failures == u64::MAX {
        failures
    } else {
        failures + 1
    }
}

} // verus!
