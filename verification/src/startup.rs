//! Bringing the services up at start: how often the database is tried
//! before the process gives up.

use vstd::prelude::*;

verus! {

/// How many times a failed connection to the database is tried again.
pub const MAX_RETRIES: u32 = 5;

/// The pause before a connection is tried again, in seconds.
pub const RETRY_DELAY_SECS: u64 = 2;

/// The time that one attempt to connect to the database may take, in
/// seconds.
pub const ACQUIRE_TIMEOUT_SECS: u64 = 3;

/// What is said when the database is given up.
pub const GIVE_UP_MESSAGE: &'static str = "資料庫連線多次重試失敗，放棄啟動";

/// What to do after a connection has failed.
#[derive(Clone, Copy, Debug, PartialEq, Eq, Structural)]
pub enum Retry {
    /// Wait, then try again; `retries` counts the attempts that have
    /// failed so far.
    Again { retries: u32, wait_secs: u64 },
    /// Try no more.
    GiveUp,
}

/// What follows a failed attempt that `retries` failed attempts came
/// before.
pub open spec fn after_failure(retries: u32) -> Retry {
    if retries < MAX_RETRIES {
        Retry::Again { retries: (retries + 1) as u32, wait_secs: RETRY_DELAY_SECS }
    } else {
        Retry::GiveUp
    }
}

/// Whether the attempt that follows `failures` failed ones in a row is
/// still made.
pub open spec fn is_attempted(failures: nat) -> bool
    decreases failures,
{
    if failures == 0 {
        true
    } else {
        is_attempted((failures - 1) as nat) && failures - 1 <= u32::MAX && after_failure(
            (failures - 1) as u32,
        ) is Again
    }
}

/// The database is tried once and then, as long as it fails, five times
/// more: a seventh attempt is never made.
pub proof fn lemma_attempts_are_bounded(failures: nat)
    ensures
        is_attempted(failures) <==> failures <= MAX_RETRIES,
    decreases failures,
{
    if failures > 0 {
        lemma_attempts_are_bounded((failures - 1) as nat);
    }
}

/// Decides what to do after a connection to the database has failed, when
/// `retries` attempts had failed before it.
pub fn after_failed_connect(retries: u32) -> (next: Retry)
    ensures
        next == after_failure(retries),
{
    if retries < MAX_RETRIES {
        Retry::Again { retries: retries + 1, wait_secs: RETRY_DELAY_SECS }
    } else {
        Retry::GiveUp
    }
}

} // verus!
