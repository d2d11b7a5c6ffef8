//! The handler of change notices. A notice leads to a new listing of the
//! branches only if the rate limit lets it through and no other listing is
//! under way; otherwise it is dropped, not queued.

use std::sync::Arc;
use tokio::sync::Mutex;
use tokio::sync::MutexGuard;
use vstd::prelude::*;

verus! {

/// `tokio::sync::Mutex`: nothing of it is looked into.
#[verifier::external_type_specification]
#[verifier::external_body]
#[verifier::reject_recursive_types(T)]
pub struct ExMutex<T: ?Sized>(tokio::sync::Mutex<T>);

/// `tokio::sync::MutexGuard`: nothing of it is looked into.
#[verifier::external_type_specification]
#[verifier::external_body]
#[verifier::reject_recursive_types(T)]
pub struct ExMutexGuard<'a, T: ?Sized>(tokio::sync::MutexGuard<'a, T>);

/// `governor::Quota`: nothing of it is looked into.
#[verifier::external_type_specification]
#[verifier::external_body]
pub struct ExQuota(governor::Quota);

/// The time in milliseconds that has to pass between two listings.
pub const PERIOD_MILLIS: u64 = 100;

/// The quota that `governor` makes for a period of `millis` milliseconds:
/// it lets one through at once and one more after every period.
pub uninterp spec fn quota_for(millis: u64) -> Option<governor::Quota>;

/// `Quota::with_period`: the quota that lets one through in every period
/// of `millis` milliseconds; there is none for a period of no length.
#[verifier::external_body]
fn quota_per(millis: u64) -> (quota: Option<governor::Quota>)
    ensures
        quota == quota_for(millis),
        quota is Some <==> millis > 0,
{
    governor::Quota::with_period(std::time::Duration::from_millis(millis))
}

/// The rate limit of the handler: one listing in every period of
/// `PERIOD_MILLIS` milliseconds, for all projects together.
pub fn quota() -> (quota: governor::Quota)
    ensures
        quota_for(PERIOD_MILLIS) == Some(quota),
{
    quota_per(PERIOD_MILLIS).unwrap()
}

/// `Mutex::new`: a mutex around `inner`, not locked.
#[verifier::external_body]
fn new_mutex<T>(inner: T) -> Mutex<T> {
    Mutex::new(inner)
}

/// `Mutex::try_lock`: the guard of the mutex, or `None` where the mutex is
/// locked. It does not wait.
#[verifier::external_body]
fn try_lock<'a, T>(mutex: &'a Mutex<T>) -> Option<MutexGuard<'a, T>> {
    match mutex.try_lock() {
        Ok(guard) => Some(guard),
        Err(_) => None,
    }
}

/// What becomes of a change notice.
#[derive(Debug, Clone, Copy, PartialEq, Eq, Structural)]
pub enum Admission {
    /// The rate limit does not let it through: it is dropped.
    Limited,
    /// Another listing is under way: it is dropped.
    Busy,
    /// The branches are listed anew.
    Admitted,
}

/// What becomes of a change notice, from what the rate limit says and from
/// whether no other listing is under way. The rate limit is asked first.
pub open spec fn admission(within_limit: bool, idle: bool) -> Admission {
    if !within_limit {
        Admission::Limited
    } else if !idle {
        Admission::Busy
    } else {
        Admission::Admitted
    }
}

/// What becomes of a change notice.
pub fn decide(within_limit: bool, idle: bool) -> (admitted: Admission)
    ensures
        admitted == admission(within_limit, idle),
{
    if !within_limit {
        Admission::Limited
    } else if !idle {
        Admission::Busy
    } else {
        Admission::Admitted
    }
}

/// The branches of a project with the files that were passed over.
#[derive(Debug, PartialEq, Eq)]
pub struct VirtualBranches<B> {
    pub branches: Vec<B>,
    pub skipped_files: Vec<String>,
}

/// What the handler sends out.
#[derive(Debug, PartialEq, Eq)]
pub enum Event<B> {
    /// The branches of the project have changed: this is their new list.
    VirtualBranches { project_id: String, listing: VirtualBranches<B> },
}

/// How listing the branches went.
pub enum Listing<B, E> {
    /// The branches, and the files that were passed over.
    Listed(VirtualBranches<B>),
    /// The project does not pass verification right now.
    Unverified,
    /// The listing failed for another reason.
    Failed(E),
}

/// The handler around the one thing that lists the branches.
#[verifier::reject_recursive_types(I)]
pub struct Handler<I> {
    inner: Arc<Mutex<I>>,
}

/// The part of the handler that lists the branches; it decides what is sent
/// out.
pub struct InnerHandler {}

impl InnerHandler {
    /// The events to send out for a listing of the branches of
    /// `project_id`: one event with the new list; nothing where the project
    /// does not pass verification; the error of any other failure.
    pub fn handle<B, E>(project_id: &str, listing: Listing<B, E>) -> (events: Result<
        Vec<Event<B>>,
        E,
    >)
        ensures
            match listing {
                Listing::Listed(branches) => events matches Ok(sent) && sent@.len() == 1 && (
                sent@[0] matches Event::VirtualBranches { project_id: of, listing: list } && of@
                    == project_id@ && list == branches),
                Listing::Unverified => events matches Ok(sent) && sent@.len() == 0,
                Listing::Failed(error) => events matches Err(cause) && cause == error,
            },
    {
        match listing {
            Listing::Listed(branches) => {
                let mut sent: Vec<Event<B>> = Vec::new();
                sent.push(
                    Event::VirtualBranches { project_id: project_id.to_owned(), listing: branches },
                );
                Ok(sent)
            },
            Listing::Unverified => Ok(Vec::new()),
            Listing::Failed(error) => Err(error),
        }
    }
}

impl<I> Handler<I> {
    /// A handler around `inner`.
    pub fn new(inner: I) -> (handler: Handler<I>) {
        Handler { inner: Arc::new(new_mutex(inner)) }
    }

    /// Whether a change notice leads to a listing: the guard under which
    /// the listing is to be made, or `None` where the notice is dropped.
    /// A notice that the rate limit does not let through is always
    /// dropped, and the lock is then not tried. The lock is never waited
    /// for.
    pub fn handle(&self, within_limit: bool) -> (guard: Option<MutexGuard<'_, I>>)
        ensures
            !within_limit ==> guard is None,
    {
        if !within_limit {
            return None;
        }
        let guard = try_lock(&self.inner);
        match decide(within_limit, guard.is_some()) {
            Admission::Admitted => guard,
            _ => None,
        }
    }
}

} // verus!
