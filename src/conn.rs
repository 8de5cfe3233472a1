//! The decisions of a connection actor. The actor itself (handshake, the
//! wait on its queue and its heartbeat timer, the exchanges) runs around
//! these: it hands each event in and performs the action that comes back.
use crate::limiter::{after_cooldown, after_notfound, classify, raised_expiry, Limiter, Status};
use crate::query::{dispatch_uri, parsed_query, rewritten, with_query};
use crate::request::Request;
use vstd::prelude::*;

verus! {

/// Exchanges in flight on one connection at most (below the remote's
/// advertised maximum of concurrent streams).
pub const MAX_CONCURRENT_STREAMS: usize = 98;

/// Exchanges issued on one connection before it retires (below the remote's
/// hard limit of requests per connection).
pub const EXCHANGE_LIMIT: usize = 9990;

/// The cooldown used when a rate-limit response gives no usable duration.
pub const DEFAULT_RETRY_AFTER_MS: u64 = 600000;

/// The idle time after which a connection sends a liveness probe.
pub const HEARTBEAT_INTERVAL_MS: u64 = 30000;

/// Whether the negotiated application protocol is HTTP/2 (`h2`).
pub fn negotiated_h2(protocol: Option<&[u8]>) -> (r: bool)
    ensures
        r == (protocol.is_some() && protocol.unwrap()@ == seq![104u8, 50u8]),
{
    match protocol {
        Some(p) => {
            if p.len() == 2 && p[0] == 104u8 && p[1] == 50u8 {
                proof {
                    assert(p@ =~= seq![104u8, 50u8]);
                }
                true
            } else {
                false
            }
        },
        None => false,
    }
}

/// A permit pool: how many exchanges are in flight, and how many may be.
pub struct PoolView {
    pub capacity: nat,
    pub in_flight: nat,
}

/// A pool with `capacity` permits, none taken.
pub open spec fn empty_pool(capacity: nat) -> PoolView {
    PoolView { capacity, in_flight: 0 }
}

/// One attempt to take a permit: granted exactly while one is free.
pub open spec fn acquire_step(p: PoolView) -> (PoolView, bool) {
    if p.in_flight < p.capacity {
        (PoolView { capacity: p.capacity, in_flight: p.in_flight + 1 }, true)
    } else {
        (p, false)
    }
}

/// Giving a permit back.
pub open spec fn release_step(p: PoolView) -> PoolView {
    PoolView { capacity: p.capacity, in_flight: (p.in_flight - 1) as nat }
}

/// The pool after `k` attempts to take a permit, none given back.
pub open spec fn after_attempts(p: PoolView, k: nat) -> PoolView
    decreases k,
{
    if k == 0 {
        p
    } else {
        acquire_step(after_attempts(p, (k - 1) as nat)).0
    }
}

/// The concurrency ceiling of one connection: the permits of its exchanges.
pub struct PermitPool {
    capacity: usize,
    in_flight: usize,
}

impl View for PermitPool {
    type V = PoolView;

    closed spec fn view(&self) -> PoolView {
        PoolView { capacity: self.capacity as nat, in_flight: self.in_flight as nat }
    }
}

impl PermitPool {
    /// A pool of `capacity` free permits.
    pub fn new(capacity: usize) -> (r: PermitPool)
        ensures
            r@ == empty_pool(capacity as nat),
    {
        PermitPool { capacity, in_flight: 0 }
    }

    /// Takes a permit if one is free.
    pub fn try_acquire(&mut self) -> (r: bool)
        ensures
            (final(self)@, r) == acquire_step(old(self)@),
    {
        if self.in_flight < self.capacity {
            self.in_flight = self.in_flight + 1;
            true
        } else {
            false
        }
    }

    /// Gives a permit back.
    pub fn release(&mut self)
        requires
            old(self)@.in_flight > 0,
        ensures
            final(self)@ == release_step(old(self)@),
    {
        self.in_flight = self.in_flight - 1;
    }

    /// The exchanges in flight.
    pub fn in_flight(&self) -> (r: usize)
        ensures
            r == self@.in_flight,
    {
        self.in_flight
    }

    /// The ceiling.
    pub fn capacity(&self) -> (r: usize)
        ensures
            r == self@.capacity,
    {
        self.capacity
    }
}

/// From an empty pool of `n` permits, `n + extra` attempts without a release
/// grant exactly `n`: the next attempt is refused, and is granted again only
/// once a permit comes back. No attempt ever takes the pool past its ceiling.
pub proof fn ceiling_bounds_in_flight(n: nat, extra: nat)
    ensures
        after_attempts(empty_pool(n), n + extra) == (PoolView { capacity: n, in_flight: n }),
        !acquire_step(after_attempts(empty_pool(n), n + extra)).1,
        n > 0 ==> acquire_step(release_step(after_attempts(empty_pool(n), n + extra))).1,
        forall|k: nat| #[trigger] after_attempts(empty_pool(n), k).in_flight <= n,
{
    assert forall|k: nat| #[trigger] after_attempts(empty_pool(n), k) == (PoolView {
        capacity: n,
        in_flight: if k < n { k } else { n },
    }) by {
        attempts_from_empty(n, k);
    }
    assert(after_attempts(empty_pool(n), n + extra) == (PoolView { capacity: n, in_flight: n }));
}

proof fn attempts_from_empty(n: nat, k: nat)
    ensures
        after_attempts(empty_pool(n), k) == (PoolView { capacity: n, in_flight: if k < n { k } else { n } }),
    decreases k,
{
    if k > 0 {
        attempts_from_empty(n, (k - 1) as nat);
    }
}

/// A connection's count of issued exchanges against its retirement limit.
pub struct ConnView {
    pub sent: nat,
    pub limit: nat,
}

/// Whether a connection takes another job.
pub open spec fn accepts(c: ConnView) -> bool {
    c.sent < c.limit
}

/// A connection after one more exchange.
pub open spec fn after_dispatch(c: ConnView) -> ConnView {
    ConnView { sent: c.sent + 1, limit: c.limit }
}

/// What a connection does with a job taken from its queue.
#[derive(Debug)]
pub enum JobAction {
    /// Issue the exchange to this address.
    Dispatch(String),
    /// Put the job back on the retry queue after this many milliseconds,
    /// spending no retry.
    Reschedule(u64),
    /// Drop it: the target is known to be gone.
    DropKnown404,
    /// Drop it: it has used up its retries.
    DropRetryLimit,
    /// Drop it: the target is no URL.
    DropInvalidTarget,
}

/// Whether `a` is the action owed to a job whose classification is `s` and
/// whose target is `target`.
pub open spec fn job_action_is(a: JobAction, s: Status, target: Seq<char>) -> bool {
    match s {
        Status::Pass => match parsed_query(target) {
            Some(pairs) => a is Dispatch && with_query(target, rewritten(pairs)) == Some(a->Dispatch_0@),
            None => a is DropInvalidTarget,
        },
        Status::Ratelimited(ms) => a == JobAction::Reschedule(ms),
        Status::Known404 => a is DropKnown404,
        Status::RetryLimitReached => a is DropRetryLimit,
    }
}

/// One physical connection's exchange count, which retires it.
pub struct Connection {
    sent: usize,
    limit: usize,
}

impl View for Connection {
    type V = ConnView;

    closed spec fn view(&self) -> ConnView {
        ConnView { sent: self.sent as nat, limit: self.limit as nat }
    }
}

impl Connection {
    /// A fresh connection that retires after `limit` exchanges.
    pub fn new(limit: usize) -> (r: Connection)
        ensures
            r@ == (ConnView { sent: 0, limit: limit as nat }),
    {
        Connection { sent: 0, limit }
    }

    /// Whether the connection takes another job.
    pub fn accepting(&self) -> (r: bool)
        ensures
            r == accepts(self@),
    {
        self.sent < self.limit
    }

    /// The exchanges issued so far.
    pub fn sent(&self) -> (r: usize)
        ensures
            r == self@.sent,
    {
        self.sent
    }

    /// Decides what to do with `request`, taken from the queue at `now`:
    /// classify it against `limiter`, and if it passes, dispatch it to its
    /// target with the query rewritten, counting one exchange.
    pub fn on_job(&mut self, limiter: &Limiter, request: &Request, now: u64) -> (r: JobAction)
        requires
            accepts(old(self)@),
        ensures
            job_action_is(r, classify(limiter@, request.retry_count, request.context.retry_limit, request.target@, now), request.target@),
            final(self)@ == (if r is Dispatch { after_dispatch(old(self)@) } else { old(self)@ }),
    {
        match limiter.current(request, now) {
            Status::Pass => match dispatch_uri(&request.target) {
                Some(uri) => {
                    self.sent = self.sent + 1;
                    JobAction::Dispatch(uri)
                },
                None => JobAction::DropInvalidTarget,
            },
            Status::Ratelimited(ms) => JobAction::Reschedule(ms),
            Status::Known404 => JobAction::DropKnown404,
            Status::RetryLimitReached => JobAction::DropRetryLimit,
        }
    }
}

/// A connection that has issued its limit of exchanges takes no job, while a
/// fresh one with the same limit does; and issuing an exchange on a
/// connection that takes jobs never carries it past its limit.
pub proof fn retirement_is_final(c: ConnView)
    ensures
        c.sent >= c.limit ==> !accepts(c),
        c.limit > 0 ==> accepts(ConnView { sent: 0, limit: c.limit }),
        accepts(c) ==> after_dispatch(c).sent <= c.limit,
        accepts(c) ==> (accepts(after_dispatch(c)) <==> c.sent + 1 < c.limit),
{
}

/// The families of response status codes that delivery tells apart.
#[derive(Debug, PartialEq, Eq, Structural)]
pub enum StatusClass {
    Success,
    NotFound,
    TooManyRequests,
    ClientError,
    ServerError,
    Other,
}

/// The class of a status code: success (200 to 299) first, then not found
/// (404), too many requests (429), other client errors (400 to 499) and
/// server errors (500 to 599).
pub open spec fn class_of(code: u16) -> StatusClass {
    if 200 <= code < 300 {
        StatusClass::Success
    } else if code == 404 {
        StatusClass::NotFound
    } else if code == 429 {
        StatusClass::TooManyRequests
    } else if 400 <= code < 500 {
        StatusClass::ClientError
    } else if 500 <= code < 600 {
        StatusClass::ServerError
    } else {
        StatusClass::Other
    }
}

/// Classifies a response status code.
pub fn status_class(code: u16) -> (r: StatusClass)
    ensures
        r == class_of(code),
{
    if 200 <= code && code < 300 {
        StatusClass::Success
    } else if code == 404 {
        StatusClass::NotFound
    } else if code == 429 {
        StatusClass::TooManyRequests
    } else if 400 <= code && code < 500 {
        StatusClass::ClientError
    } else if 500 <= code && code < 600 {
        StatusClass::ServerError
    } else {
        StatusClass::Other
    }
}

/// The cooldown to apply for a rate-limit response: the one its body gave,
/// else `DEFAULT_RETRY_AFTER_MS`.
pub fn retry_after_or_default(parsed: Option<u64>) -> (r: u64)
    ensures
        r == (match parsed {
            Some(ms) => ms,
            None => DEFAULT_RETRY_AFTER_MS,
        }),
{
    match parsed {
        Some(ms) => ms,
        None => DEFAULT_RETRY_AFTER_MS,
    }
}

/// What becomes of a request once its exchange has ended.
#[derive(Debug, PartialEq, Eq, Structural)]
pub enum Disposition {
    /// Delivered; nothing more to do.
    Delivered,
    /// The target is gone; it is now known dead and the request is dropped.
    MarkedDead,
    /// Rate limited: retry after this many milliseconds.
    Cooldown(u64),
    /// Refused by the remote; dropped.
    Rejected,
    /// Server error: retry at once.
    RetryNow,
    /// The exchange failed on the connection: retry at once, and report it.
    TransportFailed,
    /// A status of no known family; dropped.
    Unrecognized,
}

/// Handles the end of the exchange for `target` at `now`: `code` is the
/// response status, `None` where waiting for the response failed, and
/// `retry_after` the cooldown that a rate-limit response's body gave, if any.
pub fn handle_response(limiter: &mut Limiter, target: &String, code: Option<u16>, retry_after: Option<u64>, now: u64) -> (r: Disposition)
    ensures
        match code {
            None => r == Disposition::TransportFailed && final(limiter)@ == old(limiter)@,
            Some(c) => match class_of(c) {
                StatusClass::Success => r == Disposition::Delivered && final(limiter)@ == old(limiter)@,
                StatusClass::NotFound => r == Disposition::MarkedDead && final(limiter)@ == after_notfound(old(limiter)@, target@),
                StatusClass::TooManyRequests => {
                    let ms = match retry_after {
                        Some(ms) => ms,
                        None => DEFAULT_RETRY_AFTER_MS,
                    };
                    &&& final(limiter)@ == after_cooldown(old(limiter)@, target@, ms, now)
                    &&& r == Disposition::Cooldown((raised_expiry(old(limiter)@, target@, ms, now) - now) as u64)
                },
                StatusClass::ClientError => r == Disposition::Rejected && final(limiter)@ == old(limiter)@,
                StatusClass::ServerError => r == Disposition::RetryNow && final(limiter)@ == old(limiter)@,
                StatusClass::Other => r == Disposition::Unrecognized && final(limiter)@ == old(limiter)@,
            },
        },
{
    let c = match code {
        Some(c) => c,
        None => return Disposition::TransportFailed,
    };
    match status_class(c) {
        StatusClass::Success => Disposition::Delivered,
        StatusClass::NotFound => {
            limiter.tell_notfound(target);
            Disposition::MarkedDead
        },
        StatusClass::TooManyRequests => {
            let ms = retry_after_or_default(retry_after);
            Disposition::Cooldown(limiter.tell_ratelimit(target, ms, now))
        },
        StatusClass::ClientError => Disposition::Rejected,
        StatusClass::ServerError => Disposition::RetryNow,
        StatusClass::Other => Disposition::Unrecognized,
    }
}

} // verus!
