//! Delivery contexts (one payload shared by many targets) and delivery
//! requests (one target each, with a retry counter).
use std::sync::Arc;
use vstd::prelude::*;

verus! {

/// The retry limit used when a submission does not give one.
pub const DEFAULT_RETRY_LIMIT: usize = 10;

/// The payload and retry policy shared by every request of one submission.
#[derive(Debug)]
pub struct Context {
    pub retry_limit: usize,
    pub body: Vec<u8>,
    pub identity: String,
}

/// One target of one submission, with the number of retries spent so far.
#[derive(Debug)]
pub struct Request {
    pub context: Arc<Context>,
    pub retry_count: usize,
    pub target: String,
    pub identity: String,
}

/// Relies on `Arc::clone`: the new handle points at the same value.
#[verifier::external_body]
fn share_context(c: &Arc<Context>) -> (r: Arc<Context>)
    ensures
        r == *c,
{
    Arc::clone(c)
}

impl Context {
    /// Builds a context; a missing retry limit becomes `DEFAULT_RETRY_LIMIT`.
    pub fn new(body: Vec<u8>, retry_limit: Option<usize>, identity: String) -> (r: Context)
        ensures
            r.body@ == body@,
            r.identity@ == identity@,
            r.retry_limit == match retry_limit {
                Some(l) => l,
                None => DEFAULT_RETRY_LIMIT,
            },
    {
        let limit = match retry_limit {
            Some(l) => l,
            None => DEFAULT_RETRY_LIMIT,
        };
        Context { retry_limit: limit, body, identity }
    }
}

impl Request {
    /// A first attempt (no retries spent) at `target`.
    pub fn new(context: Arc<Context>, target: String, identity: String) -> (r: Request)
        ensures
            r.context == context,
            r.retry_count == 0,
            r.target@ == target@,
            r.identity@ == identity@,
    {
        Request { context, retry_count: 0, target, identity }
    }

    /// The same request, with one more retry spent.
    pub fn into_retry(self) -> (r: Request)
        requires
            self.retry_count < usize::MAX,
        ensures
            r.retry_count == self.retry_count + 1,
            r.context == self.context,
            r.target@ == self.target@,
            r.identity@ == self.identity@,
    {
        let mut s = self;
        s.retry_count = s.retry_count + 1;
        s
    }
}

/// Whether a count of live requests on one context is worth reporting as
/// progress (ten, a hundred or a thousand left).
pub fn is_progress_milestone(count: usize) -> (r: bool)
    ensures
        r == (count == 10 || count == 100 || count == 1000),
{
    count == 10 || count == 100 || count == 1000
}

/// Builds one request per target, all sharing one context: the request for
/// `targets[i]` is labelled `identities[i]` and has spent no retries.
pub fn build_requests(context: Context, targets: &Vec<String>, identities: &Vec<String>) -> (r: Vec<
    Request,
>)
    requires
        identities@.len() == targets@.len(),
    ensures
        r@.len() == targets@.len(),
        forall|i: int|
            0 <= i < r@.len() ==> {
                &&& *r@[i].context == context
                &&& r@[i].context == r@[0].context
                &&& r@[i].retry_count == 0
                &&& r@[i].target@ == targets@[i]@
                &&& r@[i].identity@ == identities@[i]@
            },
{
    let shared = Arc::new(context);
    let mut out: Vec<Request> = Vec::new();
    let mut i: usize = 0;
    while i < targets.len()
        invariant
            i <= targets@.len(),
            identities@.len() == targets@.len(),
            *shared == context,
            out@.len() == i,
            forall|j: int|
                0 <= j < i ==> {
                    &&& out@[j].context == shared
                    &&& out@[j].retry_count == 0
                    &&& out@[j].target@ == targets@[j]@
                    &&& out@[j].identity@ == identities@[j]@
                },
        decreases targets@.len() - i,
    {
        let req = Request::new(share_context(&shared), targets[i].clone(), identities[i].clone());
        out.push(req);
        i = i + 1;
    }
    out
}

} // verus!
