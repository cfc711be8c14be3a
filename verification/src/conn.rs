//! The connection manager's failover decisions: which endpoint a request
//! attempt uses, what happens when a send fails, and when the whole
//! attempt gives up with `ConnectionError`.
//!
//! The transport itself performs the sends; the manager only decides. A
//! request attempt tries each endpoint at most once, in rotation from the
//! active one, and reconnection is lazy: the next request starts from the
//! endpoint the last failure rotated to.

use vstd::prelude::*;

use crate::errors::ClientError;

verus! {

/// What the transport reports back about one send.
pub enum SendOutcome {
    /// The request was delivered and answered.
    Delivered,
    /// The endpoint was unreachable or the transport failed.
    TransportFailed,
    /// The server rejected the request's auth token.
    AuthRejected,
}

/// What the caller of the transport is to do next.
#[derive(Debug, PartialEq, Eq, Structural)]
pub enum SendAction {
    /// Send (again) through the endpoint at this index.
    UseEndpoint(usize),
    /// Give up the attempt with this error.
    Fail(ClientError),
    /// Force one token refresh, then retry the request once.
    RefreshAndRetry(usize),
    /// The request is complete.
    Done,
}

/// The connection manager: the ordered endpoint set and the index of the
/// active endpoint.
pub struct ConnManager {
    pub endpoints: Vec<String>,
    pub active: usize,
}

impl ConnManager {
    /// Well-formedness: at least one endpoint, and the active index in
    /// range.
    pub open spec fn wf(&self) -> bool {
        self.endpoints@.len() > 0 && (self.active as int) < self.endpoints@.len()
    }

    /// A manager over the given endpoints, starting at the first.
    pub fn new(endpoints: Vec<String>) -> (r: ConnManager)
        requires
            endpoints@.len() > 0,
        ensures
            r.wf(),
            r.endpoints == endpoints,
            r.active == 0,
    {
        ConnManager { endpoints, active: 0 }
    }

    /// The index of the endpoint a new request attempt uses.
    pub fn begin_attempt(&self) -> (r: usize)
        requires
            self.wf(),
        ensures
            r == self.active,
    {
        self.active
    }

    /// The decision after one send: a delivered request is done; a
    /// transport failure rotates the active endpoint and retries there,
    /// until every endpoint has been tried once in this attempt, which
    /// fails the attempt with `ConnectionError`; an auth rejection asks
    /// for one forced token refresh and a single retry on the same
    /// endpoint, and fails with `AuthError` if already retried.
    pub fn on_send_outcome(&mut self, outcome: SendOutcome, tried: usize, auth_retried: bool) -> (r:
        SendAction)
        requires
            old(self).wf(),
        ensures
            final(self).wf(),
            final(self).endpoints == old(self).endpoints,
            outcome matches SendOutcome::Delivered ==> r == SendAction::Done && final(self).active
                == old(self).active,
            outcome matches SendOutcome::TransportFailed ==> ({
                &&& final(self).active == ((old(self).active + 1) as int) % (
                old(self).endpoints@.len() as int)
                &&& (tried as int) + 1 < old(self).endpoints@.len() ==> r
                    == SendAction::UseEndpoint(final(self).active)
                &&& (tried as int) + 1 >= old(self).endpoints@.len() ==> r == SendAction::Fail(
                    ClientError::ConnectionError,
                )
            }),
            outcome matches SendOutcome::AuthRejected ==> final(self).active == old(self).active
                && (if auth_retried {
                r == SendAction::Fail(ClientError::AuthError)
            } else {
                r == SendAction::RefreshAndRetry(old(self).active)
            }),
    {
        match outcome {
            SendOutcome::Delivered => SendAction::Done,
            SendOutcome::TransportFailed => {
                let n = self.endpoints.len();
                proof {
                    assert(self.active < self.endpoints@.len());
                }
                let next = if self.active + 1 >= n {
                    0
                } else {
                    self.active + 1
                };
                proof {
                    let a = self.active as int;
                    let n = self.endpoints@.len() as int;
                    assert((a + 1) % n == (if a + 1 == n {
                        0int
                    } else {
                        a + 1
                    })) by (nonlinear_arith)
                        requires
                            0 <= a < n,
                    ;
                }
                self.active = next;
                if tried >= self.endpoints.len() - 1 {
                    SendAction::Fail(ClientError::ConnectionError)
                } else {
                    SendAction::UseEndpoint(next)
                }
            },
            SendOutcome::AuthRejected => {
                if auth_retried {
                    SendAction::Fail(ClientError::AuthError)
                } else {
                    SendAction::RefreshAndRetry(self.active)
                }
            },
        }
    }
}

} // verus!
