use vstd::prelude::*;

use crate::correlator::{drain_error, is_pending, make_drain_error, RequestCorrelator, Slot};
use crate::error::{ConnectionError, Error};
use crate::request::{Frame, Request, TransactionType};
use crate::RequestID;

verus! {

/// Where a transaction is in its lifecycle.
#[derive(Clone, Copy, Debug, PartialEq, Eq, Structural)]
pub enum TransactionState {
    Opening,
    Open,
    Closing,
    Closed,
    Failed,
}

/// How a transaction is brought to its end.
#[derive(Clone, Copy, Debug, PartialEq, Eq, Structural)]
pub enum CloseKind {
    Commit,
    Rollback,
    Close,
}

/// The error of an operation on a transaction in a given state: none while it
/// is open, the closed-transaction error otherwise.
pub open spec fn rejection(state: TransactionState, failure: Option<String>) -> Option<Error> {
    if state == TransactionState::Open {
        None
    } else {
        Some(drain_error(failure))
    }
}

/// One transaction's stream: its lifecycle and the requests in flight on it.
pub struct TransactionStream {
    state: TransactionState,
    transaction_type: TransactionType,
    correlator: RequestCorrelator,
    failure: Option<String>,
}

impl TransactionStream {
    pub closed spec fn state(&self) -> TransactionState {
        self.state
    }

    /// The errors that made the stream fail, if it failed.
    pub closed spec fn failure(&self) -> Option<String> {
        self.failure
    }

    /// The request slots of the stream, indexed by identifier.
    pub closed spec fn slots(&self) -> Seq<Slot> {
        self.correlator@
    }

    pub closed spec fn kind(&self) -> TransactionType {
        self.transaction_type
    }

    /// Requests can be written while the stream is opening or open; once it is
    /// closed or failed nothing is pending any more; only a failed stream has errors.
    pub closed spec fn wf(&self) -> bool {
        &&& (self.state == TransactionState::Opening || self.state == TransactionState::Open)
            ==> self.correlator.accepts_requests()
        &&& (self.state == TransactionState::Closed || self.state == TransactionState::Failed) ==> {
            &&& !self.correlator.accepts_requests()
            &&& forall|i: int| 0 <= i < self.correlator@.len() ==> !(#[trigger] self.correlator@[i] is Pending)
        }
        &&& (self.failure is Some <==> self.state == TransactionState::Failed)
    }

    pub open spec fn rejection(&self) -> Option<Error> {
        rejection(self.state(), self.failure())
    }

    pub fn new(transaction_type: TransactionType) -> (r: TransactionStream)
        ensures
            r.wf(),
            r.state() == TransactionState::Opening,
            r.kind() == transaction_type,
            r.slots() == Seq::<Slot>::empty(),
    {
        TransactionStream {
            state: TransactionState::Opening,
            transaction_type,
            correlator: RequestCorrelator::new(),
            failure: None,
        }
    }

    pub fn state_now(&self) -> (r: TransactionState)
        ensures
            r == self.state(),
    {
        self.state
    }

    /// The identifier that the next request on this stream receives.
    pub fn next_request_id(&self) -> (r: RequestID)
        ensures
            r == self.slots().len(),
    {
        self.correlator.next_id()
    }

    /// The error that an operation meets in the current state.
    pub fn closed_error(&self) -> (r: Error)
        requires
            self.state() != TransactionState::Open,
        ensures
            Some(r) == self.rejection(),
    {
        make_drain_error(&self.failure)
    }

    /// Sends the open message; only a stream that is opening and has sent nothing may.
    pub fn open(&mut self) -> (r: Result<Frame, Error>)
        requires
            old(self).wf(),
        ensures
            final(self).wf(),
            final(self).state() == old(self).state(),
            final(self).kind() == old(self).kind(),
            final(self).failure() == old(self).failure(),
            (old(self).state() == TransactionState::Opening && old(self).slots().len() == 0) ==> {
                &&& r matches Ok(frame)
                &&& frame.request_id == 0
                &&& frame.request == (Request::Open { transaction_type: old(self).kind() })
                &&& final(self).slots() == seq![Slot::Pending]
            },
            !(old(self).state() == TransactionState::Opening && old(self).slots().len() == 0) ==> {
                &&& r == Err::<Frame, Error>(Error::Connection(ConnectionError::TransactionIsClosed))
                &&& final(self).slots() == old(self).slots()
            },
    {
        let fresh = match self.state {
            TransactionState::Opening => self.correlator.next_id() == 0,
            _ => false,
        };
        if !fresh {
            return Err(Error::Connection(ConnectionError::TransactionIsClosed));
        }
        let r = self.correlator.submit(Request::Open { transaction_type: self.transaction_type });
        proof {
            assert(self.correlator@ =~= seq![Slot::Pending]);
        }
        r
    }

    /// The server acknowledged the open message: the transaction becomes open.
    pub fn acknowledge_open(&mut self) -> (r: Result<(), Error>)
        requires
            old(self).wf(),
        ensures
            final(self).wf(),
            final(self).slots() == old(self).slots(),
            final(self).kind() == old(self).kind(),
            final(self).failure() == old(self).failure(),
            old(self).state() == TransactionState::Opening ==> r is Ok && final(self).state()
                == TransactionState::Open,
            old(self).state() != TransactionState::Opening ==> r == Err::<(), Error>(
                Error::Connection(ConnectionError::TransactionIsClosed),
            ) && final(self).state() == old(self).state(),
    {
        match self.state {
            TransactionState::Opening => {
                self.state = TransactionState::Open;
                Ok(())
            },
            _ => Err(Error::Connection(ConnectionError::TransactionIsClosed)),
        }
    }

    /// Sends an operation on an open transaction; any other state rejects it at once,
    /// and nothing is then written to the stream.
    pub fn execute(&mut self, request: Request) -> (r: Result<Frame, Error>)
        requires
            old(self).wf(),
            old(self).slots().len() < u64::MAX,
        ensures
            final(self).wf(),
            final(self).state() == old(self).state(),
            final(self).kind() == old(self).kind(),
            final(self).failure() == old(self).failure(),
            old(self).rejection() matches Some(e) ==> r == Err::<Frame, Error>(e) && final(self).slots()
                == old(self).slots(),
            old(self).rejection() is None ==> {
                &&& r matches Ok(frame)
                &&& frame.request_id == old(self).slots().len()
                &&& frame.request == request
                &&& final(self).slots() == old(self).slots().push(Slot::Pending)
            },
    {
        match self.state {
            TransactionState::Open => self.correlator.submit(request),
            _ => Err(self.closed_error()),
        }
    }

    /// Routes a response to its request; an unknown identifier is reported and dropped.
    pub fn on_response(&mut self, request_id: RequestID, payload: Vec<u8>) -> (r: Result<(), Error>)
        requires
            old(self).wf(),
        ensures
            final(self).wf(),
            final(self).state() == old(self).state(),
            final(self).kind() == old(self).kind(),
            final(self).failure() == old(self).failure(),
            final(self).slots() == crate::correlator::after_response(old(self).slots(), request_id, payload),
            r is Ok <==> is_pending(old(self).slots(), request_id),
            r is Err ==> r == Err::<(), Error>(
                Error::Connection(ConnectionError::UnknownRequestId { request_id }),
            ),
    {
        let r = self.correlator.on_response(request_id, payload);
        proof {
            assert forall|i: int| 0 <= i < self.correlator@.len() && (old(self).state() == TransactionState::Closed
                || old(self).state() == TransactionState::Failed) implies !(#[trigger] self.correlator@[i] is Pending) by {
                assert(!is_pending(old(self).correlator@, request_id));
            }
        }
        r
    }

    /// The stream broke: an unfinished transaction fails with `errors`, and every
    /// pending request resolves with the closed-transaction error carrying them.
    pub fn on_stream_error(&mut self, errors: String)
        requires
            old(self).wf(),
        ensures
            final(self).wf(),
            final(self).kind() == old(self).kind(),
            (old(self).state() == TransactionState::Closed || old(self).state() == TransactionState::Failed)
                ==> *final(self) == *old(self),
            !(old(self).state() == TransactionState::Closed || old(self).state() == TransactionState::Failed)
                ==> {
                &&& final(self).state() == TransactionState::Failed
                &&& final(self).failure() == Some(errors)
                &&& final(self).slots() == crate::correlator::after_drain(old(self).slots(), Some(errors))
            },
    {
        match self.state {
            TransactionState::Closed | TransactionState::Failed => {},
            _ => {
                let reason = Some(errors);
                self.correlator.drain(&reason);
                self.failure = reason;
                self.state = TransactionState::Failed;
            },
        }
    }

    /// Starts to end an open transaction. A commit or a rollback is sent as a
    /// request whose frame is handed back; a plain close sends nothing.
    pub fn begin_close(&mut self, kind: CloseKind) -> (r: Result<Option<Frame>, Error>)
        requires
            old(self).wf(),
            old(self).slots().len() < u64::MAX,
        ensures
            final(self).wf(),
            final(self).kind() == old(self).kind(),
            final(self).failure() == old(self).failure(),
            old(self).rejection() matches Some(e) ==> r == Err::<Option<Frame>, Error>(e) && *final(self)
                == *old(self),
            old(self).rejection() is None ==> {
                &&& final(self).state() == TransactionState::Closing
                &&& kind == CloseKind::Close ==> r == Ok::<Option<Frame>, Error>(None) && final(self).slots()
                    == old(self).slots()
                &&& kind == CloseKind::Commit ==> (r matches Ok(Some(frame)) && frame.request
                    == Request::Commit && frame.request_id == old(self).slots().len()
                    && final(self).slots() == old(self).slots().push(Slot::Pending))
                &&& kind == CloseKind::Rollback ==> (r matches Ok(Some(frame)) && frame.request
                    == Request::Rollback && frame.request_id == old(self).slots().len()
                    && final(self).slots() == old(self).slots().push(Slot::Pending))
            },
    {
        match self.state {
            TransactionState::Open => {},
            _ => return Err(self.closed_error()),
        }
        let sent = match kind {
            CloseKind::Commit => match self.correlator.submit(Request::Commit) {
                Ok(frame) => Some(frame),
                Err(_) => None,
            },
            CloseKind::Rollback => match self.correlator.submit(Request::Rollback) {
                Ok(frame) => Some(frame),
                Err(_) => None,
            },
            CloseKind::Close => None,
        };
        self.state = TransactionState::Closing;
        Ok(sent)
    }

    /// Ends a closing transaction: requests still in flight resolve with the
    /// closed-transaction error, and the transaction is closed for good.
    pub fn finish_close(&mut self)
        requires
            old(self).wf(),
        ensures
            final(self).wf(),
            final(self).kind() == old(self).kind(),
            old(self).state() == TransactionState::Closing ==> {
                &&& final(self).state() == TransactionState::Closed
                &&& final(self).failure() is None
                &&& final(self).slots() == crate::correlator::after_drain(old(self).slots(), None)
            },
            old(self).state() != TransactionState::Closing ==> *final(self) == *old(self),
    {
        match self.state {
            TransactionState::Closing => {
                self.correlator.drain(&None);
                self.state = TransactionState::Closed;
            },
            _ => {},
        }
    }

    /// Takes the outcome of a resolved request, once.
    pub fn take(&mut self, request_id: RequestID) -> (r: Option<Result<Vec<u8>, Error>>)
        requires
            old(self).wf(),
        ensures
            final(self).wf(),
            final(self).state() == old(self).state(),
            final(self).kind() == old(self).kind(),
            final(self).failure() == old(self).failure(),
            request_id < old(self).slots().len() && old(self).slots()[request_id as int] is Resolved ==> {
                &&& r == Some(old(self).slots()[request_id as int]->outcome)
                &&& final(self).slots() == old(self).slots().update(request_id as int, Slot::Collected)
            },
            r is None <==> !(request_id < old(self).slots().len()
                && old(self).slots()[request_id as int] is Resolved),
            r is None ==> final(self).slots() == old(self).slots(),
    {
        let r = self.correlator.take(request_id);
        proof {
            assert forall|i: int| 0 <= i < self.correlator@.len() && (old(self).state() == TransactionState::Closed
                || old(self).state() == TransactionState::Failed) implies !(#[trigger] self.correlator@[i] is Pending) by {
                if i == request_id && r is Some {
                } else {
                    assert(self.correlator@[i] == old(self).correlator@[i]);
                }
            }
        }
        r
    }
}

/// Once a transaction is closed, every operation on it is rejected with the
/// closed-transaction error, and a rejected operation leaves it closed.
pub proof fn lemma_post_close_rejection(t: TransactionStream)
    requires
        t.wf(),
        t.state() == TransactionState::Closed,
    ensures
        t.rejection() == Some(Error::Connection(ConnectionError::TransactionIsClosed)),
{
}

} // verus!
