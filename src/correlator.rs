use vstd::prelude::*;

use crate::error::{ConnectionError, Error, InternalError};
use crate::request::{Frame, Request};
use crate::RequestID;

verus! {

/// The single-resolution slot of one request: it is filled at most once.
pub enum Slot {
    /// Sent, and no response has arrived yet.
    Pending,
    /// The response, or the terminal error of a drained stream, awaiting its caller.
    Resolved { outcome: Result<Vec<u8>, Error> },
    /// The caller has taken the outcome.
    Collected,
}

/// Whether `id` names a request that still awaits its response.
pub open spec fn is_pending(slots: Seq<Slot>, id: RequestID) -> bool {
    id < slots.len() && slots[id as int] is Pending
}

/// The slots after a response for `id` arrives: only a pending request takes it.
pub open spec fn after_response(slots: Seq<Slot>, id: RequestID, payload: Vec<u8>) -> Seq<Slot> {
    if is_pending(slots, id) {
        slots.update(id as int, Slot::Resolved { outcome: Ok(payload) })
    } else {
        slots
    }
}

/// The terminal error with which a drained request resolves: the closed-transaction
/// error, carrying the errors that closed the stream where there were any.
pub open spec fn drain_error(reason: Option<String>) -> Error {
    match reason {
        Some(errors) => Error::Connection(ConnectionError::TransactionIsClosedWithErrors { errors }),
        None => Error::Connection(ConnectionError::TransactionIsClosed),
    }
}

/// Builds the terminal error for a drain.
pub fn make_drain_error(reason: &Option<String>) -> (r: Error)
    ensures
        r == drain_error(*reason),
{
    match reason {
        Some(errors) => Error::Connection(
            ConnectionError::TransactionIsClosedWithErrors { errors: errors.clone() },
        ),
        None => Error::Connection(ConnectionError::TransactionIsClosed),
    }
}

/// The slots after a drain: every pending request resolves with the terminal error.
pub open spec fn after_drain(slots: Seq<Slot>, reason: Option<String>) -> Seq<Slot> {
    Seq::new(
        slots.len(),
        |i: int|
            if slots[i] is Pending {
                Slot::Resolved { outcome: Err(drain_error(reason)) }
            } else {
                slots[i]
            },
    )
}

/// The slots after a submission: the new request is pending under the next identifier.
pub open spec fn after_submit(slots: Seq<Slot>) -> Seq<Slot> {
    slots.push(Slot::Pending)
}

/// The slots after the responses arrive one after another, in the given order.
pub open spec fn after_responses(slots: Seq<Slot>, responses: Seq<(RequestID, Vec<u8>)>) -> Seq<Slot>
    decreases responses.len(),
{
    if responses.len() == 0 {
        slots
    } else {
        after_responses(after_response(slots, responses[0].0, responses[0].1), responses.drop_first())
    }
}

/// Responses to distinct pending requests, arriving in any order, each reach
/// exactly the request whose identifier they carry; no other slot changes.
pub proof fn lemma_correlation_sound(slots: Seq<Slot>, responses: Seq<(RequestID, Vec<u8>)>)
    requires
        forall|i: int, j: int|
            0 <= i < j < responses.len() ==> #[trigger] responses[i].0 != #[trigger] responses[j].0,
        forall|i: int| 0 <= i < responses.len() ==> is_pending(slots, #[trigger] responses[i].0),
    ensures
        after_responses(slots, responses).len() == slots.len(),
        forall|i: int|
            0 <= i < responses.len() ==> after_responses(slots, responses)[#[trigger] responses[i].0 as int]
                == (Slot::Resolved { outcome: Ok(responses[i].1) }),
        forall|id: int|
            0 <= id < slots.len() && (forall|i: int| 0 <= i < responses.len() ==> #[trigger] responses[i].0 != id)
                ==> #[trigger] after_responses(slots, responses)[id] == slots[id],
    decreases responses.len(),
{
    if responses.len() > 0 {
        let first = responses[0];
        let next = after_response(slots, first.0, first.1);
        let rest = responses.drop_first();
        assert forall|i: int| 0 <= i < rest.len() implies is_pending(next, #[trigger] rest[i].0) by {
            assert(rest[i] == responses[i + 1]);
            assert(responses[0].0 != responses[i + 1].0);
        }
        assert forall|i: int, j: int| 0 <= i < j < rest.len() implies #[trigger] rest[i].0 != #[trigger] rest[j].0 by {
            assert(rest[i] == responses[i + 1]);
            assert(rest[j] == responses[j + 1]);
        }
        lemma_correlation_sound(next, rest);
        assert forall|i: int| 0 <= i < responses.len() implies after_responses(slots, responses)[#[trigger] responses[i].0 as int]
            == (Slot::Resolved { outcome: Ok(responses[i].1) }) by {
            if i == 0 {
                assert forall|k: int| 0 <= k < rest.len() implies #[trigger] rest[k].0 != first.0 by {
                    assert(rest[k] == responses[k + 1]);
                }
            } else {
                assert(rest[i - 1] == responses[i]);
            }
        }
        assert forall|id: int|
            0 <= id < slots.len() && (forall|i: int| 0 <= i < responses.len() ==> #[trigger] responses[i].0 != id)
            implies #[trigger] after_responses(slots, responses)[id] == slots[id] by {
            assert(responses[0].0 != id);
            assert forall|k: int| 0 <= k < rest.len() implies #[trigger] rest[k].0 != id by {
                assert(rest[k] == responses[k + 1]);
            }
        }
    }
}

/// Once a request is resolved, a repeated response with its identifier changes nothing.
pub proof fn lemma_duplicate_response_ignored(
    slots: Seq<Slot>,
    id: RequestID,
    first: Vec<u8>,
    second: Vec<u8>,
)
    ensures
        !is_pending(after_response(slots, id, first), id),
        after_response(after_response(slots, id, first), id, second) == after_response(slots, id, first),
{
}

/// When a stream is drained, every request that was pending resolves with the
/// terminal error, the others keep their state, and none is left pending.
pub proof fn lemma_drain_complete(slots: Seq<Slot>, reason: Option<String>)
    ensures
        after_drain(slots, reason).len() == slots.len(),
        forall|i: int|
            0 <= i < slots.len() && #[trigger] slots[i] is Pending ==> after_drain(slots, reason)[i]
                == (Slot::Resolved { outcome: Err(drain_error(reason)) }),
        forall|i: int| 0 <= i < slots.len() && !(#[trigger] slots[i] is Pending) ==> after_drain(slots, reason)[i] == slots[i],
        forall|i: int| 0 <= i < slots.len() ==> !(#[trigger] after_drain(slots, reason)[i] is Pending),
{
}

/// A response and a drain racing for one pending request: whichever comes
/// first resolves it, and the other leaves that resolution as it is.
pub proof fn lemma_response_drain_race(slots: Seq<Slot>, id: RequestID, payload: Vec<u8>, reason: Option<String>)
    requires
        is_pending(slots, id),
    ensures
        after_drain(after_response(slots, id, payload), reason)[id as int] == (Slot::Resolved {
            outcome: Ok(payload),
        }),
        after_response(after_drain(slots, reason), id, payload) == after_drain(slots, reason),
        after_drain(slots, reason)[id as int] == (Slot::Resolved { outcome: Err(drain_error(reason)) }),
{
}

/// The slots after `n` requests are submitted one after another.
pub open spec fn after_submissions(slots: Seq<Slot>, n: nat) -> Seq<Slot>
    decreases n,
{
    if n == 0 {
        slots
    } else {
        after_submit(after_submissions(slots, (n - 1) as nat))
    }
}

proof fn lemma_after_submissions(slots: Seq<Slot>, n: nat)
    ensures
        after_submissions(slots, n).len() == slots.len() + n,
        forall|i: int| 0 <= i < slots.len() ==> #[trigger] after_submissions(slots, n)[i] == slots[i],
        forall|i: int| slots.len() <= i < slots.len() + n ==> #[trigger] after_submissions(slots, n)[i] is Pending,
    decreases n,
{
    if n > 0 {
        lemma_after_submissions(slots, (n - 1) as nat);
    }
}

/// Calls submitted one after another get consecutive identifiers; responses
/// to them, arriving in any order, each reach the call whose identifier they
/// carry, and earlier requests are untouched.
pub proof fn lemma_calls_correlate(slots: Seq<Slot>, n: nat, responses: Seq<(RequestID, Vec<u8>)>)
    requires
        forall|i: int, j: int|
            0 <= i < j < responses.len() ==> #[trigger] responses[i].0 != #[trigger] responses[j].0,
        forall|i: int|
            0 <= i < responses.len() ==> slots.len() <= #[trigger] responses[i].0 < slots.len() + n,
    ensures
        forall|i: int|
            0 <= i < responses.len() ==> after_responses(after_submissions(slots, n), responses)[#[trigger] responses[i].0 as int]
                == (Slot::Resolved { outcome: Ok(responses[i].1) }),
        forall|i: int|
            0 <= i < slots.len() ==> #[trigger] after_responses(after_submissions(slots, n), responses)[i] == slots[i],
{
    let sent = after_submissions(slots, n);
    lemma_after_submissions(slots, n);
    assert forall|i: int| 0 <= i < responses.len() implies is_pending(sent, #[trigger] responses[i].0) by {
        assert(sent[responses[i].0 as int] is Pending);
    }
    lemma_correlation_sound(sent, responses);
    assert forall|i: int| 0 <= i < slots.len() implies #[trigger] after_responses(sent, responses)[i] == slots[i] by {
        assert forall|k: int| 0 <= k < responses.len() implies #[trigger] responses[k].0 != i by {}
        assert(sent[i] == slots[i]);
    }
}

/// Assigns identifiers to outbound requests and routes each response to its waiter.
///
/// Identifiers are indices into an arena of slots, so they are assigned in
/// increasing order and never reused.
pub struct RequestCorrelator {
    slots: Vec<Slot>,
    send_open: bool,
}

impl Slot {
    pub fn is_pending(&self) -> (r: bool)
        ensures
            r == (*self is Pending),
    {
        match self {
            Slot::Pending => true,
            _ => false,
        }
    }
}

impl RequestCorrelator {
    pub closed spec fn view(&self) -> Seq<Slot> {
        self.slots@
    }

    /// Whether the send side is open, so that new requests can be written.
    pub closed spec fn accepts_requests(&self) -> bool {
        self.send_open
    }

    pub fn new() -> (r: RequestCorrelator)
        ensures
            r@ == Seq::<Slot>::empty(),
            r.accepts_requests(),
    {
        RequestCorrelator { slots: Vec::new(), send_open: true }
    }

    pub fn is_open(&self) -> (r: bool)
        ensures
            r == self.accepts_requests(),
    {
        self.send_open
    }

    /// The identifier the next submission receives.
    pub fn next_id(&self) -> (r: RequestID)
        ensures
            r == self@.len(),
    {
        self.slots.len() as u64
    }

    /// Whether `id` still awaits its response.
    pub fn pending(&self, id: RequestID) -> (r: bool)
        ensures
            r == is_pending(self@, id),
    {
        if id < self.slots.len() as u64 {
            self.slots[id as usize].is_pending()
        } else {
            false
        }
    }

    /// The number of requests that still await their response.
    pub fn outstanding(&self) -> (r: usize)
        ensures
            r == self@.filter(|s: Slot| s is Pending).len(),
    {
        let mut count: usize = 0;
        let mut i: usize = 0;
        while i < self.slots.len()
            invariant
                i <= self.slots.len(),
                count == self@.subrange(0, i as int).filter(|s: Slot| s is Pending).len(),
                count <= i,
            decreases self.slots.len() - i,
        {
            proof {
                let f = |s: Slot| s is Pending;
                assert(self@.subrange(0, i + 1) =~= self@.subrange(0, i as int).push(self@[i as int]));
                self@.subrange(0, i as int).lemma_filter_push(self@[i as int], f);
            }
            if self.slots[i].is_pending() {
                count = count + 1;
            }
            i = i + 1;
        }
        proof {
            assert(self@.subrange(0, i as int) =~= self@);
        }
        count
    }

    /// Registers a request under a fresh identifier and hands back the frame to send.
    ///
    /// Fails when the send side is closed; nothing is then registered.
    pub fn submit(&mut self, request: Request) -> (r: Result<Frame, Error>)
        requires
            old(self)@.len() < u64::MAX,
        ensures
            old(self).accepts_requests() ==> {
                &&& r matches Ok(frame)
                &&& frame.request_id == old(self)@.len()
                &&& frame.request == request
                &&& final(self)@ == after_submit(old(self)@)
                &&& final(self).accepts_requests()
            },
            !old(self).accepts_requests() ==> {
                &&& r == Err::<Frame, Error>(Error::Internal(InternalError::SendError))
                &&& final(self)@ == old(self)@
                &&& !final(self).accepts_requests()
            },
    {
        if !self.send_open {
            return Err(Error::Internal(InternalError::SendError));
        }
        let request_id = self.slots.len() as u64;
        self.slots.push(Slot::Pending);
        Ok(Frame { request_id, request })
    }

    /// Hands a response to the request it names.
    ///
    /// A response whose identifier is unknown, or whose request was already
    /// resolved, is dropped and reported; the table stays as it was.
    pub fn on_response(&mut self, request_id: RequestID, payload: Vec<u8>) -> (r: Result<(), Error>)
        ensures
            final(self)@ == after_response(old(self)@, request_id, payload),
            final(self).accepts_requests() == old(self).accepts_requests(),
            r is Ok <==> is_pending(old(self)@, request_id),
            r is Err ==> r == Err::<(), Error>(
                Error::Connection(ConnectionError::UnknownRequestId { request_id }),
            ),
    {
        if self.pending(request_id) {
            let i = request_id as usize;
            self.slots.set(i, Slot::Resolved { outcome: Ok(payload) });
            Ok(())
        } else {
            Err(Error::Connection(ConnectionError::UnknownRequestId { request_id }))
        }
    }

    /// Closes the send side and resolves every pending request with a terminal error.
    pub fn drain(&mut self, reason: &Option<String>)
        ensures
            final(self)@ == after_drain(old(self)@, *reason),
            !final(self).accepts_requests(),
            forall|i: int| 0 <= i < final(self)@.len() ==> !(#[trigger] final(self)@[i] is Pending),
    {
        self.send_open = false;
        let n = self.slots.len();
        let mut i: usize = 0;
        while i < n
            invariant
                n == old(self)@.len(),
                self@.len() == n,
                i <= n,
                !self.send_open,
                forall|j: int| 0 <= j < i ==> #[trigger] self@[j] == after_drain(old(self)@, *reason)[j],
                forall|j: int| i <= j < n ==> #[trigger] self@[j] == old(self)@[j],
            decreases n - i,
        {
            if self.slots[i].is_pending() {
                let outcome = Err(make_drain_error(reason));
                self.slots.set(i, Slot::Resolved { outcome });
            }
            i = i + 1;
        }
        proof {
            assert(self@ =~= after_drain(old(self)@, *reason));
        }
    }

    /// Takes the outcome of a resolved request; it can be taken once.
    pub fn take(&mut self, request_id: RequestID) -> (r: Option<Result<Vec<u8>, Error>>)
        ensures
            final(self).accepts_requests() == old(self).accepts_requests(),
            request_id < old(self)@.len() && old(self)@[request_id as int] is Resolved ==> {
                &&& r == Some(old(self)@[request_id as int]->outcome)
                &&& final(self)@ == old(self)@.update(request_id as int, Slot::Collected)
            },
            r is None <==> !(request_id < old(self)@.len() && old(self)@[request_id as int] is Resolved),
            r is None ==> final(self)@ == old(self)@,
    {
        if request_id >= self.slots.len() as u64 {
            return None;
        }
        let i = request_id as usize;
        let mut slot = Slot::Collected;
        self.slots.set_and_swap(i, &mut slot);
        match slot {
            Slot::Resolved { outcome } => Some(outcome),
            other => {
                self.slots.set(i, other);
                proof {
                    assert(self@ =~= old(self)@);
                }
                None
            },
        }
    }
}

} // verus!
