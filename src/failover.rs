use vstd::prelude::*;

use crate::address::{distinct_addresses, distinct_views, views, Address};
use crate::error::{ConnectionError, Error};
use crate::status::{classification, classify, classify_status, status_classification, ClassifiedError, StatusCode};
use crate::text::{join, joined_by};

verus! {

/// The line that records why a server was abandoned.
pub open spec fn failure_line(server: Seq<char>, text: Seq<char>) -> Seq<char> {
    "- "@ + server + ": "@ + text
}

/// The lines joined with line breaks between them.
pub open spec fn joined(lines: Seq<Seq<char>>) -> Seq<char> {
    joined_by(lines, "\n"@)
}

/// What the failover logic asks for after an attempt, in terms of plain values.
pub enum StepModel {
    Attempt(Seq<char>),
    GiveUp(Seq<char>),
    Surface,
}

/// The abstract state of a failover run.
pub struct FailoverModel {
    pub candidates: Seq<Seq<char>>,
    pub current: nat,
    pub retried: bool,
    pub lines: Seq<Seq<char>>,
}

impl FailoverModel {
    pub open spec fn start(candidates: Seq<Seq<char>>) -> FailoverModel {
        FailoverModel { candidates, current: 0, retried: false, lines: Seq::empty() }
    }

    /// Whether a failure of this class on the current server moves on to the next one.
    pub open spec fn moves_on(self, class: ClassifiedError) -> bool {
        class == ClassifiedError::RetryOtherServer || (class == ClassifiedError::RetrySameServer && self.retried)
    }

    pub open spec fn after_failure(self, class: ClassifiedError, text: Seq<char>) -> FailoverModel {
        if self.current >= self.candidates.len() || class == ClassifiedError::Fatal {
            self
        } else if self.moves_on(class) {
            FailoverModel {
                current: self.current + 1,
                retried: false,
                lines: self.lines.push(failure_line(self.candidates[self.current as int], text)),
                ..self
            }
        } else {
            FailoverModel { retried: true, ..self }
        }
    }

    pub open spec fn outcome(self, class: ClassifiedError, text: Seq<char>) -> StepModel {
        let next = self.after_failure(class, text);
        if class == ClassifiedError::Fatal && self.current < self.candidates.len() {
            StepModel::Surface
        } else if next.current < next.candidates.len() {
            StepModel::Attempt(next.candidates[next.current as int])
        } else {
            StepModel::GiveUp(joined(next.lines))
        }
    }
}

/// What the caller does next after a failed attempt.
pub enum FailoverStep {
    /// Try the operation on this server.
    Attempt { server: Address },
    /// Every server failed: report this composite error.
    GiveUp { error: Error },
    /// The failure cannot be helped by another attempt: report it as it is.
    Surface,
}

impl FailoverStep {
    pub open spec fn view(&self) -> StepModel {
        match self {
            FailoverStep::Attempt { server } => StepModel::Attempt(server@),
            FailoverStep::GiveUp { error } => match error {
                Error::Connection(ConnectionError::ServerConnectionFailedWithError { error }) => StepModel::GiveUp(
                    error@,
                ),
                _ => StepModel::Surface,
            },
            FailoverStep::Surface => StepModel::Surface,
        }
    }
}

/// Decides, attempt by attempt, where an operation runs across the cluster.
///
/// Each server is tried in turn; a transient failure is retried once on the
/// same server; every abandoned server leaves one line in the failure list.
pub struct FailoverCoordinator {
    candidates: Vec<Address>,
    current: usize,
    retried: bool,
    failures: Vec<String>,
}

impl FailoverCoordinator {
    pub closed spec fn model(&self) -> FailoverModel {
        FailoverModel {
            candidates: views(self.candidates@),
            current: self.current as nat,
            retried: self.retried,
            lines: self.failures@.map_values(|l: String| l@),
        }
    }

    pub closed spec fn wf(&self) -> bool {
        &&& self.current <= self.candidates@.len()
        &&& self.failures@.len() == self.current
        &&& views(self.candidates@).no_duplicates()
    }

    /// A run over `candidates`, in that order, starting with the first; a
    /// server listed twice is tried only at its first place.
    pub fn new(candidates: Vec<Address>) -> (r: FailoverCoordinator)
        ensures
            r.wf(),
            r.model() == FailoverModel::start(distinct_views(views(candidates@))),
            r.model().candidates.no_duplicates(),
            forall|x: Seq<char>| r.model().candidates.contains(x) <==> views(candidates@).contains(x),
    {
        let r = FailoverCoordinator {
            candidates: distinct_addresses(&candidates),
            current: 0,
            retried: false,
            failures: Vec::new(),
        };
        proof {
            assert(r.model().lines =~= Seq::<Seq<char>>::empty());
        }
        r
    }

    /// The server to attempt now, if any is left.
    pub fn target(&self) -> (r: Option<Address>)
        requires
            self.wf(),
        ensures
            self.model().current < self.model().candidates.len() ==> (r matches Some(a) && a@
                == self.model().candidates[self.model().current as int]),
            self.model().current >= self.model().candidates.len() ==> r is None,
    {
        if self.current < self.candidates.len() {
            Some(self.candidates[self.current].duplicate())
        } else {
            None
        }
    }

    fn give_up(&self) -> (r: FailoverStep)
        ensures
            r matches FailoverStep::GiveUp { error } && error matches Error::Connection(ConnectionError::ServerConnectionFailedWithError { .. }),
            r@ == StepModel::GiveUp(joined(self.model().lines)),
    {
        FailoverStep::GiveUp {
            error: Error::Connection(ConnectionError::ServerConnectionFailedWithError { error: join(&self.failures, "\n") }),
        }
    }

    /// Records a failed attempt on the current server, of class `class` and
    /// described by `text`, and says what to do next.
    pub fn on_failure(&mut self, class: ClassifiedError, text: &str) -> (r: FailoverStep)
        requires
            old(self).wf(),
        ensures
            final(self).wf(),
            final(self).model() == old(self).model().after_failure(class, text@),
            r@ == old(self).model().outcome(class, text@),
            class == ClassifiedError::Fatal && old(self).model().current < old(self).model().candidates.len()
                ==> r is Surface,
            r matches FailoverStep::GiveUp { error } ==> error matches Error::Connection(ConnectionError::ServerConnectionFailedWithError { .. }),
    {
        let ghost before = self.model();
        if self.current >= self.candidates.len() {
            return self.give_up();
        }
        match class {
            ClassifiedError::Fatal => {
                return FailoverStep::Surface;
            },
            ClassifiedError::RetrySameServer => {
                if !self.retried {
                    self.retried = true;
                    proof {
                        assert(self.model() == before.after_failure(class, text@));
                    }
                    return FailoverStep::Attempt { server: self.candidates[self.current].duplicate() };
                }
            },
            ClassifiedError::RetryOtherServer => {},
        }
        let line = String::from_str("- ").concat(self.candidates[self.current].as_str()).concat(": ").concat(text);
        let ghost old_failures = self.failures@;
        self.failures.push(line);
        self.current = self.current + 1;
        self.retried = false;
        proof {
            assert(self.failures@.map_values(|l: String| l@) =~= old_failures.map_values(|l: String| l@).push(
                failure_line(before.candidates[before.current as int], text@),
            ));
            assert(self.model() == before.after_failure(class, text@));
        }
        if self.current < self.candidates.len() {
            FailoverStep::Attempt { server: self.candidates[self.current].duplicate() }
        } else {
            self.give_up()
        }
    }

    /// Records a failed attempt by its error: the class comes from the failover
    /// policy and the failure line from the error's text.
    pub fn on_error(&mut self, error: &Error) -> (r: FailoverStep)
        requires
            old(self).wf(),
        ensures
            final(self).wf(),
            final(self).model() == old(self).model().after_failure(classification(*error), error.text()),
            r@ == old(self).model().outcome(classification(*error), error.text()),
            classification(*error) == ClassifiedError::Fatal && old(self).model().current < old(self).model().candidates.len()
                ==> r is Surface,
            r matches FailoverStep::GiveUp { error } ==> error matches Error::Connection(ConnectionError::ServerConnectionFailedWithError { .. }),
    {
        let class = classify(error);
        let text = error.to_text();
        let r = self.on_failure(class, text.as_str());
        assert(self.model() == old(self).model().after_failure(classification(*error), text@));
        r
    }

    /// Records a failed call by its status code and the error its status maps
    /// to: the class comes from the status policy, the failure line from the error's text.
    pub fn on_status_error(&mut self, code: StatusCode, error: &Error) -> (r: FailoverStep)
        requires
            old(self).wf(),
        ensures
            final(self).wf(),
            final(self).model() == old(self).model().after_failure(status_classification(code, *error), error.text()),
            r@ == old(self).model().outcome(status_classification(code, *error), error.text()),
            status_classification(code, *error) == ClassifiedError::Fatal && old(self).model().current < old(self).model().candidates.len()
                ==> r is Surface,
            r matches FailoverStep::GiveUp { error } ==> error matches Error::Connection(ConnectionError::ServerConnectionFailedWithError { .. }),
    {
        let class = classify_status(code, error);
        let text = error.to_text();
        let r = self.on_failure(class, text.as_str());
        assert(self.model() == old(self).model().after_failure(status_classification(code, *error), text@));
        r
    }

    /// The composite failure of a run whose servers have all failed, or `None`
    /// while a server is left.
    pub fn exhausted_error(&self) -> (r: Option<Error>)
        requires
            self.wf(),
        ensures
            self.model().current < self.model().candidates.len() ==> r is None,
            self.model().current >= self.model().candidates.len() ==> (r matches Some(
                Error::Connection(ConnectionError::ServerConnectionFailedWithError { error }),
            ) && error@ == joined(self.model().lines)),
    {
        if self.current < self.candidates.len() {
            None
        } else {
            Some(Error::Connection(ConnectionError::ServerConnectionFailedWithError { error: join(&self.failures, "\n") }))
        }
    }

    /// The attempt on the current server succeeded: the server to prefer next time.
    pub fn on_success(&self) -> (r: Option<Address>)
        requires
            self.wf(),
        ensures
            self.model().current < self.model().candidates.len() ==> (r matches Some(a) && a@
                == self.model().candidates[self.model().current as int]),
            self.model().current >= self.model().candidates.len() ==> r is None,
    {
        self.target()
    }
}

/// The servers of a cluster and the one that last served an operation well.
pub struct ServerTopology {
    servers: Vec<Address>,
    last_good: Option<usize>,
}

/// The order in which servers are tried: the preferred one first, then the
/// others in their listed order.
pub open spec fn candidate_order(servers: Seq<Seq<char>>, preferred: Option<nat>) -> Seq<Seq<char>> {
    match preferred {
        Some(i) => seq![servers[i as int]] + servers.subrange(0, i as int) + servers.subrange(i as int + 1, servers.len() as int),
        None => servers,
    }
}

impl ServerTopology {
    pub closed spec fn servers(&self) -> Seq<Seq<char>> {
        views(self.servers@)
    }

    pub closed spec fn preferred(&self) -> Option<nat> {
        match self.last_good {
            Some(i) => Some(i as nat),
            None => None,
        }
    }

    pub closed spec fn wf(&self) -> bool {
        &&& self.last_good matches Some(i) ==> i < self.servers@.len()
        &&& views(self.servers@).no_duplicates()
    }

    /// The cluster's servers in order; a server listed twice is kept once.
    pub fn new(servers: Vec<Address>) -> (r: ServerTopology)
        ensures
            r.wf(),
            r.servers() == distinct_views(views(servers@)),
            r.servers().no_duplicates(),
            r.preferred() is None,
    {
        ServerTopology { servers: distinct_addresses(&servers), last_good: None }
    }

    /// The servers in the order in which an operation tries them.
    pub fn candidates(&self) -> (r: Vec<Address>)
        requires
            self.wf(),
        ensures
            views(r@) == candidate_order(self.servers(), self.preferred()),
    {
        let n = self.servers.len();
        let mut out: Vec<Address> = Vec::new();
        let ghost order = candidate_order(self.servers(), self.preferred());
        let skip: usize = match self.last_good {
            Some(i) => {
                out.push(self.servers[i].duplicate());
                i
            },
            None => n,
        };
        let ghost first: int = if skip < n { 1 } else { 0 };
        let mut k: usize = 0;
        while k < n
            invariant
                n == self.servers@.len(),
                k <= n,
                skip <= n,
                self.wf(),
                first == (if skip < n { 1int } else { 0int }),
                skip < n <==> self.last_good is Some,
                self.last_good matches Some(i) ==> i == skip,
                order == candidate_order(self.servers(), self.preferred()),
                out@.len() == first + k - (if skip < k { 1int } else { 0int }),
                forall|j: int| 0 <= j < out@.len() ==> #[trigger] out@[j]@ == order[j],
                order.len() == n,
            decreases n - k,
        {
            if k != skip {
                proof {
                    let pos = first + k - (if skip < k { 1int } else { 0int });
                    assert(order[pos] == self.servers@[k as int]@);
                }
                out.push(self.servers[k].duplicate());
            }
            k = k + 1;
        }
        assert(views(out@) =~= order);
        out
    }

    /// Remembers `server` as the one to try first, if it is one of the cluster's.
    pub fn record_success(&mut self, server: &Address)
        requires
            old(self).wf(),
        ensures
            final(self).wf(),
            final(self).servers() == old(self).servers(),
            old(self).servers().contains(server@) ==> (final(self).preferred() matches Some(i)
                && final(self).servers()[i as int] == server@),
            !old(self).servers().contains(server@) ==> final(self).preferred() == old(self).preferred(),
    {
        let mut i: usize = 0;
        while i < self.servers.len()
            invariant
                i <= self.servers@.len(),
                *self == *old(self),
                self.wf(),
                forall|j: int| 0 <= j < i ==> self.servers@[j]@ != server@,
            decreases self.servers.len() - i,
        {
            if self.servers[i].same(server) {
                self.last_good = Some(i);
                assert(views(self.servers@)[i as int] == server@);
                return;
            }
            i = i + 1;
        }
        assert(!self.servers().contains(server@)) by {
            if self.servers().contains(server@) {
                let k = choose|k: int| 0 <= k < self.servers().len() && self.servers()[k] == server@;
                assert(self.servers@[k]@ == server@);
            }
        }
    }
}

/// The model and the steps after each text in turn fails its attempt in a way
/// that sends the operation to another server.
pub open spec fn run_failures(m: FailoverModel, texts: Seq<Seq<char>>) -> (FailoverModel, Seq<StepModel>)
    decreases texts.len(),
{
    if texts.len() == 0 {
        (m, Seq::empty())
    } else {
        let (prev, steps) = run_failures(m, texts.drop_last());
        (
            prev.after_failure(ClassifiedError::RetryOtherServer, texts.last()),
            steps.push(prev.outcome(ClassifiedError::RetryOtherServer, texts.last())),
        )
    }
}

/// When every one of `n` servers fails in a way that sends the operation
/// elsewhere, each server is attempted exactly once, in order, and the run
/// ends with one composite failure whose lines give every server's cause.
pub proof fn lemma_failover_exhaustion(candidates: Seq<Seq<char>>, texts: Seq<Seq<char>>)
    requires
        texts.len() == candidates.len(),
        candidates.len() > 0,
    ensures
        ({
            let (end, steps) = run_failures(FailoverModel::start(candidates), texts);
            &&& steps.len() == candidates.len()
            &&& forall|i: int| 0 <= i < candidates.len() - 1 ==> #[trigger] steps[i] == StepModel::Attempt(candidates[i + 1])
            &&& steps.last() == StepModel::GiveUp(
                joined(Seq::new(candidates.len(), |i: int| failure_line(candidates[i], texts[i]))),
            )
            &&& end.current == candidates.len()
        }),
{
    lemma_failures_prefix(candidates, texts, texts.len());
    let (end, steps) = run_failures(FailoverModel::start(candidates), texts);
    assert(texts.subrange(0, texts.len() as int) =~= texts);
    assert(end.lines =~= Seq::new(candidates.len(), |i: int| failure_line(candidates[i], texts[i])));
}

proof fn lemma_failures_prefix(candidates: Seq<Seq<char>>, texts: Seq<Seq<char>>, k: nat)
    requires
        texts.len() == candidates.len(),
        k <= texts.len(),
    ensures
        ({
            let (m, steps) = run_failures(FailoverModel::start(candidates), texts.subrange(0, k as int));
            &&& m.candidates == candidates
            &&& m.current == k
            &&& !m.retried
            &&& m.lines == Seq::new(k, |i: int| failure_line(candidates[i], texts[i]))
            &&& steps.len() == k
            &&& forall|i: int| 0 <= i < k && i + 1 < candidates.len() ==> #[trigger] steps[i] == StepModel::Attempt(candidates[i + 1])
            &&& k == candidates.len() && k > 0 ==> steps[k - 1] == StepModel::GiveUp(joined(m.lines))
        }),
    decreases k,
{
    let pre = texts.subrange(0, k as int);
    if k == 0 {
        assert(Seq::new(0, |i: int| failure_line(candidates[i], texts[i])) =~= Seq::<Seq<char>>::empty());
    } else {
        lemma_failures_prefix(candidates, texts, (k - 1) as nat);
        assert(pre.drop_last() =~= texts.subrange(0, k - 1));
        assert(pre.last() == texts[k - 1]);
        let (prev, steps) = run_failures(FailoverModel::start(candidates), texts.subrange(0, k - 1));
        let next = prev.after_failure(ClassifiedError::RetryOtherServer, texts[k - 1]);
        assert(next.lines =~= Seq::new(k, |i: int| failure_line(candidates[i], texts[i])));
    }
}

} // verus!
