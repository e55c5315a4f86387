use vstd::prelude::*;

use crate::address::{distinct_views, lemma_distinct_views, views, Address};
use crate::failover::{
    failure_line, joined, lemma_failover_exhaustion, run_failures, FailoverCoordinator, FailoverModel, StepModel,
};

verus! {

/// A user of the cluster and the servers that manage it.
pub struct User {
    pub name: String,
    pub password: Option<String>,
    pub servers: Vec<Address>,
}

impl User {
    /// The run that deletes this user: each of its servers is asked once, in
    /// turn, until one succeeds, and every refusal adds its line to the failure list.
    pub fn deletion(&self) -> (r: FailoverCoordinator)
        ensures
            r.wf(),
            r.model() == FailoverModel::start(distinct_views(views(self.servers@))),
            r.model().candidates.no_duplicates(),
            forall|x: Seq<char>| r.model().candidates.contains(x) <==> views(self.servers@).contains(x),
    {
        let mut servers: Vec<Address> = Vec::new();
        let mut i: usize = 0;
        while i < self.servers.len()
            invariant
                i <= self.servers@.len(),
                servers@.len() == i,
                forall|k: int| 0 <= k < i ==> #[trigger] servers@[k]@ == self.servers@[k]@,
            decreases self.servers.len() - i,
        {
            servers.push(self.servers[i].duplicate());
            i = i + 1;
        }
        assert(views(servers@) =~= views(self.servers@));
        FailoverCoordinator::new(servers)
    }
}

/// When every server of a user refuses the deletion, each distinct server is
/// asked exactly once, in listed order, every listed server among them, and the
/// run ends with one failure line per server asked.
pub proof fn lemma_deletion_exhaustion(servers: Seq<Seq<char>>, texts: Seq<Seq<char>>)
    requires
        texts.len() == distinct_views(servers).len(),
        servers.len() > 0,
    ensures
        ({
            let asked = distinct_views(servers);
            let (end, steps) = run_failures(FailoverModel::start(asked), texts);
            &&& asked.no_duplicates()
            &&& forall|x: Seq<char>| asked.contains(x) <==> servers.contains(x)
            &&& steps.len() == asked.len()
            &&& forall|i: int| 0 <= i < asked.len() - 1 ==> #[trigger] steps[i] == StepModel::Attempt(asked[i + 1])
            &&& steps.last() == StepModel::GiveUp(
                joined(Seq::new(asked.len(), |i: int| failure_line(asked[i], texts[i]))),
            )
        }),
{
    lemma_distinct_views(servers);
    assert(servers.contains(servers[0]));
    lemma_failover_exhaustion(distinct_views(servers), texts);
}

} // verus!
