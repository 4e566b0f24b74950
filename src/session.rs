use vstd::prelude::*;

verus! {

/// Issues session epochs. The epoch held in `current` is the only live one;
/// a capture worker bound to any other epoch must stop.
pub struct SessionManager {
    pub current: u64,
}

/// `after` is the manager that `before.begin_session()` leaves behind, and
/// `epoch` the value that call returned.
pub open spec fn begin_post(before: SessionManager, epoch: u64, after: SessionManager) -> bool {
    &&& after.current == before.current + 1
    &&& epoch == after.current
}

/// `ms[i + 1]` and `es[i]` come from `ms[i].begin_session()`, for each `i`.
pub open spec fn begin_sequence(ms: Seq<SessionManager>, es: Seq<u64>) -> bool {
    &&& ms.len() == es.len() + 1
    &&& forall|i: int| 0 <= i < es.len() ==> #[trigger] begin_post(ms[i], es[i], ms[i + 1])
}

impl SessionManager {
    /// A manager whose counter starts at zero; no epoch has been issued yet.
    pub fn new() -> (r: SessionManager)
        ensures
            r.current == 0,
    {
        SessionManager { current: 0 }
    }

    /// Starts a new session: the counter goes up by one and the new value is
    /// returned as the session's epoch, which supersedes every earlier one.
    pub fn begin_session(&mut self) -> (epoch: u64)
        requires
            old(self).current < u64::MAX,
        ensures
            begin_post(*old(self), epoch, *final(self)),
    {
        self.current = self.current + 1;
        self.current
    }

    /// Whether `epoch` is still the live session.
    pub fn is_current(&self, epoch: u64) -> (r: bool)
        ensures
            r == (epoch == self.current),
    {
        epoch == self.current
    }
}

/// Along a run of `begin_session` calls, the counter after `k` calls is the
/// starting value plus `k`, and the `k`-th call returned the starting value
/// plus `k + 1`.
pub proof fn lemma_counter_after(ms: Seq<SessionManager>, es: Seq<u64>, k: int)
    requires
        begin_sequence(ms, es),
        0 <= k <= es.len(),
    ensures
        ms[k].current == ms[0].current + k,
        k < es.len() ==> es[k] == ms[0].current + k + 1,
    decreases k,
{
    if k > 0 {
        lemma_counter_after(ms, es, k - 1);
        let i = k - 1;
        assert(begin_post(ms[i], es[i], ms[i + 1]));
    }
    if k < es.len() {
        assert(begin_post(ms[k], es[k], ms[k + 1]));
    }
}

/// Epochs returned by successive `begin_session` calls are at least one and
/// strictly increase.
pub proof fn lemma_epochs_increase(ms: Seq<SessionManager>, es: Seq<u64>)
    requires
        begin_sequence(ms, es),
    ensures
        forall|i: int| 0 <= i < es.len() ==> #[trigger] es[i] >= 1,
        forall|i: int, j: int| 0 <= i < j < es.len() ==> es[i] < es[j],
{
    assert forall|i: int| 0 <= i < es.len() implies #[trigger] es[i] >= 1 by {
        lemma_counter_after(ms, es, i);
    }
    assert forall|i: int, j: int| 0 <= i < j < es.len() implies es[i] < es[j] by {
        lemma_counter_after(ms, es, i);
        lemma_counter_after(ms, es, j);
    }
}

} // verus!
