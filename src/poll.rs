use vstd::prelude::*;

verus! {

/// Consecutive empty fetches after which the loop hands back to push delivery.
pub const EMPTY_POLLS_BEFORE_PUSH: u32 = 3;

/// Pause after a failed fetch, in milliseconds.
pub const RETRY_DELAY_MS: u64 = 1000;

/// Long-poll timeout hint sent with each fetch, in seconds.
pub const LONG_POLL_TIMEOUT_SECS: u32 = 1024;

/// What the loop does next.
#[derive(Debug, Clone, Copy, PartialEq, Eq, Structural)]
pub enum PollAction {
    /// Fetch again from the current cursor.
    Fetch,
    /// Sleep `RETRY_DELAY_MS`, then fetch again.
    RetryAfterDelay,
    /// Leave the loop and request push delivery.
    SwitchToPush,
}

/// The loop's state: the cursor and the count of consecutive empty fetches.
pub struct PollState {
    pub cursor: int,
    pub empty_polls: nat,
}

/// The cursor after seeing update `id`: one past it, if that is further.
pub open spec fn advance(cursor: int, id: i64) -> int {
    if id >= cursor {
        if id < i64::MAX {
            id + 1
        } else {
            i64::MAX as int
        }
    } else {
        cursor
    }
}

/// The cursor after seeing the updates `ids`, in order.
pub open spec fn cursor_after(cursor: int, ids: Seq<i64>) -> int
    decreases ids.len(),
{
    if ids.len() == 0 {
        cursor
    } else {
        advance(cursor_after(cursor, ids.drop_last()), ids.last())
    }
}

/// The state after a fetch that returned the updates `ids`.
pub open spec fn state_after_batch(s: PollState, ids: Seq<i64>) -> PollState {
    if ids.len() == 0 {
        PollState { cursor: s.cursor, empty_polls: s.empty_polls + 1 }
    } else {
        PollState { cursor: cursor_after(s.cursor, ids), empty_polls: 0 }
    }
}

/// The action after a fetch that returned the updates `ids`.
pub open spec fn action_after_batch(s: PollState, ids: Seq<i64>) -> PollAction {
    if ids.len() == 0 && s.empty_polls + 1 >= EMPTY_POLLS_BEFORE_PUSH {
        PollAction::SwitchToPush
    } else {
        PollAction::Fetch
    }
}

/// The pull loop's decisions. The caller fetches, hands the outcome here and
/// does what the returned action says.
pub struct PollLoop {
    cursor: i64,
    empty_polls: u32,
}

impl View for PollLoop {
    type V = PollState;

    closed spec fn view(&self) -> PollState {
        PollState { cursor: self.cursor as int, empty_polls: self.empty_polls as nat }
    }
}

/// Whether `ord` lists every index of `ids` once, in ascending order of id.
pub open spec fn is_ascending_order(ids: Seq<i64>, ord: Seq<usize>) -> bool {
    &&& ord.len() == ids.len()
    &&& forall|j: int| 0 <= j < ord.len() ==> #[trigger] ord[j] < ids.len()
    &&& forall|a: int, b: int| 0 <= a < b < ord.len() ==> #[trigger] ord[a] != #[trigger] ord[b]
    &&& forall|a: int, b: int|
        0 <= a < b < ord.len() ==> ids[#[trigger] ord[a] as int] <= ids[#[trigger] ord[b] as int]
}

/// The order in which a batch is handled: its indices by ascending update id.
pub fn ascending_order(ids: &Vec<i64>) -> (r: Vec<usize>)
    ensures
        is_ascending_order(ids@, r@),
{
    let mut ord: Vec<usize> = Vec::new();
    let mut k: usize = 0;
    while k < ids.len()
        invariant
            0 <= k <= ids@.len(),
            ord@.len() == k,
            forall|j: int| 0 <= j < ord@.len() ==> #[trigger] ord@[j] < k,
            forall|a: int, b: int| 0 <= a < b < ord@.len() ==> #[trigger] ord@[a] != #[trigger] ord@[b],
            forall|a: int, b: int|
                0 <= a < b < ord@.len() ==> ids@[#[trigger] ord@[a] as int] <= ids@[#[trigger] ord@[b] as int],
        decreases ids@.len() - k,
    {
        let id = ids[k];
        let mut p: usize = 0;
        while p < ord.len() && ids[ord[p]] <= id
            invariant
                0 <= p <= ord@.len(),
                ord@.len() == k,
                k < ids@.len(),
                id == ids@[k as int],
                forall|j: int| 0 <= j < ord@.len() ==> #[trigger] ord@[j] < k,
                forall|j: int| 0 <= j < p ==> ids@[#[trigger] ord@[j] as int] <= id,
            decreases ord@.len() - p,
        {
            p = p + 1;
        }
        let ghost old_ord = ord@;
        ord.insert(p, k);
        proof {
            let n = ord@;
            assert(n =~= old_ord.insert(p as int, k));
            assert forall|j: int| p < j < n.len() implies ids@[#[trigger] n[j] as int] > id by {
                assert(n[j] == old_ord[j - 1]);
                assert(ids@[old_ord[p as int] as int] > id);
                if j - 1 > p {
                    assert(ids@[old_ord[p as int] as int] <= ids@[old_ord[j - 1] as int]);
                }
            }
            assert forall|j: int| 0 <= j < n.len() implies #[trigger] n[j] < k + 1 by {
                if j < p {
                    assert(n[j] == old_ord[j]);
                } else if j > p {
                    assert(n[j] == old_ord[j - 1]);
                }
            }
            assert forall|a: int, b: int| 0 <= a < b < n.len() implies #[trigger] n[a] != #[trigger] n[b]
                && ids@[n[a] as int] <= ids@[n[b] as int] by {
                let ia = if a < p { a } else { a - 1 };
                let ib = if b < p { b } else { b - 1 };
                if a != p && b != p {
                    assert(n[a] == old_ord[ia]);
                    assert(n[b] == old_ord[ib]);
                } else if a == p {
                    assert(n[b] == old_ord[ib]);
                    assert(old_ord[ib] < k);
                } else {
                    assert(n[a] == old_ord[ia]);
                    assert(old_ord[ia] < k);
                }
            }
        }
        k = k + 1;
    }
    ord
}

/// Seeing more updates never moves the cursor back.
pub proof fn lemma_cursor_monotonic(cursor: int, ids: Seq<i64>)
    requires
        cursor <= i64::MAX,
    ensures
        cursor <= cursor_after(cursor, ids) <= i64::MAX,
    decreases ids.len(),
{
    if ids.len() > 0 {
        lemma_cursor_monotonic(cursor, ids.drop_last());
    }
}

impl PollLoop {
    /// Well-formedness: the loop is still running.
    pub closed spec fn running(&self) -> bool {
        self.cursor >= 0 && self.empty_polls < EMPTY_POLLS_BEFORE_PUSH
    }

    /// A fresh loop: cursor 0, no empty fetch seen.
    pub fn new() -> (r: PollLoop)
        ensures
            r.running(),
            r@ == (PollState { cursor: 0, empty_polls: 0 }),
    {
        PollLoop { cursor: 0, empty_polls: 0 }
    }

    /// The next update id to request.
    pub fn cursor(&self) -> (r: i64)
        ensures
            r == self@.cursor,
    {
        self.cursor
    }

    /// A failed fetch: the state is kept and the loop retries after a pause.
    pub fn on_fetch_error(&self) -> (r: PollAction)
        ensures
            r == PollAction::RetryAfterDelay,
    {
        PollAction::RetryAfterDelay
    }

    /// A fetch that returned the updates with ids `ids`, in the order in which
    /// they were handled.
    pub fn on_batch(&mut self, ids: &Vec<i64>) -> (r: PollAction)
        requires
            old(self).running(),
        ensures
            final(self)@ == state_after_batch(old(self)@, ids@),
            r == action_after_batch(old(self)@, ids@),
            r != PollAction::SwitchToPush ==> final(self).running(),
            old(self)@.cursor <= final(self)@.cursor,
    {
        if ids.len() == 0 {
            self.empty_polls = self.empty_polls + 1;
            if self.empty_polls >= EMPTY_POLLS_BEFORE_PUSH {
                return PollAction::SwitchToPush;
            }
            return PollAction::Fetch;
        }
        let mut c: i64 = self.cursor;
        let mut k: usize = 0;
        while k < ids.len()
            invariant
                0 <= k <= ids@.len(),
                self.cursor <= c,
                c as int == cursor_after(self.cursor as int, ids@.subrange(0, k as int)),
            decreases ids@.len() - k,
        {
            let id = ids[k];
            proof {
                let p = ids@.subrange(0, k + 1);
                assert(p.drop_last() =~= ids@.subrange(0, k as int));
            }
            if id >= c {
                if id < i64::MAX {
                    c = id + 1;
                } else {
                    c = i64::MAX;
                }
            }
            k = k + 1;
        }
        assert(ids@.subrange(0, ids@.len() as int) =~= ids@);
        self.cursor = c;
        self.empty_polls = 0;
        PollAction::Fetch
    }
}

/// From a running state with no empty fetch counted, three empty fetches in a
/// row end the loop with one request for push delivery, on the third.
pub proof fn lemma_three_empty_fetches_switch(s: PollState)
    requires
        s.empty_polls == 0,
    ensures
        ({
            let e = Seq::<i64>::empty();
            let s1 = state_after_batch(s, e);
            let s2 = state_after_batch(s1, e);
            &&& action_after_batch(s, e) == PollAction::Fetch
            &&& action_after_batch(s1, e) == PollAction::Fetch
            &&& action_after_batch(s2, e) == PollAction::SwitchToPush
            &&& state_after_batch(s2, e).cursor == s.cursor
        }),
{
}

/// A fetch that returned updates resets the count of empty fetches, so the
/// loop continues and three more empty fetches are needed before it ends.
pub proof fn lemma_nonempty_fetch_resets(s: PollState, ids: Seq<i64>)
    requires
        ids.len() > 0,
    ensures
        action_after_batch(s, ids) == PollAction::Fetch,
        state_after_batch(s, ids).empty_polls == 0,
{
}

} // verus!
