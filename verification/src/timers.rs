use vstd::prelude::*;
use std::collections::VecDeque;

verus! {

/// A handle due at loop time `when` (microseconds).
pub struct Timer<H> {
    pub handle: H,
    pub when: u128,
}

/// The queue of delayed handles, earliest first. Handles due at the same time
/// keep the order in which they were scheduled.
pub struct TimerQueue<H> {
    timers: Vec<Timer<H>>,
}

/// The due times of a sequence of timers never decrease.
pub open spec fn sorted_by_when<H>(s: Seq<Timer<H>>) -> bool {
    forall|i: int, j: int| 0 <= i <= j < s.len() ==> s[i].when <= s[j].when
}

/// `t` stands at position `p` of `new`, which is `old` with `t` inserted after
/// every timer due no later than `t` and before every timer due after it.
pub open spec fn inserted_in_order<H>(old: Seq<Timer<H>>, new: Seq<Timer<H>>, t: Timer<H>, p: int) -> bool {
    &&& 0 <= p <= old.len()
    &&& new == old.insert(p, t)
    &&& forall|i: int| 0 <= i < p ==> old[i].when <= t.when
    &&& forall|i: int| p <= i < old.len() ==> old[i].when > t.when
}

/// `w` is the least due time among the timers of `s`.
pub open spec fn is_least_due<H>(s: Seq<Timer<H>>, w: u128) -> bool {
    &&& exists|i: int| 0 <= i < s.len() && #[trigger] s[i].when == w
    &&& forall|i: int| 0 <= i < s.len() ==> w <= #[trigger] s[i].when
}

/// The handles of a sequence of timers, in order.
pub open spec fn handles_of<H>(s: Seq<Timer<H>>) -> Seq<H> {
    s.map_values(|t: Timer<H>| t.handle)
}

impl<H> TimerQueue<H> {
    /// The timers in the order in which they fall due.
    pub closed spec fn view(&self) -> Seq<Timer<H>> {
        self.timers@
    }

    pub closed spec fn wf(&self) -> bool {
        sorted_by_when(self.timers@)
    }

    /// A well-formed queue holds its timers in order of due time.
    pub proof fn lemma_sorted(&self)
        requires
            self.wf(),
        ensures
            sorted_by_when(self.view()),
    {
    }

    pub fn new() -> (q: Self)
        ensures
            q.wf(),
            q.view() == Seq::<Timer<H>>::empty(),
    {
        TimerQueue { timers: Vec::new() }
    }

    pub fn len(&self) -> (n: usize)
        ensures
            n == self.view().len(),
    {
        self.timers.len()
    }

    /// The due time of the earliest timer.
    pub fn peek_when(&self) -> (r: Option<u128>)
        requires
            self.wf(),
        ensures
            self.view().len() == 0 ==> r is None,
            self.view().len() > 0 ==> r == Some(self.view()[0].when),
            forall|i: int| 0 <= i < self.view().len() ==> r.unwrap() <= #[trigger] self.view()[i].when,
    {
        if self.timers.len() == 0 {
            None
        } else {
            Some(self.timers[0].when)
        }
    }

    /// Adds a timer after every timer due no later than it.
    pub fn push(&mut self, timer: Timer<H>)
        requires
            old(self).wf(),
        ensures
            final(self).wf(),
            exists|p: int| inserted_in_order(old(self).view(), final(self).view(), timer, p),
    {
        let ghost old_s = self.timers@;
        let mut p: usize = 0;
        let n = self.timers.len();
        while p < n && self.timers[p].when <= timer.when
            invariant
                n == self.timers.len(),
                self.timers@ == old_s,
                sorted_by_when(old_s),
                0 <= p <= n,
                forall|i: int| 0 <= i < p ==> old_s[i].when <= timer.when,
            decreases n - p,
        {
            p = p + 1;
        }
        let ghost pp = p as int;
        assert(forall|i: int| pp <= i < old_s.len() ==> old_s[i].when > timer.when) by {
            if p < n {
                assert(old_s[pp].when > timer.when);
            }
        }
        let ghost tg: Timer<H> = timer;
        self.timers.insert(p, timer);
        assert(inserted_in_order(old_s, self.timers@, tg, pp));
        assert(sorted_by_when(self.timers@)) by {
            assert forall|i: int, j: int| 0 <= i <= j < self.timers@.len() implies
                self.timers@[i].when <= self.timers@[j].when by {
                if i < pp && j > pp {
                    assert(self.timers@[i] == old_s[i]);
                    assert(self.timers@[j] == old_s[j - 1]);
                } else if i < pp && j == pp {
                    assert(self.timers@[i] == old_s[i]);
                } else if i == pp && j > pp {
                    assert(self.timers@[j] == old_s[j - 1]);
                } else if i > pp {
                    assert(self.timers@[i] == old_s[i - 1]);
                    assert(self.timers@[j] == old_s[j - 1]);
                }
            }
        }
        assert(inserted_in_order(old(self).view(), self.view(), tg, pp));
    }

    /// Moves every timer due at or before `tick`, earliest first, to the back
    /// of `out`; the timers left are all due after `tick`.
    pub fn pop_due(&mut self, tick: u128, out: &mut VecDeque<H>) -> (k: usize)
        requires
            old(self).wf(),
        ensures
            final(self).wf(),
            k <= old(self).view().len(),
            forall|i: int| 0 <= i < k ==> #[trigger] old(self).view()[i].when <= tick,
            final(self).view() == old(self).view().skip(k as int),
            forall|i: int| 0 <= i < final(self).view().len() ==> #[trigger] final(self).view()[i].when > tick,
            final(out)@ == old(out)@ + handles_of(old(self).view().take(k as int)),
    {
        let ghost old_s = self.timers@;
        let ghost old_out = out@;
        let n0 = self.timers.len();
        let mut k: usize = 0;
        while self.timers.len() > 0 && self.timers[0].when <= tick
            invariant
                sorted_by_when(old_s),
                old_s.len() == n0,
                k <= old_s.len(),
                self.timers@ == old_s.skip(k as int),
                forall|i: int| 0 <= i < k ==> #[trigger] old_s[i].when <= tick,
                out@ == old_out + handles_of(old_s.take(k as int)),
            decreases self.timers.len(),
        {
            let t = self.timers.remove(0);
            proof {
                assert(t == old_s[k as int]);
                assert(old_s.take(k + 1) == old_s.take(k as int).push(t));
                assert(handles_of(old_s.take(k + 1)) == handles_of(old_s.take(k as int)).push(t.handle));
                assert(old_s.skip(k + 1) == old_s.skip(k as int).drop_first());
            }
            out.push_back(t.handle);
            k = k + 1;
        }
        proof {
            if self.timers@.len() > 0 {
                assert forall|i: int| 0 <= i < self.timers@.len() implies #[trigger] self.timers@[i].when > tick by {
                    assert(self.timers@[0] == old_s[k as int]);
                    assert(self.timers@[i] == old_s[k + i]);
                }
            }
        }
        k
    }
}

/// Two handles due at the same time fall due in the order in which they were
/// scheduled: the one scheduled first stays ahead of the other.
pub proof fn law_same_due_time_keeps_schedule_order<H>(
    q0: Seq<Timer<H>>,
    q1: Seq<Timer<H>>,
    q2: Seq<Timer<H>>,
    t1: Timer<H>,
    t2: Timer<H>,
    p1: int,
    p2: int,
)
    requires
        inserted_in_order(q0, q1, t1, p1),
        inserted_in_order(q1, q2, t2, p2),
        t1.when == t2.when,
    ensures
        p1 < p2,
        q2[p1] == t1,
        q2[p2] == t2,
{
    assert(q1[p1] == t1);
    if p2 <= p1 {
        assert(q1[p1].when > t2.when);
    }
}

/// A handle due earlier falls due first, whatever the order in which the
/// two were scheduled.
pub proof fn law_earlier_due_time_goes_first<H>(
    q0: Seq<Timer<H>>,
    q1: Seq<Timer<H>>,
    q2: Seq<Timer<H>>,
    t1: Timer<H>,
    t2: Timer<H>,
    p1: int,
    p2: int,
)
    requires
        inserted_in_order(q0, q1, t1, p1),
        inserted_in_order(q1, q2, t2, p2),
        t2.when < t1.when,
    ensures
        p2 <= p1,
        q2[p2] == t2,
        q2[p1 + 1] == t1,
{
    assert(q1[p1] == t1);
    if p1 < p2 {
        assert(q1[p1].when <= t2.when);
    }
}

} // verus!
