//! The host's message plumbing: the global broadcast queue, the on-screen
//! message list, and the screenshot switches.
//!
//! Each queue here is a value owned by its struct rather than an
//! in-process channel, so everything it does is stated exactly.  A queued
//! entry carries a count or a time in whole milliseconds.

use vstd::prelude::*;

verus! {

/// The host-wide broadcast queue.  An entry carries a repeat count: each
/// `recv` hands the text out and re-queues the entry with the count one
/// lower, until the count reaches zero.
pub struct GLobalMessage {
    queue: Vec<(String, i64)>,
}

/// The entries `recv` keeps: those with a positive count, each count one
/// lower, in order.
pub open spec fn requeued(q: Seq<(String, i64)>) -> Seq<(String, i64)> {
    q.filter(|m: (String, i64)| m.1 > 0).map_values(
        |m: (String, i64)| (m.0, (m.1 - 1) as i64),
    )
}

/// How `requeued` grows entry by entry.
proof fn lemma_requeued_push(q: Seq<(String, i64)>, x: (String, i64))
    ensures
        requeued(q.push(x)) == if x.1 > 0 {
            requeued(q).push((x.0, (x.1 - 1) as i64))
        } else {
            requeued(q)
        },
{
    reveal_with_fuel(Seq::<_>::filter, 2);
    let s1 = q.push(x);
    assert(s1.drop_last() =~= q);
    assert(s1.last() == x);
    if x.1 > 0 {
        assert(requeued(s1) =~= requeued(q).push((x.0, (x.1 - 1) as i64)));
    } else {
        assert(requeued(s1) =~= requeued(q));
    }
}

impl GLobalMessage {
    /// The queued entries, in arrival order.
    pub closed spec fn spec_queue(self) -> Seq<(String, i64)> {
        self.queue@
    }

    /// An empty queue.
    pub fn new() -> (g: Self)
        ensures
            g.spec_queue() =~= Seq::<(String, i64)>::empty(),
    {
        GLobalMessage { queue: Vec::new() }
    }

    /// Queue a text to be handed out once.
    pub fn send0(&mut self, msg: String)
        ensures
            final(self).spec_queue() == old(self).spec_queue().push((msg, 0)),
    {
        self.queue.push((msg, 0));
    }

    /// Queue a text to be handed out once now and `time` more times.
    pub fn send(&mut self, msg: String, time: u32)
        ensures
            final(self).spec_queue() == old(self).spec_queue().push((msg, time as i64)),
    {
        self.queue.push((msg, time as i64));
    }

    /// Hand out every queued text, in order, and re-queue those whose
    /// count has not run out, each count one lower.
    pub fn recv(&mut self) -> (msgs: Vec<String>)
        ensures
            msgs.deep_view() == old(self).spec_queue().map_values(|m: (String, i64)| m.0@),
            final(self).spec_queue() == requeued(old(self).spec_queue()),
    {
        let ghost s0 = *self;
        let ghost q = self.queue@;
        let mut msgs: Vec<String> = Vec::new();
        let mut repeated: Vec<(String, i64)> = Vec::new();
        let n = self.queue.len();
        let mut i: usize = 0;
        while i < n
            invariant
                i <= n,
                *self == s0,
                n == q.len(),
                self.queue@ == q,
                msgs@.len() == i,
                forall|j: int| 0 <= j < i ==> #[trigger] msgs@[j]@ == q[j].0@,
                repeated@ == requeued(q.subrange(0, i as int)),
            decreases n - i,
        {
            let ghost prefix = q.subrange(0, i as int);
            let text = self.queue[i].0.clone();
            let count = self.queue[i].1;
            if count > 0 {
                repeated.push((text.clone(), count - 1));
            }
            msgs.push(text);
            i = i + 1;
            proof {
                let prefix1 = q.subrange(0, i as int);
                assert(prefix1 =~= prefix.push(q[i - 1]));
                lemma_requeued_push(prefix, q[i - 1]);
            }
        }
        proof {
            assert(q.subrange(0, n as int) =~= q);
            assert forall|j: int| 0 <= j < q.len() implies msgs.deep_view()[j] == q.map_values(
                |m: (String, i64)| m.0@,
            )[j] by {
                assert(msgs@[j]@ == q[j].0@);
            }
            assert(msgs.deep_view() =~= q.map_values(|m: (String, i64)| m.0@));
        }
        self.queue = repeated;
        msgs
    }
}

impl Default for GLobalMessage {
    /// An empty queue.
    fn default() -> (g: Self)
        ensures
            g.spec_queue() =~= Seq::<(String, i64)>::empty(),
    {
        GLobalMessage::new()
    }
}

/// The switches of the screenshot and recording machinery, as the UI
/// flips them.  The encoder itself lives with the capture collaborator.
#[derive(Clone, Copy, PartialEq, Eq, Structural, Debug)]
pub struct MyScreenShot {
    pub screen_shot: bool,
    pub screen_recording: bool,
    pub screen_recording_stop: bool,
}

impl Default for MyScreenShot {
    /// Everything off.
    fn default() -> (s: Self)
        ensures
            !s.screen_shot,
            !s.screen_recording,
            !s.screen_recording_stop,
    {
        MyScreenShot { screen_shot: false, screen_recording: false, screen_recording_stop: false }
    }
}

/// The entries of the message list that are still on show: those whose
/// remaining time has not run out.
pub open spec fn shown_of(msg: Seq<(String, u64)>) -> Seq<(String, u64)> {
    msg.filter(|m: (String, u64)| m.1 != 0)
}

/// How the shown part grows entry by entry.
proof fn lemma_shown_of_push(msg: Seq<(String, u64)>, x: (String, u64))
    ensures
        shown_of(msg.push(x)) == if x.1 != 0 {
            shown_of(msg).push(x)
        } else {
            shown_of(msg)
        },
{
    reveal_with_fuel(Seq::<_>::filter, 2);
    let s1 = msg.push(x);
    assert(s1.drop_last() =~= msg);
    assert(s1.last() == x);
    if x.1 != 0 {
        assert(shown_of(s1) =~= shown_of(msg).push(x));
    } else {
        assert(shown_of(s1) =~= shown_of(msg));
    }
}

/// What one tick of `dt_ms` milliseconds leaves of an entry: an entry
/// already at zero stays; others lose the tick, down to zero.
pub open spec fn ticked(msg: Seq<(String, u64)>, dt_ms: u64) -> Seq<(String, u64)> {
    msg.map_values(
        |m: (String, u64)|
            if m.1 == 0 {
                m
            } else if m.1 >= dt_ms {
                (m.0, (m.1 - dt_ms) as u64)
            } else {
                (m.0, 0)
            },
    )
}

/// The host's on-screen message list.  Texts arrive through `send` with a
/// time to live in milliseconds, move into the list on `recv`, and fall
/// off the shown part as `dt` ticks their time away.
pub struct MyMessage {
    /// Every received message with its remaining time.
    pub msg: Vec<(String, u64)>,
    /// Messages sent but not yet received into the list.
    pub queue: Vec<(String, u64)>,
    /// Whether the UI shows the list expanded.
    pub expanded: bool,
    /// The part of the list on show, refreshed with the list.
    pub shown_message: Vec<(String, u64)>,
    /// Cached emptiness of the shown part.
    pub is_empty: bool,
}

impl MyMessage {
    /// The messages sent but not yet received into the list.
    pub open spec fn spec_pending(self) -> Seq<(String, u64)> {
        self.queue@
    }

    /// The part of the list on show.
    pub open spec fn spec_shown(self) -> Seq<(String, u64)> {
        self.shown_message@
    }

    /// The cached emptiness of the shown part.
    pub open spec fn spec_is_empty(self) -> bool {
        self.is_empty
    }

    /// The cached emptiness agrees with the shown part.  Every operation
    /// preserves this.
    pub open spec fn wf(self) -> bool {
        self.spec_is_empty() == (self.spec_shown().len() == 0)
    }

    /// Send a text to the list, to stay shown for `millis` milliseconds.
    pub fn send(&mut self, text: String, millis: u64)
        ensures
            final(self).spec_pending() == old(self).spec_pending().push((text, millis)),
            final(self).msg@ == old(self).msg@,
            final(self).spec_shown() == old(self).spec_shown(),
            final(self).spec_is_empty() == old(self).spec_is_empty(),
            final(self).expanded == old(self).expanded,
            old(self).wf() ==> final(self).wf(),
    {
        self.queue.push((text, millis));
    }

    /// Move every pending message into the list, in order, and refresh the
    /// shown part.
    pub fn recv(&mut self)
        ensures
            final(self).msg@ == old(self).msg@ + old(self).spec_pending(),
            final(self).spec_pending() =~= Seq::<(String, u64)>::empty(),
            final(self).spec_shown() == shown_of(final(self).msg@),
            final(self).spec_is_empty() == (final(self).spec_shown().len() == 0),
            final(self).expanded == old(self).expanded,
            final(self).wf(),
    {
        let mut incoming: Vec<(String, u64)> = Vec::new();
        core::mem::swap(&mut incoming, &mut self.queue);
        self.msg.append(&mut incoming);
        self.update();
    }

    /// Tick `dt_ms` milliseconds off every entry still alive.  When some
    /// entry's time ran out short of the full tick, the shown part is
    /// refreshed; otherwise it is left as it stands.
    pub fn dt(&mut self, dt_ms: u64)
        ensures
            final(self).msg@ == ticked(old(self).msg@, dt_ms),
            final(self).spec_pending() == old(self).spec_pending(),
            final(self).expanded == old(self).expanded,
            (exists|i: int|
                0 <= i < old(self).msg@.len() && 0 < #[trigger] old(self).msg@[i].1 < dt_ms) ==> ({
                &&& final(self).spec_shown() == shown_of(final(self).msg@)
                &&& final(self).spec_is_empty() == (final(self).spec_shown().len() == 0)
            }),
            !(exists|i: int|
                0 <= i < old(self).msg@.len() && 0 < #[trigger] old(self).msg@[i].1 < dt_ms) ==> ({
                &&& final(self).spec_shown() == old(self).spec_shown()
                &&& final(self).spec_is_empty() == old(self).spec_is_empty()
            }),
            old(self).wf() ==> final(self).wf(),
    {
        let ghost m0 = self.msg@;
        let ghost q0 = self.queue@;
        let ghost e0 = self.expanded;
        let ghost sh0 = self.shown_message@;
        let ghost em0 = self.is_empty;
        let mut to_update = false;
        let n = self.msg.len();
        let mut i: usize = 0;
        while i < n
            invariant
                i <= n,
                n == m0.len(),
                self.msg@.len() == m0.len(),
                self.queue@ == q0,
                self.expanded == e0,
                self.shown_message@ == sh0,
                self.is_empty == em0,
                forall|j: int| i <= j < n ==> self.msg@[j] == m0[j],
                forall|j: int| 0 <= j < i ==> self.msg@[j] == ticked(m0, dt_ms)[j],
                to_update == exists|j: int| 0 <= j < i && 0 < #[trigger] m0[j].1 < dt_ms,
            decreases n - i,
        {
            let t = self.msg[i].1;
            if t != 0 {
                if t >= dt_ms {
                    let text = self.msg[i].0.clone();
                    self.msg.set(i, (text, t - dt_ms));
                } else {
                    let text = self.msg[i].0.clone();
                    self.msg.set(i, (text, 0));
                    to_update = true;
                }
            }
            proof {
                let ghost ii = i as int;
                if 0 < m0[ii].1 < dt_ms {
                    assert(0 <= ii < ii + 1 && 0 < m0[ii].1 < dt_ms);
                }
            }
            i = i + 1;
        }
        proof {
            assert(self.msg@ =~= ticked(m0, dt_ms));
        }
        if to_update {
            self.update();
        }
    }

    /// Refresh the shown part from the list.
    fn update(&mut self)
        ensures
            final(self).msg@ == old(self).msg@,
            final(self).spec_pending() == old(self).spec_pending(),
            final(self).expanded == old(self).expanded,
            final(self).spec_shown() == shown_of(old(self).msg@),
            final(self).spec_is_empty() == (final(self).spec_shown().len() == 0),
            final(self).wf(),
    {
        let ghost s0 = *self;
        let ghost m = self.msg@;
        let mut shown: Vec<(String, u64)> = Vec::new();
        let n = self.msg.len();
        let mut i: usize = 0;
        while i < n
            invariant
                i <= n,
                *self == s0,
                n == m.len(),
                self.msg@ == m,
                shown@ == shown_of(m.subrange(0, i as int)),
            decreases n - i,
        {
            let ghost prefix = m.subrange(0, i as int);
            if self.msg[i].1 != 0 {
                let text = self.msg[i].0.clone();
                let time = self.msg[i].1;
                shown.push((text, time));
            }
            i = i + 1;
            proof {
                let prefix1 = m.subrange(0, i as int);
                assert(prefix1 =~= prefix.push(m[i - 1]));
                lemma_shown_of_push(prefix, m[i - 1]);
            }
        }
        proof {
            assert(m.subrange(0, n as int) =~= m);
        }
        let empty = shown.len() == 0;
        self.shown_message = shown;
        self.is_empty = empty;
    }

    /// The part of the list on show.
    pub fn get(&self) -> (r: &Vec<(String, u64)>)
        ensures
            r@ == self.spec_shown(),
    {
        &self.shown_message
    }

    /// Whether anything is on show.
    pub fn has_any(&self) -> (r: bool)
        ensures
            r == !self.spec_is_empty(),
    {
        !self.is_empty
    }
}

impl Default for MyMessage {
    /// An empty list: nothing pending, nothing shown, collapsed.
    fn default() -> (m: Self)
        ensures
            m.msg@ =~= Seq::<(String, u64)>::empty(),
            m.spec_pending() =~= Seq::<(String, u64)>::empty(),
            m.spec_shown() =~= Seq::<(String, u64)>::empty(),
            m.spec_is_empty(),
            !m.expanded,
            m.wf(),
    {
        MyMessage {
            msg: Vec::new(),
            queue: Vec::new(),
            expanded: false,
            shown_message: Vec::new(),
            is_empty: true,
        }
    }
}

impl PartialEq for MyMessage {
    /// Two lists are equal when they hold the same texts in the same
    /// order; remaining times do not count.
    fn eq(&self, other: &Self) -> (r: bool) {
        if self.msg.len() != other.msg.len() {
            return false;
        }
        let n = self.msg.len();
        let mut i: usize = 0;
        while i < n
            invariant
                i <= n,
                n == self.msg@.len(),
                n == other.msg@.len(),
                forall|j: int| 0 <= j < i ==> self.msg@[j].0@ == other.msg@[j].0@,
            decreases n - i,
        {
            if self.msg[i].0 != other.msg[i].0 {
                return false;
            }
            i = i + 1;
        }
        true
    }
}

impl vstd::std_specs::cmp::PartialEqSpecImpl for MyMessage {
    open spec fn obeys_eq_spec() -> bool {
        true
    }

    open spec fn eq_spec(&self, other: &Self) -> bool {
        &&& self.msg@.len() == other.msg@.len()
        &&& forall|j: int| 0 <= j < self.msg@.len() ==> self.msg@[j].0@ == other.msg@[j].0@
    }
}

} // verus!
