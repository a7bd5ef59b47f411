//! What subscribers receive: laws over the topic's state transitions.
//!
//! A backlog is a pair (messages missed, messages held, oldest first).
use vstd::prelude::*;

use crate::message::Message;
use crate::topic::{after_pull, enqueue, pull_of, published, topic_wf, Pull, TopicView};

verus! {

/// The topic after publishing `msgs`, first to last.
pub open spec fn published_all(v: TopicView, msgs: Seq<Message>) -> TopicView
    decreases msgs.len(),
{
    if msgs.len() == 0 {
        v
    } else {
        published(published_all(v, msgs.drop_last()), msgs.last())
    }
}

/// A backlog after `msgs` were published, first to last.
pub open spec fn enqueue_all(b: (nat, Seq<Message>), msgs: Seq<Message>, capacity: nat) -> (
    nat,
    Seq<Message>,
)
    decreases msgs.len(),
{
    if msgs.len() == 0 {
        b
    } else {
        enqueue(enqueue_all(b, msgs.drop_last(), capacity), msgs.last(), capacity)
    }
}

/// A backlog after `n` reads.
pub open spec fn after_reads(b: (nat, Seq<Message>), n: nat) -> (nat, Seq<Message>)
    decreases n,
{
    if n == 0 {
        b
    } else {
        after_pull(after_reads(b, (n - 1) as nat))
    }
}

/// The backlog that holds `held` followed by `msgs` when at most `capacity`
/// fit, else their last `capacity`, the others counted as missed.
pub open spec fn overflowed(b: (nat, Seq<Message>), msgs: Seq<Message>, capacity: nat) -> (
    nat,
    Seq<Message>,
) {
    let all = b.1 + msgs;
    if all.len() <= capacity {
        (b.0, all)
    } else {
        (b.0 + (all.len() - capacity) as nat, all.subrange(all.len() - capacity, all.len() as int))
    }
}

/// Publishing messages one by one leaves the last `capacity` of everything
/// held and published, and counts the rest as missed.
pub proof fn lemma_enqueue_all(b: (nat, Seq<Message>), msgs: Seq<Message>, capacity: nat)
    requires
        capacity > 0,
        b.1.len() <= capacity,
    ensures
        enqueue_all(b, msgs, capacity) == overflowed(b, msgs, capacity),
    decreases msgs.len(),
{
    if msgs.len() > 0 {
        let prev = msgs.drop_last();
        lemma_enqueue_all(b, prev, capacity);
        let p = overflowed(b, prev, capacity);
        let all = b.1 + msgs;
        let prev_all = b.1 + prev;
        assert(all =~= prev_all.push(msgs.last()));
        if all.len() <= capacity {
        } else if prev_all.len() < capacity {
            assert(prev_all.len() + 1 == capacity + 1);
            assert(p.1.push(msgs.last()).drop_first() =~= all.subrange(
                all.len() - capacity,
                all.len() as int,
            ));
        } else {
            assert(p.1.push(msgs.last()).drop_first() =~= all.subrange(
                all.len() - capacity,
                all.len() as int,
            ));
        }
    }
}

/// Publishing a sequence acts on each subscriber's backlog alone.
pub proof fn lemma_published_all(v: TopicView, msgs: Seq<Message>)
    ensures
        published_all(v, msgs).capacity == v.capacity,
        published_all(v, msgs).next_id == v.next_id,
        published_all(v, msgs).backlogs.dom() == v.backlogs.dom(),
        forall|id: nat| #[trigger]
            v.backlogs.contains_key(id) ==> published_all(v, msgs).backlogs[id] == enqueue_all(
                v.backlogs[id],
                msgs,
                v.capacity,
            ),
    decreases msgs.len(),
{
    if msgs.len() > 0 {
        lemma_published_all(v, msgs.drop_last());
        assert(published_all(v, msgs).backlogs.dom() =~= v.backlogs.dom());
    }
}

/// Reading a backlog with nothing missed yields its messages in order: after
/// `i` reads the first `i` are gone, and read `i` yields message `i`.
pub proof fn lemma_reads_in_order(s: Seq<Message>, i: nat)
    requires
        i <= s.len(),
    ensures
        after_reads((0, s), i) == (0nat, s.subrange(i as int, s.len() as int)),
        i < s.len() ==> pull_of(after_reads((0, s), i), Pull::Message(s[i as int])),
    decreases i,
{
    if i > 0 {
        lemma_reads_in_order(s, (i - 1) as nat);
        assert(s.subrange(i - 1, s.len() as int).drop_first() =~= s.subrange(
            i as int,
            s.len() as int,
        ));
    } else {
        assert(s.subrange(0, s.len() as int) =~= s);
    }
}

/// Fan-out: when every subscriber attached before `msgs` were published and
/// at most `capacity` of them are published before anyone reads, every
/// subscriber holds exactly `msgs`, in publish order, with nothing missed,
/// and its reads yield them in that order.
pub proof fn lemma_fan_out(v: TopicView, msgs: Seq<Message>)
    requires
        topic_wf(v),
        msgs.len() <= v.capacity,
        forall|id: nat| #[trigger]
            v.backlogs.contains_key(id) ==> v.backlogs[id] == (0nat, Seq::<Message>::empty()),
    ensures
        published_all(v, msgs).backlogs.dom() == v.backlogs.dom(),
        forall|id: nat| #[trigger]
            v.backlogs.contains_key(id) ==> published_all(v, msgs).backlogs[id] == (0nat, msgs),
        forall|i: nat|
            i < msgs.len() ==> pull_of(#[trigger] after_reads((0, msgs), i), Pull::Message(msgs[i as int])),
{
    lemma_published_all(v, msgs);
    assert forall|id: nat| #[trigger]
        v.backlogs.contains_key(id) implies published_all(v, msgs).backlogs[id] == (0nat, msgs) by {
        lemma_enqueue_all(v.backlogs[id], msgs, v.capacity);
        assert(Seq::<Message>::empty() + msgs =~= msgs);
    }
    assert forall|i: nat|
        i < msgs.len() implies pull_of(#[trigger] after_reads((0, msgs), i), Pull::Message(msgs[i as int])) by {
        lemma_reads_in_order(msgs, i);
    }
}

/// Lag: a subscriber that attached before `msgs` were published and read
/// nothing while more than `capacity` of them came first reads a lag of
/// exactly the number it missed, then the last `capacity` messages in order.
pub proof fn lemma_lag_then_resume(v: TopicView, id: nat, msgs: Seq<Message>)
    requires
        topic_wf(v),
        v.backlogs.contains_key(id),
        v.backlogs[id] == (0nat, Seq::<Message>::empty()),
        msgs.len() > v.capacity,
    ensures
        ({
            let missed = (msgs.len() - v.capacity) as nat;
            let kept = msgs.subrange(missed as int, msgs.len() as int);
            let b = published_all(v, msgs).backlogs[id];
            &&& b == (missed, kept)
            &&& forall|n: u64| pull_of(b, Pull::Lagged(n)) <==> n as nat == missed
            &&& after_pull(b) == (0nat, kept)
            &&& forall|i: nat|
                i < kept.len() ==> pull_of(
                    #[trigger] after_reads((0, kept), i),
                    Pull::Message(kept[i as int]),
                )
        }),
{
    lemma_published_all(v, msgs);
    lemma_enqueue_all(v.backlogs[id], msgs, v.capacity);
    assert(Seq::<Message>::empty() + msgs =~= msgs);
    let missed = (msgs.len() - v.capacity) as nat;
    let kept = msgs.subrange(missed as int, msgs.len() as int);
    assert forall|i: nat|
        i < kept.len() implies pull_of(#[trigger] after_reads((0, kept), i), Pull::Message(kept[i as int])) by {
        lemma_reads_in_order(kept, i);
    }
}

/// A subscriber's schedule: `Some(m)` when `m` is published, `None` when the
/// subscriber reads once.
pub open spec fn sent(steps: Seq<Option<Message>>) -> Seq<Message>
    decreases steps.len(),
{
    if steps.len() == 0 {
        Seq::empty()
    } else {
        match steps.last() {
            Some(m) => sent(steps.drop_last()).push(m),
            None => sent(steps.drop_last()),
        }
    }
}

/// A backlog after a schedule, and the messages that its reads yielded.
pub open spec fn run(b: (nat, Seq<Message>), steps: Seq<Option<Message>>, capacity: nat) -> (
    (nat, Seq<Message>),
    Seq<Message>,
)
    decreases steps.len(),
{
    if steps.len() == 0 {
        (b, Seq::empty())
    } else {
        let (b1, got) = run(b, steps.drop_last(), capacity);
        match steps.last() {
            Some(m) => (enqueue(b1, m, capacity), got),
            None => if b1.0 == 0 && b1.1.len() > 0 {
                (after_pull(b1), got.push(b1.1[0]))
            } else {
                (after_pull(b1), got)
            },
        }
    }
}

/// The subscriber keeps pace: no message is published while it already
/// holds `capacity` unread ones.
pub open spec fn keeps_pace(b: (nat, Seq<Message>), steps: Seq<Option<Message>>, capacity: nat) -> bool
    decreases steps.len(),
{
    if steps.len() == 0 {
        true
    } else {
        &&& keeps_pace(b, steps.drop_last(), capacity)
        &&& steps.last() is Some ==> run(b, steps.drop_last(), capacity).0.1.len() < capacity
    }
}

/// A subscriber that keeps pace loses nothing: what it read followed by
/// what it still holds is what it held before followed by every message
/// published, in publish order.
pub proof fn lemma_keeping_pace_loses_nothing(
    b: (nat, Seq<Message>),
    steps: Seq<Option<Message>>,
    capacity: nat,
)
    requires
        b.0 == 0,
        keeps_pace(b, steps, capacity),
    ensures
        run(b, steps, capacity).0.0 == 0,
        run(b, steps, capacity).1 + run(b, steps, capacity).0.1 == b.1 + sent(steps),
    decreases steps.len(),
{
    if steps.len() > 0 {
        let prev = steps.drop_last();
        lemma_keeping_pace_loses_nothing(b, prev, capacity);
        let (b1, got) = run(b, prev, capacity);
        match steps.last() {
            Some(m) => {
                assert(got + b1.1.push(m) =~= (got + b1.1).push(m));
                assert(b.1 + sent(prev).push(m) =~= (b.1 + sent(prev)).push(m));
            },
            None => {
                if b1.1.len() > 0 {
                    assert(got.push(b1.1[0]) + b1.1.drop_first() =~= got + b1.1);
                }
            },
        }
    }
}

/// `s` mixes `a` and `b`: each keeps its own order, in any interleaving.
pub open spec fn interleaves(s: Seq<Message>, a: Seq<Message>, b: Seq<Message>) -> bool
    decreases s.len(),
{
    if s.len() == 0 {
        a.len() == 0 && b.len() == 0
    } else {
        ||| a.len() > 0 && s.last() == a.last() && interleaves(s.drop_last(), a.drop_last(), b)
        ||| b.len() > 0 && s.last() == b.last() && interleaves(s.drop_last(), a, b.drop_last())
    }
}

/// An interleaving holds as many messages as its two parts together.
pub proof fn lemma_interleaving_len(s: Seq<Message>, a: Seq<Message>, b: Seq<Message>)
    requires
        interleaves(s, a, b),
    ensures
        s.len() == a.len() + b.len(),
    decreases s.len(),
{
    if s.len() > 0 {
        if a.len() > 0 && s.last() == a.last() && interleaves(s.drop_last(), a.drop_last(), b) {
            lemma_interleaving_len(s.drop_last(), a.drop_last(), b);
        } else {
            lemma_interleaving_len(s.drop_last(), a, b.drop_last());
        }
    }
}

/// Fan-in: when two publishers' messages `a` and `b` arrive interleaved
/// and a subscriber that attached before them keeps pace, it gets every one
/// of them in arrival order, `a.len() + b.len()` in all, none missed.
pub proof fn lemma_fan_in(
    steps: Seq<Option<Message>>,
    a: Seq<Message>,
    b: Seq<Message>,
    capacity: nat,
)
    requires
        interleaves(sent(steps), a, b),
        keeps_pace((0, Seq::empty()), steps, capacity),
    ensures
        ({
            let (after, got) = run((0, Seq::empty()), steps, capacity);
            &&& after.0 == 0
            &&& got + after.1 == sent(steps)
            &&& (got + after.1).len() == a.len() + b.len()
        }),
{
    lemma_keeping_pace_loses_nothing((0, Seq::empty()), steps, capacity);
    assert(Seq::<Message>::empty() + sent(steps) =~= sent(steps));
    lemma_interleaving_len(sent(steps), a, b);
}

} // verus!
