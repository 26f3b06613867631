//! The notification queue: transient messages appended at the tail, expired
//! by a periodic tick. A tick first drops every notification whose remaining
//! ttl is already 0, then decrements the ttl of each survivor; a
//! notification pushed with ttl `t` therefore stays in the queue through `t`
//! ticks and leaves on the tick after that.

use vstd::prelude::*;

verus! {

/// The severity a notification is rendered with.
#[derive(Debug, PartialEq, Eq, Structural, Clone, Copy)]
pub enum NotificationLevel {
    Info,
    Warning,
    Error,
}

/// The ttl every pushed notification starts with, in ticks.
pub const DEFAULT_TTL: usize = 3;

/// One transient message.
#[derive(Debug)]
pub struct Notification {
    pub message: String,
    pub level: NotificationLevel,
    pub ttl: usize,
}

/// The model of a `Notification`.
#[verifier::ext_equal]
pub struct NotificationView {
    pub message: Seq<char>,
    pub level: NotificationLevel,
    pub ttl: nat,
}

impl View for Notification {
    type V = NotificationView;

    open spec fn view(&self) -> NotificationView {
        NotificationView { message: self.message@, level: self.level, ttl: self.ttl as nat }
    }
}

/// `n` one tick later.
pub open spec fn dec_ttl(n: NotificationView) -> NotificationView {
    NotificationView { message: n.message, level: n.level, ttl: (n.ttl - 1) as nat }
}

/// One tick of the whole queue: drop the notifications whose ttl is already
/// 0, decrement the rest, order kept.
pub open spec fn spec_tick(q: Seq<NotificationView>) -> Seq<NotificationView>
    decreases q.len(),
{
    if q.len() == 0 {
        Seq::empty()
    } else {
        spec_tick(q.drop_last()) + (if q.last().ttl > 0 {
            seq![dec_ttl(q.last())]
        } else {
            Seq::empty()
        })
    }
}

/// `k` ticks of the whole queue.
pub open spec fn spec_tick_n(q: Seq<NotificationView>, k: nat) -> Seq<NotificationView>
    decreases k,
{
    if k == 0 {
        q
    } else {
        spec_tick_n(spec_tick(q), (k - 1) as nat)
    }
}

/// Ordered store of the transient messages, appended at the tail (insertion
/// order is render/stack order); duplicates are permitted.
#[derive(Debug)]
pub struct NotificationQueue {
    pub items: Vec<Notification>,
}

impl View for NotificationQueue {
    type V = Seq<NotificationView>;

    open spec fn view(&self) -> Seq<NotificationView> {
        self.items@.map_values(|n: Notification| n@)
    }
}

impl NotificationQueue {
    /// An empty queue.
    pub fn new() -> (q: NotificationQueue)
        ensures
            q@ == Seq::<NotificationView>::empty(),
    {
        let q = NotificationQueue { items: Vec::new() };
        proof {
            assert(q@ =~= Seq::<NotificationView>::empty());
        }
        q
    }

    /// How many notifications the queue holds.
    pub fn len(&self) -> (l: usize)
        ensures
            l == self@.len(),
    {
        self.items.len()
    }

    /// Appends a message at the tail with the fixed initial ttl.
    pub fn push(&mut self, message: String, level: NotificationLevel)
        ensures
            final(self)@ == old(self)@.push(
                NotificationView { message: message@, level, ttl: DEFAULT_TTL as nat },
            ),
    {
        let ghost prior = self@;
        self.items.push(Notification { message, level, ttl: DEFAULT_TTL });
        proof {
            assert(self@ =~= prior.push(self.items@.last()@));
        }
    }

    /// One timer tick: drops the expired notifications, then decrements the
    /// ttl of every remaining one.
    pub fn tick(&mut self)
        ensures
            final(self)@ == spec_tick(old(self)@),
    {
        let ghost qv = self@;
        let mut out: Vec<Notification> = Vec::new();
        let mut i: usize = 0;
        proof {
            assert(out@.map_values(|n: Notification| n@) =~= spec_tick(qv.take(0)));
        }
        while i < self.items.len()
            invariant
                0 <= i <= self.items.len(),
                qv == self.items@.map_values(|n: Notification| n@),
                qv.len() == self.items.len(),
                out@.map_values(|n: Notification| n@) == spec_tick(qv.take(i as int)),
            decreases self.items.len() - i,
        {
            proof {
                assert(qv.take(i + 1).drop_last() =~= qv.take(i as int));
                assert(qv.take(i + 1).last() == qv[i as int]);
                assert(qv[i as int] == self.items@[i as int]@);
            }
            let ghost out_pre = out@.map_values(|n: Notification| n@);
            let n = &self.items[i];
            if n.ttl > 0 {
                let survivor = Notification {
                    message: n.message.clone(),
                    level: n.level,
                    ttl: n.ttl - 1,
                };
                assert(survivor@ == dec_ttl(qv[i as int]));
                out.push(survivor);
                proof {
                    assert(out@.map_values(|n: Notification| n@) =~= out_pre.push(
                        dec_ttl(qv[i as int]),
                    ));
                    assert(out_pre.push(dec_ttl(qv[i as int])) =~= spec_tick(qv.take(i + 1)));
                }
            } else {
                proof {
                    assert(spec_tick(qv.take(i + 1)) =~= spec_tick(qv.take(i as int)));
                }
            }
            i = i + 1;
        }
        proof {
            assert(qv.take(self.items.len() as int) =~= qv);
        }
        self.items = out;
    }
}

/// A notification that still has ttl left survives one tick, with its ttl
/// one lower and its message and level unchanged.
proof fn lemma_live_notification_survives_tick(q: Seq<NotificationView>, i: int)
    requires
        0 <= i < q.len(),
        q[i].ttl > 0,
    ensures
        exists|j: int|
            0 <= j < spec_tick(q).len() && spec_tick(q)[j] == dec_ttl(q[i]),
    decreases q.len(),
{
    if i == q.len() - 1 {
        let t = spec_tick(q);
        assert(q.last() == q[i]);
        assert(t[t.len() - 1] == dec_ttl(q[i]));
    } else {
        assert(q.drop_last()[i] == q[i]);
        lemma_live_notification_survives_tick(q.drop_last(), i);
        let j = choose|j: int|
            0 <= j < spec_tick(q.drop_last()).len() && spec_tick(q.drop_last())[j] == dec_ttl(
                q[i],
            );
        assert(spec_tick(q)[j] == dec_ttl(q[i]));
    }
}

/// A notification whose ttl is at least `k` is still in the queue after `k`
/// ticks, with its ttl lowered by `k` and its message and level unchanged.
/// In particular, one pushed with ttl `t` is present after every tick up to
/// and including the `t`-th.
pub proof fn lemma_notification_present(q: Seq<NotificationView>, i: int, k: nat)
    requires
        0 <= i < q.len(),
        k <= q[i].ttl,
    ensures
        exists|j: int|
            0 <= j < spec_tick_n(q, k).len() && spec_tick_n(q, k)[j] == (NotificationView {
                message: q[i].message,
                level: q[i].level,
                ttl: (q[i].ttl - k) as nat,
            }),
    decreases k,
{
    if k == 0 {
        assert(spec_tick_n(q, 0)[i] =~= (NotificationView {
            message: q[i].message,
            level: q[i].level,
            ttl: (q[i].ttl - 0) as nat,
        }));
    } else {
        lemma_live_notification_survives_tick(q, i);
        let j = choose|j: int|
            0 <= j < spec_tick(q).len() && spec_tick(q)[j] == dec_ttl(q[i]);
        lemma_notification_present(spec_tick(q), j, (k - 1) as nat);
        assert(spec_tick_n(q, k) == spec_tick_n(spec_tick(q), (k - 1) as nat));
        assert((NotificationView {
            message: spec_tick(q)[j].message,
            level: spec_tick(q)[j].level,
            ttl: (spec_tick(q)[j].ttl - (k - 1)) as nat,
        }) =~= (NotificationView {
            message: q[i].message,
            level: q[i].level,
            ttl: (q[i].ttl - k) as nat,
        }));
    }
}

/// After one tick, every remaining ttl sits under a bound one lower.
proof fn lemma_tick_lowers_bound(q: Seq<NotificationView>, b: nat)
    requires
        b >= 1,
        forall|i: int| 0 <= i < q.len() ==> q[i].ttl < b,
    ensures
        forall|j: int| 0 <= j < spec_tick(q).len() ==> spec_tick(q)[j].ttl < b - 1,
    decreases q.len(),
{
    if q.len() > 0 {
        assert(forall|i: int|
            0 <= i < q.drop_last().len() ==> #[trigger] q.drop_last()[i].ttl < b);
        lemma_tick_lowers_bound(q.drop_last(), b);
        assert(q.last() == q[q.len() - 1]);
        assert forall|j: int| 0 <= j < spec_tick(q).len() implies spec_tick(q)[j].ttl < b
            - 1 by {
            if j < spec_tick(q.drop_last()).len() {
                assert(spec_tick(q)[j] == spec_tick(q.drop_last())[j]);
            } else {
                assert(spec_tick(q)[j] == dec_ttl(q.last()));
            }
        }
    }
}

/// A notification pushed onto a queue it does not outlast is gone — with
/// the whole queue — one tick after its ttl has run out: pushed with ttl
/// `t`, it is still present after the `t`-th tick
/// (`lemma_notification_present`) and absent after the `t + 1`-th.
pub proof fn lemma_pushed_notification_expires(q: Seq<NotificationView>, n: NotificationView)
    requires
        forall|i: int| 0 <= i < q.len() ==> q[i].ttl <= n.ttl,
    ensures
        spec_tick_n(q.push(n), n.ttl + 1).len() == 0,
{
    assert(forall|i: int| 0 <= i < q.push(n).len() ==> #[trigger] q.push(n)[i].ttl < n.ttl + 1);
    lemma_notifications_expire(q.push(n), n.ttl + 1);
}

/// Once every ttl in the queue is below `b`, the queue is empty after `b`
/// ticks: no notification outlives its ttl by more than one tick.
pub proof fn lemma_notifications_expire(q: Seq<NotificationView>, b: nat)
    requires
        forall|i: int| 0 <= i < q.len() ==> q[i].ttl < b,
    ensures
        spec_tick_n(q, b).len() == 0,
    decreases b,
{
    if b == 0 {
        assert(q.len() == 0);
    } else {
        lemma_tick_lowers_bound(q, b);
        lemma_notifications_expire(spec_tick(q), (b - 1) as nat);
    }
}

} // verus!
