use crate::ids::{fresh_id, is_random_uuid};
use crate::message::{copy_types, ForgeMessage, ForgeMsgType, MessageView};
use vstd::prelude::*;
use vstd::string::*;

verus! {

/// A named subscriber with a list of event types it wants; an empty list
/// asks for every event.
#[derive(Debug)]
pub struct ForgeSubscriber {
    pub id: u128,
    pub name: String,
    pub filters: Vec<ForgeMsgType>,
}

/// The mathematical value of a [`ForgeSubscriber`].
pub struct SubscriberView {
    pub id: u128,
    pub name: Seq<char>,
    pub filters: Seq<ForgeMsgType>,
}

impl View for ForgeSubscriber {
    type V = SubscriberView;

    open spec fn view(&self) -> SubscriberView {
        SubscriberView { id: self.id, name: self.name@, filters: self.filters@ }
    }
}

/// A subscriber with these filters receives messages of type `t`: an empty
/// filter list matches everything.
pub open spec fn accepts(filters: Seq<ForgeMsgType>, t: ForgeMsgType) -> bool {
    filters.len() == 0 || filters.contains(t)
}

/// The subscribers that receive a message of type `t`.
pub open spec fn receives(t: ForgeMsgType) -> spec_fn(SubscriberView) -> bool {
    |s: SubscriberView| accepts(s.filters, t)
}

/// The subscribers that do not carry the identifier `id`.
pub open spec fn other_than(id: u128) -> spec_fn(SubscriberView) -> bool {
    |s: SubscriberView| s.id != id
}

/// Some subscriber carries the identifier `id`.
pub open spec fn has_id(subs: Seq<SubscriberView>, id: u128) -> bool {
    exists|i: int| 0 <= i < subs.len() && subs[i].id == id
}

/// The messages that a history query for `pipeline_id` considers: those of
/// that pipeline, or all of them for `None`.
pub open spec fn in_pipeline(pipeline_id: Option<u128>) -> spec_fn(MessageView) -> bool {
    |m: MessageView|
        match pipeline_id {
            Some(p) => m.pipeline_id == p,
            None => true,
        }
}

/// The last `limit` elements of `s` (all of `s` when it is shorter), in order.
pub open spec fn most_recent<A>(s: Seq<A>, limit: nat) -> Seq<A> {
    if s.len() <= limit {
        s
    } else {
        s.subrange(s.len() - limit, s.len() as int)
    }
}

/// The answer to a history query: the `limit` most recent messages of the
/// pipeline (of any pipeline for `None`), oldest first.
pub open spec fn history_query(h: Seq<MessageView>, pipeline_id: Option<u128>, limit: nat) -> Seq<
    MessageView,
> {
    most_recent(h.filter(in_pipeline(pipeline_id)), limit)
}

/// The mathematical value of a [`ForgeBus`]: its subscribers in the order in
/// which they subscribed, and every message published, oldest first.
pub struct BusView {
    pub subscribers: Seq<SubscriberView>,
    pub history: Seq<MessageView>,
}

/// The views of a sequence of subscribers.
pub open spec fn subscriber_views(v: Seq<ForgeSubscriber>) -> Seq<SubscriberView> {
    v.map_values(|s: ForgeSubscriber| s@)
}

/// The views of a sequence of messages.
pub open spec fn message_views(v: Seq<ForgeMessage>) -> Seq<MessageView> {
    v.map_values(|m: ForgeMessage| m@)
}

impl Clone for ForgeSubscriber {
    fn clone(&self) -> (r: Self)
        ensures
            r@ == self@,
    {
        let filters = copy_types(&self.filters);
        ForgeSubscriber { id: self.id, name: self.name.clone(), filters }
    }
}

impl ForgeSubscriber {
    /// Whether this subscriber receives a message of type `t`.
    fn wants(&self, t: ForgeMsgType) -> (r: bool)
        ensures
            r == accepts(self@.filters, t),
    {
        let n = self.filters.len();
        if n == 0 {
            return true;
        }
        for i in 0..n
            invariant
                n == self.filters.len(),
                forall|j: int| 0 <= j < i ==> self.filters@[j] != t,
        {
            if self.filters[i] == t {
                return true;
            }
        }
        false
    }
}

/// In-process publish/subscribe bus with filter-based routing and a history
/// of every message published.
#[derive(Debug)]
pub struct ForgeBus {
    subscribers: Vec<ForgeSubscriber>,
    history: Vec<ForgeMessage>,
}

impl View for ForgeBus {
    type V = BusView;

    closed spec fn view(&self) -> BusView {
        BusView {
            subscribers: subscriber_views(self.subscribers@),
            history: message_views(self.history@),
        }
    }
}

impl ForgeBus {
    /// A bus with no subscribers and an empty history.
    pub fn new() -> (r: Self)
        ensures
            r@.subscribers == Seq::<SubscriberView>::empty(),
            r@.history == Seq::<MessageView>::empty(),
    {
        let r = ForgeBus { subscribers: Vec::new(), history: Vec::new() };
        assert(r@.subscribers =~= Seq::<SubscriberView>::empty());
        assert(r@.history =~= Seq::<MessageView>::empty());
        r
    }

    /// Adds a subscriber named `name` with the given filters and returns its
    /// fresh random identifier.
    pub fn subscribe(&mut self, name: &str, filters: Vec<ForgeMsgType>) -> (id: u128)
        ensures
            final(self)@.subscribers == old(self)@.subscribers.push(
                SubscriberView { id, name: name@, filters: filters@ },
            ),
            final(self)@.history == old(self)@.history,
            is_random_uuid(id),
            !has_id(old(self)@.subscribers, id),
    {
        let id = self.fresh_subscriber_id();
        self.subscribe_with_id(name, filters, id)
    }

    /// Whether some subscriber carries the identifier `id`.
    fn holds_id(&self, id: u128) -> (r: bool)
        ensures
            r == has_id(self@.subscribers, id),
    {
        let n = self.subscribers.len();
        for i in 0..n
            invariant
                n == self.subscribers.len(),
                forall|j: int| 0 <= j < i ==> (#[trigger] self@.subscribers[j]).id != id,
        {
            if self.subscribers[i].id == id {
                assert(self@.subscribers[i as int].id == id);
                return true;
            }
        }
        false
    }

    /// A random identifier that no subscriber carries: a freshly drawn one,
    /// or, should it collide, the first alternative to it that is free.
    fn fresh_subscriber_id(&self) -> (id: u128)
        ensures
            is_random_uuid(id),
            !has_id(self@.subscribers, id),
    {
        let drawn = fresh_id();
        if !self.holds_id(drawn) {
            return drawn;
        }
        let n = self.subscribers.len();
        let last: u128 = n as u128;
        let mut k: u128 = 0;
        while k <= last
            invariant
                last == self@.subscribers.len(),
                last < 0x1_0000_0000_0000_0000,
                is_random_uuid(drawn),
                k <= last + 1,
                forall|j: u128| j < k ==> has_id(self@.subscribers, #[trigger] alternative_id(drawn, j)),
            decreases last + 1 - k,
        {
            let c = alternative(drawn, k);
            if !self.holds_id(c) {
                proof {
                    lemma_alternative_layout(drawn, k);
                }
                return c;
            }
            k = k + 1;
        }
        proof {
            lemma_some_alternative_free(self@.subscribers, drawn);
        }
        drawn
    }

    /// Adds a subscriber named `name` with the given filters under the
    /// identifier `id`, and returns that identifier.
    pub fn subscribe_with_id(&mut self, name: &str, filters: Vec<ForgeMsgType>, id: u128) -> (r:
        u128)
        ensures
            r == id,
            final(self)@.subscribers == old(self)@.subscribers.push(
                SubscriberView { id, name: name@, filters: filters@ },
            ),
            final(self)@.history == old(self)@.history,
    {
        let sub = ForgeSubscriber { id, name: String::from_str(name), filters };
        self.subscribers.push(sub);
        assert(subscriber_views(self.subscribers@) =~= subscriber_views(
            old(self).subscribers@,
        ).push(sub@));
        id
    }

    /// Removes every subscriber with identifier `id`; returns whether one was
    /// removed.
    pub fn unsubscribe(&mut self, id: u128) -> (removed: bool)
        ensures
            final(self)@.subscribers == old(self)@.subscribers.filter(other_than(id)),
            final(self)@.history == old(self)@.history,
            removed == has_id(old(self)@.subscribers, id),
    {
        let ghost subs = self@.subscribers;
        let n = self.subscribers.len();
        let mut kept: Vec<ForgeSubscriber> = Vec::new();
        let mut found = false;
        for i in 0..n
            invariant
                n == self.subscribers.len(),
                subs == self@.subscribers,
                subs.len() == n,
                subscriber_views(kept@) == subs.take(i as int).filter(other_than(id)),
                found == has_id(subs.take(i as int), id),
        {
            let ghost before = kept@;
            proof {
                assert(subs.take(i + 1) =~= subs.take(i as int).push(subs[i as int]));
                subs.take(i as int).lemma_filter_push(subs[i as int], other_than(id));
            }
            if self.subscribers[i].id != id {
                let s = self.subscribers[i].clone();
                kept.push(s);
                assert(subscriber_views(kept@) =~= subscriber_views(before).push(s@));
            } else {
                found = true;
            }
            proof {
                lemma_has_id_push(subs.take(i as int), subs[i as int], id);
            }
        }
        assert(subs.take(n as int) =~= subs);
        self.subscribers = kept;
        found
    }

    /// Publishes a message: records it in the history and returns a copy of
    /// it for each subscriber whose filters accept its type (empty filters
    /// accept everything).
    pub fn publish(&mut self, msg: ForgeMessage) -> (delivered: Vec<ForgeMessage>)
        ensures
            final(self)@.subscribers == old(self)@.subscribers,
            final(self)@.history == old(self)@.history.push(msg@),
            delivered.len() == old(self)@.subscribers.filter(receives(msg.msg_type)).len(),
            forall|i: int| 0 <= i < delivered.len() ==> (#[trigger] delivered@[i])@ == msg@,
    {
        let ghost subs = self@.subscribers;
        let n = self.subscribers.len();
        let mut delivered: Vec<ForgeMessage> = Vec::new();
        for i in 0..n
            invariant
                n == self.subscribers.len(),
                subs == self@.subscribers,
                subs.len() == n,
                delivered.len() == subs.take(i as int).filter(receives(msg.msg_type)).len(),
                forall|j: int| 0 <= j < delivered.len() ==> (#[trigger] delivered@[j])@ == msg@,
        {
            proof {
                assert(subs.take(i + 1) =~= subs.take(i as int).push(subs[i as int]));
                subs.take(i as int).lemma_filter_push(subs[i as int], receives(msg.msg_type));
            }
            if self.subscribers[i].wants(msg.msg_type) {
                delivered.push(msg.clone());
            }
        }
        assert(subs.take(n as int) =~= subs);
        let ghost old_history = self.history@;
        self.history.push(msg);
        assert(message_views(self.history@) =~= message_views(old_history).push(msg@));
        delivered
    }

    /// The `limit` most recent messages of pipeline `pipeline_id` (of every
    /// pipeline for `None`), oldest first.
    pub fn history(&self, pipeline_id: Option<u128>, limit: usize) -> (r: Vec<&ForgeMessage>)
        ensures
            r.len() == history_query(self@.history, pipeline_id, limit as nat).len(),
            forall|i: int|
                0 <= i < r.len() ==> (#[trigger] r@[i])@ == history_query(
                    self@.history,
                    pipeline_id,
                    limit as nat,
                )[i],
    {
        let ghost h = self@.history;
        let ghost p = in_pipeline(pipeline_id);
        let n = self.history.len();
        // First pass: how many messages the query considers.
        let mut total: usize = 0;
        for i in 0..n
            invariant
                n == self.history.len(),
                h == self@.history,
                h.len() == n,
                p == in_pipeline(pipeline_id),
                total <= i,
                total == h.take(i as int).filter(p).len(),
        {
            proof {
                assert(h.take(i + 1) =~= h.take(i as int).push(h[i as int]));
                h.take(i as int).lemma_filter_push(h[i as int], p);
                h.take(i + 1).lemma_filter_len(p);
            }
            if self.selects(pipeline_id, i) {
                total = total + 1;
            }
        }
        assert(h.take(n as int) =~= h);
        let start: usize = if total <= limit {
            0
        } else {
            total - limit
        };
        // Second pass: keep the considered messages from position `start` on.
        let mut seen: usize = 0;
        let mut r: Vec<&ForgeMessage> = Vec::new();
        for i in 0..n
            invariant
                n == self.history.len(),
                h == self@.history,
                h.len() == n,
                p == in_pipeline(pipeline_id),
                total == h.filter(p).len(),
                start <= total,
                seen == h.take(i as int).filter(p).len(),
                r.len() == seen - (if start <= seen { start } else { seen }),
                forall|k: int|
                    0 <= k < r.len() ==> (#[trigger] r@[k])@ == h.take(i as int).filter(p)[(if start
                        <= seen {
                        start
                    } else {
                        seen
                    }) + k],
        {
            proof {
                assert(h.take(i + 1) =~= h.take(i as int).push(h[i as int]));
                h.take(i as int).lemma_filter_push(h[i as int], p);
                lemma_filter_prefix_len(h, p, i + 1);
            }
            if self.selects(pipeline_id, i) {
                if seen >= start {
                    r.push(&self.history[i]);
                }
                seen = seen + 1;
            }
        }
        proof {
            assert(h.take(n as int) =~= h);
        }
        r
    }

    /// Whether the history query for `pipeline_id` considers message `i`.
    fn selects(&self, pipeline_id: Option<u128>, i: usize) -> (r: bool)
        requires
            i < self@.history.len(),
        ensures
            r == in_pipeline(pipeline_id)(self@.history[i as int]),
    {
        match pipeline_id {
            Some(p) => self.history[i].pipeline_id == p,
            None => true,
        }
    }

    /// The number of subscribers.
    pub fn subscriber_count(&self) -> (r: usize)
        ensures
            r == self@.subscribers.len(),
    {
        self.subscribers.len()
    }

    /// The number of messages published so far.
    pub fn message_count(&self) -> (r: usize)
        ensures
            r == self@.history.len(),
    {
        self.history.len()
    }
}

/// The bits of an identifier that [`alternative_id`] replaces: the low 62
/// bits and bits 64 to 66, none of which belongs to the UUID layout.
pub const ALTERNATIVE_BITS: u128 = 0x0000_0000_0000_0007_3FFF_FFFF_FFFF_FFFFu128;

/// The `k`-th alternative to the identifier `base` (`k < 2^65`): `base` with
/// its low 62 bits taken from `k` and bits 64 to 66 from the next three bits
/// of `k`.
pub open spec fn alternative_id(base: u128, k: u128) -> u128 {
    (base & !ALTERNATIVE_BITS) | (k & 0x3FFF_FFFF_FFFF_FFFFu128) | (((k >> 62u128) & 7u128) << 64u128)
}

fn alternative(base: u128, k: u128) -> (r: u128)
    ensures
        r == alternative_id(base, k),
{
    (base & !ALTERNATIVE_BITS) | (k & 0x3FFF_FFFF_FFFF_FFFFu128) | (((k >> 62u128) & 7u128) << 64u128)
}

/// An alternative keeps the layout of a random identifier.
proof fn lemma_alternative_layout(base: u128, k: u128)
    requires
        is_random_uuid(base),
    ensures
        is_random_uuid(alternative_id(base, k)),
{
    assert(base & 0x0000_0000_0000_F000_C000_0000_0000_0000u128
        == 0x0000_0000_0000_4000_8000_0000_0000_0000u128 ==> ((base
        & !0x0000_0000_0000_0007_3FFF_FFFF_FFFF_FFFFu128) | (k & 0x3FFF_FFFF_FFFF_FFFFu128) | (((k
        >> 62u128) & 7u128) << 64u128)) & 0x0000_0000_0000_F000_C000_0000_0000_0000u128
        == 0x0000_0000_0000_4000_8000_0000_0000_0000u128) by (bit_vector);
}

/// Distinct indices below `2^65` give distinct alternatives.
proof fn lemma_alternative_injective(base: u128, j: u128, k: u128)
    requires
        j < 0x2_0000_0000_0000_0000u128,
        k < 0x2_0000_0000_0000_0000u128,
        j != k,
    ensures
        alternative_id(base, j) != alternative_id(base, k),
{
    assert(j < 0x2_0000_0000_0000_0000u128 && k < 0x2_0000_0000_0000_0000u128 && j != k ==> ((base
        & !0x0000_0000_0000_0007_3FFF_FFFF_FFFF_FFFFu128) | (j & 0x3FFF_FFFF_FFFF_FFFFu128) | (((j
        >> 62u128) & 7u128) << 64u128)) != ((base & !0x0000_0000_0000_0007_3FFF_FFFF_FFFF_FFFFu128) | (k
        & 0x3FFF_FFFF_FFFF_FFFFu128) | (((k >> 62u128) & 7u128) << 64u128))) by (bit_vector);
}

/// Among the first `subs.len() + 1` alternatives to an identifier, one is
/// carried by no subscriber: there are more of them than subscribers.
proof fn lemma_some_alternative_free(subs: Seq<SubscriberView>, base: u128)
    requires
        subs.len() < 0x1_0000_0000_0000_0000,
    ensures
        exists|j: u128| j <= subs.len() && !has_id(subs, #[trigger] alternative_id(base, j)),
{
    broadcast use vstd::seq_lib::seq_to_set_is_finite;

    if forall|j: u128| j <= subs.len() ==> has_id(subs, #[trigger] alternative_id(base, j)) {
        let n = subs.len();
        let ids = Seq::new(n, |i: int| subs[i].id);
        let cands = Seq::new(n + 1, |k: int| alternative_id(base, k as u128));
        assert(cands.no_duplicates()) by {
            assert forall|a: int, b: int|
                0 <= a < cands.len() && 0 <= b < cands.len() && a != b implies cands[a]
                != cands[b] by {
                lemma_alternative_injective(base, a as u128, b as u128);
            }
        }
        cands.unique_seq_to_set();
        assert(cands.to_set().subset_of(ids.to_set())) by {
            assert forall|v: u128| cands.to_set().contains(v) implies ids.to_set().contains(v) by {
                let k = choose|k: int| 0 <= k < cands.len() && cands[k] == v;
                assert(has_id(subs, alternative_id(base, k as u128)));
                let i = choose|i: int| 0 <= i < subs.len() && subs[i].id == v;
                assert(ids[i] == v);
            }
        }
        vstd::set_lib::lemma_len_subset(cands.to_set(), ids.to_set());
        ids.lemma_cardinality_of_set();
    }
}

/// Adding a subscriber adds its identifier to those present.
proof fn lemma_has_id_push(s: Seq<SubscriberView>, x: SubscriberView, id: u128)
    ensures
        has_id(s.push(x), id) == (has_id(s, id) || x.id == id),
{
    let t = s.push(x);
    if has_id(s, id) {
        let j = choose|j: int| #![trigger s[j]] 0 <= j < s.len() && s[j].id == id;
        assert(t[j] == s[j]);
    }
    if x.id == id {
        assert(t[s.len() as int] == x);
    }
    if has_id(t, id) {
        let j = choose|j: int| #![trigger t[j]] 0 <= j < t.len() && t[j].id == id;
        if j < s.len() {
            assert(t[j] == s[j]);
        }
    }
}

/// The messages a query considers among the first `i` are no more than those
/// it considers among all.
proof fn lemma_filter_prefix_len(h: Seq<MessageView>, p: spec_fn(MessageView) -> bool, i: int)
    requires
        0 <= i <= h.len(),
    ensures
        h.take(i).filter(p).len() <= h.filter(p).len(),
    decreases h.len() - i,
{
    if i < h.len() {
        assert(h.take(i + 1) =~= h.take(i).push(h[i]));
        h.take(i).lemma_filter_push(h[i], p);
        lemma_filter_prefix_len(h, p, i + 1);
    } else {
        assert(h.take(i) =~= h);
    }
}

impl Clone for ForgeBus {
    fn clone(&self) -> (r: Self)
        ensures
            r@ == self@,
    {
        let ghost subs = self@.subscribers;
        let ghost hist = self@.history;
        let n = self.subscribers.len();
        let mut subscribers: Vec<ForgeSubscriber> = Vec::new();
        for i in 0..n
            invariant
                n == self.subscribers.len(),
                subs == self@.subscribers,
                subs.len() == n,
                subscriber_views(subscribers@) == subs.take(i as int),
        {
            let s = self.subscribers[i].clone();
            let ghost before = subscribers@;
            subscribers.push(s);
            assert(subscriber_views(subscribers@) =~= subscriber_views(before).push(s@));
            assert(subs.take(i + 1) =~= subs.take(i as int).push(subs[i as int]));
        }
        assert(subs.take(n as int) =~= subs);
        let m = self.history.len();
        let mut history: Vec<ForgeMessage> = Vec::new();
        for i in 0..m
            invariant
                m == self.history.len(),
                hist == self@.history,
                hist.len() == m,
                message_views(history@) == hist.take(i as int),
        {
            let msg = self.history[i].clone();
            let ghost before = history@;
            history.push(msg);
            assert(message_views(history@) =~= message_views(before).push(msg@));
            assert(hist.take(i + 1) =~= hist.take(i as int).push(hist[i as int]));
        }
        assert(hist.take(m as int) =~= hist);
        ForgeBus { subscribers, history }
    }
}

impl Default for ForgeBus {
    fn default() -> (r: Self)
        ensures
            r@.subscribers == Seq::<SubscriberView>::empty(),
            r@.history == Seq::<MessageView>::empty(),
    {
        Self::new()
    }
}

} // verus!
