//! Properties of the bus that span its operations, stated over the views that
//! the operations' contracts use.
use crate::bus::{
    accepts, has_id, history_query, in_pipeline, most_recent, other_than, receives,
    SubscriberView,
};
use crate::clock::{clock_timestamp, duration_millis};
use crate::message::{ForgeMsgType, MessageView};
use std::time::{Duration, SystemTimeError};
use vstd::prelude::*;

verus! {

/// Filtering keeps a sequence whole when every element passes.
proof fn lemma_filter_keeps_all<A>(s: Seq<A>, p: spec_fn(A) -> bool)
    requires
        forall|i: int| 0 <= i < s.len() ==> p(#[trigger] s[i]),
    ensures
        s.filter(p) == s,
    decreases s.len(),
{
    if s.len() > 0 {
        let t = s.drop_last();
        assert forall|i: int| 0 <= i < t.len() implies p(#[trigger] t[i]) by {
            assert(t[i] == s[i]);
        }
        lemma_filter_keeps_all(t, p);
        assert(s =~= t.push(s.last()));
        t.lemma_filter_push(s.last(), p);
    }
}

/// The most recent `limit` elements number `limit`, or all of them when
/// there are fewer, and the `k`-th of them is the `(len - that number + k)`-th
/// element of the whole sequence.
proof fn lemma_most_recent_shape<A>(s: Seq<A>, limit: nat)
    ensures
        most_recent(s, limit).len() == if s.len() <= limit {
            s.len()
        } else {
            limit
        },
        forall|k: int|
            0 <= k < most_recent(s, limit).len() ==> #[trigger] most_recent(s, limit)[k] == s[s.len()
                - most_recent(s, limit).len() + k],
{
}

/// An empty filter list accepts every event type.
pub proof fn lemma_empty_filters_accept_all(t: ForgeMsgType)
    ensures
        accepts(Seq::<ForgeMsgType>::empty(), t),
{
}

/// When no subscriber has filters, every subscriber receives every message:
/// a publish delivers one copy per subscriber.
pub proof fn lemma_unfiltered_subscribers_receive_all(subs: Seq<SubscriberView>, t: ForgeMsgType)
    requires
        forall|i: int| 0 <= i < subs.len() ==> (#[trigger] subs[i]).filters.len() == 0,
    ensures
        subs.filter(receives(t)) == subs,
{
    lemma_filter_keeps_all(subs, receives(t));
}

/// Routing by filters: a subscriber that listed no event type receives every
/// message, and one that listed some receives a message exactly when the
/// message's type is one of those it listed.
pub proof fn lemma_routing_by_filters(s: SubscriberView, t: ForgeMsgType)
    ensures
        s.filters.len() == 0 ==> receives(t)(s),
        s.filters.len() > 0 ==> (receives(t)(s) <==> exists|i: int|
            0 <= i < s.filters.len() && #[trigger] s.filters[i] == t),
{
}

/// When every subscriber listed event types and none of them listed the
/// message's type, a publish delivers no copy.
pub proof fn lemma_no_delivery_without_matching_filter(subs: Seq<SubscriberView>, t: ForgeMsgType)
    requires
        forall|i: int| 0 <= i < subs.len() ==> (#[trigger] subs[i]).filters.len() > 0,
        forall|i: int, j: int|
            0 <= i < subs.len() && 0 <= j < subs[i].filters.len() ==> #[trigger] subs[i].filters[j]
                != t,
    ensures
        subs.filter(receives(t)).len() == 0,
{
    let f = subs.filter(receives(t));
    if f.len() > 0 {
        subs.lemma_filter_pred(receives(t), 0);
        assert(f.contains(f[0]));
        subs.lemma_filter_contains_rev(receives(t), f[0]);
        let i = choose|i: int| 0 <= i < subs.len() && subs[i] == f[0];
        assert(subs[i].filters.len() > 0);
        let j = choose|j: int| 0 <= j < subs[i].filters.len() && subs[i].filters[j] == t;
        assert(subs[i].filters[j] != t);
    }
}

/// A subscriber that listed the message's type always receives it.
pub proof fn lemma_listed_type_is_delivered(subs: Seq<SubscriberView>, t: ForgeMsgType, i: int)
    requires
        0 <= i < subs.len(),
        exists|j: int| 0 <= j < subs[i].filters.len() && #[trigger] subs[i].filters[j] == t,
    ensures
        subs.filter(receives(t)).contains(subs[i]),
{
    let j = choose|j: int| 0 <= j < subs[i].filters.len() && #[trigger] subs[i].filters[j] == t;
    assert(subs[i].filters.contains(t));
    subs.lemma_filter_contains(receives(t), i);
}

/// A publish never delivers more copies than there are subscribers.
pub proof fn lemma_deliveries_at_most_subscribers(subs: Seq<SubscriberView>, t: ForgeMsgType)
    ensures
        subs.filter(receives(t)).len() <= subs.len(),
{
    subs.lemma_filter_len(receives(t));
}

/// After an unsubscribe, no subscriber carries the identifier any more, so a
/// second unsubscribe of it removes nothing and reports `false`.
pub proof fn lemma_unsubscribe_is_final(subs: Seq<SubscriberView>, id: u128)
    ensures
        !has_id(subs.filter(other_than(id)), id),
        subs.filter(other_than(id)).filter(other_than(id)) == subs.filter(other_than(id)),
{
    let f = subs.filter(other_than(id));
    assert forall|i: int| 0 <= i < f.len() implies other_than(id)(#[trigger] f[i]) by {
        subs.lemma_filter_pred(other_than(id), i);
    }
    lemma_filter_keeps_all(f, other_than(id));
}

/// Unsubscribing leaves the other subscribers untouched, and it reports a
/// removal exactly when the number of subscribers drops.
pub proof fn lemma_unsubscribe_reports_removal(subs: Seq<SubscriberView>, id: u128)
    ensures
        has_id(subs, id) <==> subs.filter(other_than(id)).len() < subs.len(),
    decreases subs.len(),
{
    if subs.len() == 0 {
        assert(subs.filter(other_than(id)) =~= subs) by {
            lemma_filter_keeps_all(subs, other_than(id));
        }
    } else {
        let t = subs.drop_last();
        let x = subs.last();
        assert(subs =~= t.push(x));
        t.lemma_filter_push(x, other_than(id));
        t.lemma_filter_len(other_than(id));
        lemma_unsubscribe_reports_removal(t, id);
        if has_id(t, id) {
            let j = choose|j: int| #![trigger t[j]] 0 <= j < t.len() && t[j].id == id;
            assert(subs[j] == t[j]);
        }
        if has_id(subs, id) && x.id != id {
            let j = choose|j: int| #![trigger subs[j]] 0 <= j < subs.len() && subs[j].id == id;
            assert(j < t.len());
            assert(t[j] == subs[j]);
        }
        if x.id == id {
            assert(subs[subs.len() - 1] == x);
        }
    }
}

/// Unsubscribing the identifier that a subscribe has just handed out finds
/// it and restores the subscribers as they were before, provided that no
/// earlier subscriber carried that identifier.
pub proof fn lemma_unsubscribe_undoes_subscribe(subs: Seq<SubscriberView>, added: SubscriberView)
    requires
        !has_id(subs, added.id),
    ensures
        has_id(subs.push(added), added.id),
        subs.push(added).filter(other_than(added.id)) == subs,
{
    let s = subs.push(added);
    assert(s[subs.len() as int] == added);
    subs.lemma_filter_push(added, other_than(added.id));
    assert forall|i: int| 0 <= i < subs.len() implies other_than(added.id)(#[trigger] subs[i]) by {
        if subs[i].id == added.id {
            assert(has_id(subs, added.id));
        }
    }
    lemma_filter_keeps_all(subs, other_than(added.id));
}

/// No two subscribers carry the same identifier.
pub open spec fn distinct_ids(subs: Seq<SubscriberView>) -> bool {
    forall|i: int, j: int| 0 <= i < j < subs.len() ==> #[trigger] subs[i].id != #[trigger] subs[j].id
}

/// Subscribe hands out an identifier that no earlier subscriber carries (its
/// contract), so unsubscribing it right away removes exactly the subscriber
/// just added, reports the removal, and keeps identifiers distinct.
pub proof fn lemma_subscribe_then_unsubscribe(
    subs: Seq<SubscriberView>,
    id: u128,
    name: Seq<char>,
    filters: Seq<ForgeMsgType>,
)
    requires
        !has_id(subs, id),
    ensures
        has_id(subs.push(SubscriberView { id, name, filters }), id),
        subs.push(SubscriberView { id, name, filters }).filter(other_than(id)) == subs,
        subs.push(SubscriberView { id, name, filters }).filter(other_than(id)).len() == subs.len(),
        distinct_ids(subs) ==> distinct_ids(subs.push(SubscriberView { id, name, filters })),
{
    lemma_unsubscribe_undoes_subscribe(subs, SubscriberView { id, name, filters });
    if distinct_ids(subs) {
        lemma_subscribe_keeps_ids_distinct(subs, SubscriberView { id, name, filters });
    }
}

/// Subscribing under an identifier that no subscriber carries keeps the
/// identifiers distinct.
pub proof fn lemma_subscribe_keeps_ids_distinct(subs: Seq<SubscriberView>, added: SubscriberView)
    requires
        distinct_ids(subs),
        !has_id(subs, added.id),
    ensures
        distinct_ids(subs.push(added)),
{
    let s = subs.push(added);
    assert forall|i: int, j: int| 0 <= i < j < s.len() implies #[trigger] s[i].id
        != #[trigger] s[j].id by {
        assert(s[i] == subs[i]);
        if j < subs.len() {
            assert(s[j] == subs[j]);
        } else {
            assert(s[j] == added);
            if subs[i].id == added.id {
                assert(has_id(subs, added.id));
            }
        }
    }
}

/// Unsubscribing keeps the identifiers of the remaining subscribers
/// distinct.
pub proof fn lemma_unsubscribe_keeps_ids_distinct(subs: Seq<SubscriberView>, id: u128)
    requires
        distinct_ids(subs),
    ensures
        distinct_ids(subs.filter(other_than(id))),
    decreases subs.len(),
{
    if subs.len() > 0 {
        let t = subs.drop_last();
        let x = subs.last();
        assert(subs =~= t.push(x));
        assert(distinct_ids(t)) by {
            assert forall|i: int, j: int| 0 <= i < j < t.len() implies #[trigger] t[i].id
                != #[trigger] t[j].id by {
                assert(t[i] == subs[i] && t[j] == subs[j]);
            }
        }
        lemma_unsubscribe_keeps_ids_distinct(t, id);
        t.lemma_filter_push(x, other_than(id));
        let f = t.filter(other_than(id));
        if other_than(id)(x) {
            assert forall|k: int| 0 <= k < f.len() implies #[trigger] f[k].id != x.id by {
                assert(f.contains(f[k]));
                t.lemma_filter_contains_rev(other_than(id), f[k]);
                let j = choose|j: int| 0 <= j < t.len() && t[j] == f[k];
                assert(subs[j] == t[j]);
                assert(subs[subs.len() - 1] == x);
            }
            assert(!has_id(f, x.id));
            lemma_subscribe_keeps_ids_distinct(f, x);
        }
    }
}

/// When identifiers are distinct, a successful unsubscribe removes exactly
/// one subscriber.
pub proof fn lemma_unsubscribe_removes_one(subs: Seq<SubscriberView>, id: u128)
    requires
        distinct_ids(subs),
        has_id(subs, id),
    ensures
        subs.filter(other_than(id)).len() == subs.len() - 1,
    decreases subs.len(),
{
    let t = subs.drop_last();
    let x = subs.last();
    assert(subs =~= t.push(x));
    t.lemma_filter_push(x, other_than(id));
    assert(distinct_ids(t)) by {
        assert forall|i: int, j: int| 0 <= i < j < t.len() implies #[trigger] t[i].id
            != #[trigger] t[j].id by {
            assert(t[i] == subs[i] && t[j] == subs[j]);
        }
    }
    if x.id == id {
        assert forall|i: int| 0 <= i < t.len() implies other_than(id)(#[trigger] t[i]) by {
            assert(t[i] == subs[i]);
            assert(subs[subs.len() - 1] == x);
        }
        lemma_filter_keeps_all(t, other_than(id));
    } else {
        let j = choose|j: int| #![trigger subs[j]] 0 <= j < subs.len() && subs[j].id == id;
        assert(j < t.len());
        assert(t[j] == subs[j]);
        assert(has_id(t, id));
        lemma_unsubscribe_removes_one(t, id);
    }
}

/// A change to the subscriber list: what `subscribe_with_id` (and
/// `subscribe`, with a drawn identifier) and `unsubscribe` do to it.
pub enum MembershipOp {
    Subscribe(SubscriberView),
    Unsubscribe(u128),
}

/// The subscribers after one operation, as the operations' contracts state.
pub open spec fn apply_op(subs: Seq<SubscriberView>, op: MembershipOp) -> Seq<SubscriberView> {
    match op {
        MembershipOp::Subscribe(v) => subs.push(v),
        MembershipOp::Unsubscribe(id) => subs.filter(other_than(id)),
    }
}

/// The subscribers after a sequence of operations, applied in order.
pub open spec fn apply_ops(subs: Seq<SubscriberView>, ops: Seq<MembershipOp>) -> Seq<
    SubscriberView,
>
    decreases ops.len(),
{
    if ops.len() == 0 {
        subs
    } else {
        apply_op(apply_ops(subs, ops.drop_last()), ops.last())
    }
}

/// Every subscribe in the sequence uses an identifier that no subscriber
/// holds at that point.
pub open spec fn fresh_subscribes(subs: Seq<SubscriberView>, ops: Seq<MembershipOp>) -> bool
    decreases ops.len(),
{
    if ops.len() == 0 {
        true
    } else {
        &&& fresh_subscribes(subs, ops.drop_last())
        &&& match ops.last() {
            MembershipOp::Subscribe(v) => !has_id(apply_ops(subs, ops.drop_last()), v.id),
            MembershipOp::Unsubscribe(_) => true,
        }
    }
}

/// The number of subscribes in the sequence.
pub open spec fn subscribe_count(ops: Seq<MembershipOp>) -> nat
    decreases ops.len(),
{
    if ops.len() == 0 {
        0
    } else {
        subscribe_count(ops.drop_last()) + match ops.last() {
            MembershipOp::Subscribe(_) => 1nat,
            MembershipOp::Unsubscribe(_) => 0nat,
        }
    }
}

/// The number of unsubscribes in the sequence that report a removal.
pub open spec fn removal_count(subs: Seq<SubscriberView>, ops: Seq<MembershipOp>) -> nat
    decreases ops.len(),
{
    if ops.len() == 0 {
        0
    } else {
        removal_count(subs, ops.drop_last()) + match ops.last() {
            MembershipOp::Subscribe(_) => 0nat,
            MembershipOp::Unsubscribe(id) => if has_id(apply_ops(subs, ops.drop_last()), id) {
                1nat
            } else {
                0nat
            },
        }
    }
}

/// Starting from distinct identifiers, with every subscribe under a fresh
/// identifier, the identifiers stay distinct and the number of subscribers
/// is the starting number plus the subscribes minus the unsubscribes that
/// reported a removal.
pub proof fn lemma_subscriber_count_over_ops(subs: Seq<SubscriberView>, ops: Seq<MembershipOp>)
    requires
        distinct_ids(subs),
        fresh_subscribes(subs, ops),
    ensures
        distinct_ids(apply_ops(subs, ops)),
        apply_ops(subs, ops).len() + removal_count(subs, ops) == subs.len() + subscribe_count(ops),
    decreases ops.len(),
{
    if ops.len() > 0 {
        let prev = apply_ops(subs, ops.drop_last());
        lemma_subscriber_count_over_ops(subs, ops.drop_last());
        match ops.last() {
            MembershipOp::Subscribe(v) => {
                lemma_subscribe_keeps_ids_distinct(prev, v);
            },
            MembershipOp::Unsubscribe(id) => {
                lemma_unsubscribe_keeps_ids_distinct(prev, id);
                if has_id(prev, id) {
                    lemma_unsubscribe_removes_one(prev, id);
                } else {
                    lemma_unsubscribe_reports_removal(prev, id);
                    prev.lemma_filter_len(other_than(id));
                }
            },
        }
    }
}

/// The timestamp that `now_ms` and the builders record for a clock reading
/// is the whole number of milliseconds elapsed since the Unix epoch (while
/// that fits in 64 bits), and 0 for a reading before the epoch.
pub proof fn lemma_timestamp_of_reading(since: Result<Duration, SystemTimeError>)
    ensures
        since matches Ok(d) ==> (duration_millis(d) < 0x1_0000_0000_0000_0000 ==> clock_timestamp(
            since,
        ) == duration_millis(d)),
        since is Err ==> clock_timestamp(since) == 0,
{
}

/// A history query for a pipeline returns only messages of that pipeline.
pub proof fn lemma_history_stays_in_pipeline(
    history: Seq<MessageView>,
    pipeline_id: u128,
    limit: nat,
)
    ensures
        forall|k: int|
            0 <= k < history_query(history, Some(pipeline_id), limit).len() ==> (#[trigger] history_query(
                history,
                Some(pipeline_id),
                limit,
            )[k]).pipeline_id == pipeline_id,
{
    let p = in_pipeline(Some(pipeline_id));
    let f = history.filter(p);
    lemma_most_recent_shape(f, limit);
    assert forall|k: int|
        0 <= k < history_query(history, Some(pipeline_id), limit).len() implies (
    #[trigger] history_query(history, Some(pipeline_id), limit)[k]).pipeline_id == pipeline_id by {
        let n = most_recent(f, limit).len();
        history.lemma_filter_pred(p, f.len() - n + k);
    }
}

/// A history query returns `limit` messages, or every message it considers
/// when there are fewer; without a pipeline it considers the whole history,
/// and then it returns exactly the most recent messages.
pub proof fn lemma_history_size(history: Seq<MessageView>, pipeline_id: Option<u128>, limit: nat)
    ensures
        history_query(history, pipeline_id, limit).len() <= limit,
        history_query(history, pipeline_id, limit).len() == if history.filter(
            in_pipeline(pipeline_id),
        ).len() <= limit {
            history.filter(in_pipeline(pipeline_id)).len()
        } else {
            limit
        },
        history_query(history, None, limit) == most_recent(history, limit),
{
    lemma_most_recent_shape(history.filter(in_pipeline(pipeline_id)), limit);
    lemma_filter_keeps_all(history, in_pipeline(None));
}

/// A message just published is the newest entry of its pipeline's history
/// and of the whole history.
pub proof fn lemma_publish_then_history(history: Seq<MessageView>, msg: MessageView, limit: nat)
    requires
        limit >= 1,
    ensures
        history_query(history.push(msg), Some(msg.pipeline_id), limit).last() == msg,
        history_query(history.push(msg), None, limit).last() == msg,
{
    let p = in_pipeline(Some(msg.pipeline_id));
    history.lemma_filter_push(msg, p);
    history.lemma_filter_push(msg, in_pipeline(None));
    lemma_most_recent_shape(history.filter(p).push(msg), limit);
    lemma_most_recent_shape(history.filter(in_pipeline(None)).push(msg), limit);
}

/// Publishing a message of one pipeline leaves the history of every other
/// pipeline unchanged.
pub proof fn lemma_publish_leaves_other_pipelines(
    history: Seq<MessageView>,
    msg: MessageView,
    pipeline_id: u128,
    limit: nat,
)
    requires
        msg.pipeline_id != pipeline_id,
    ensures
        history_query(history.push(msg), Some(pipeline_id), limit) == history_query(
            history,
            Some(pipeline_id),
            limit,
        ),
{
    history.lemma_filter_push(msg, in_pipeline(Some(pipeline_id)));
}

} // verus!
