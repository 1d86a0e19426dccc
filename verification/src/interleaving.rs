//! The order in which the updates of the sender and of the receiver reach the
//! table of hosts does not matter, as long as each producer's own order is kept.

use crate::host::{apply_all_to_table, apply_to_table, HostStats, StatusUpdate};
use vstd::prelude::*;

verus! {

/// Whether `merged` interleaves `first` and `second`: it holds the updates of
/// both, each sequence in its own order.
pub open spec fn is_interleaving(
    merged: Seq<StatusUpdate>,
    first: Seq<StatusUpdate>,
    second: Seq<StatusUpdate>,
) -> bool
    decreases merged.len(),
{
    if merged.len() == 0 {
        first.len() == 0 && second.len() == 0
    } else {
        ||| (first.len() > 0 && merged[0] == first[0] && is_interleaving(
            merged.drop_first(),
            first.drop_first(),
            second,
        ))
        ||| (second.len() > 0 && merged[0] == second[0] && is_interleaving(
            merged.drop_first(),
            first,
            second.drop_first(),
        ))
    }
}

/// Whether every update of `updates` is one that the sender emits.
pub open spec fn all_from_sender(updates: Seq<StatusUpdate>) -> bool {
    forall|k: int| 0 <= k < updates.len() ==> (#[trigger] updates[k]).from_sender()
}

/// Whether every update of `updates` is one that the receiver emits.
pub open spec fn all_from_receiver(updates: Seq<StatusUpdate>) -> bool {
    forall|k: int| 0 <= k < updates.len() ==> #[trigger] updates[k] is Received
}

/// Whether every update of `updates` is `Sent`.
pub open spec fn all_sent(updates: Seq<StatusUpdate>) -> bool {
    forall|k: int| 0 <= k < updates.len() ==> #[trigger] updates[k] is Sent
}

/// The part of the statistics that is compared: all of it where `exact`, all but
/// the last error otherwise.
pub open spec fn compared(stats: HostStats, exact: bool) -> HostStats {
    if exact {
        stats
    } else {
        stats.without_error()
    }
}

/// No update reads the last error: what is compared after a sequence of updates
/// depends only on what is compared before it.
proof fn lemma_compared_apply_all(a: HostStats, b: HostStats, updates: Seq<StatusUpdate>, exact: bool)
    requires
        compared(a, exact) == compared(b, exact),
    ensures
        compared(a.apply_all(updates), exact) == compared(b.apply_all(updates), exact),
    decreases updates.len(),
{
    if updates.len() > 0 {
        lemma_compared_apply_all(
            a.apply(updates[0]),
            b.apply(updates[0]),
            updates.drop_first(),
            exact,
        );
    }
}

/// A reply may be counted before or after the updates of the sender.
proof fn lemma_reply_moves_past_sender(
    stats: HostStats,
    reply: StatusUpdate,
    sender: Seq<StatusUpdate>,
    exact: bool,
)
    requires
        reply is Received,
        all_from_sender(sender),
        exact ==> all_sent(sender),
    ensures
        compared(stats.apply(reply).apply_all(sender), exact) == compared(
            stats.apply_all(sender).apply(reply),
            exact,
        ),
    decreases sender.len(),
{
    if sender.len() > 0 {
        let head = sender[0];
        let tail = sender.drop_first();
        assert(head.from_sender());
        assert(exact ==> head is Sent);
        assert(forall|k: int| 0 <= k < tail.len() ==> tail[k] == sender[k + 1]);
        assert(compared(stats.apply(reply).apply(head), exact) == compared(
            stats.apply(head).apply(reply),
            exact,
        ));
        lemma_compared_apply_all(
            stats.apply(reply).apply(head),
            stats.apply(head).apply(reply),
            tail,
            exact,
        );
        lemma_reply_moves_past_sender(stats.apply(head), reply, tail, exact);
    }
}

/// Every interleaving gives what the sender's updates followed by the
/// receiver's give.
proof fn lemma_interleaving_as_sequence(
    stats: HostStats,
    merged: Seq<StatusUpdate>,
    sender: Seq<StatusUpdate>,
    receiver: Seq<StatusUpdate>,
    exact: bool,
)
    requires
        all_from_sender(sender),
        all_from_receiver(receiver),
        exact ==> all_sent(sender),
        is_interleaving(merged, sender, receiver),
    ensures
        compared(stats.apply_all(merged), exact) == compared(
            stats.apply_all(sender).apply_all(receiver),
            exact,
        ),
    decreases merged.len(),
{
    if merged.len() > 0 {
        let rest = merged.drop_first();
        if sender.len() > 0 && merged[0] == sender[0] && is_interleaving(
            rest,
            sender.drop_first(),
            receiver,
        ) {
            let tail = sender.drop_first();
            assert(forall|k: int| 0 <= k < tail.len() ==> tail[k] == sender[k + 1]);
            lemma_interleaving_as_sequence(stats.apply(sender[0]), rest, tail, receiver, exact);
        } else {
            let reply = receiver[0];
            let tail = receiver.drop_first();
            assert(reply is Received);
            assert(forall|k: int| 0 <= k < tail.len() ==> tail[k] == receiver[k + 1]);
            lemma_interleaving_as_sequence(stats.apply(reply), rest, sender, tail, exact);
            lemma_reply_moves_past_sender(stats, reply, sender, exact);
            lemma_compared_apply_all(
                stats.apply(reply).apply_all(sender),
                stats.apply_all(sender).apply(reply),
                tail,
                exact,
            );
        }
    }
}

/// With nothing from the receiver, the only interleaving is the sender's own
/// sequence.
proof fn lemma_interleaving_with_nothing(merged: Seq<StatusUpdate>, sender: Seq<StatusUpdate>)
    requires
        is_interleaving(merged, sender, Seq::<StatusUpdate>::empty()),
    ensures
        merged == sender,
    decreases merged.len(),
{
    if merged.len() > 0 {
        let rest = merged.drop_first();
        let tail = sender.drop_first();
        lemma_interleaving_with_nothing(rest, tail);
        assert(rest.len() == merged.len() - 1);
        assert(tail.len() == sender.len() - 1);
        assert forall|k: int| 0 <= k < merged.len() implies merged[k] == sender[k] by {
            if k > 0 {
                assert(merged[k] == rest[k - 1]);
                assert(sender[k] == tail[k - 1]);
            }
        }
    }
    assert(merged =~= sender);
}

/// Applying the updates of the sender and of the receiver to a host's record
/// gives the same counters, sums, latest, least and greatest latency in every
/// interleaving that keeps each producer's order. The last error is the same
/// too where the sender reported no error or the receiver reported nothing;
/// where an error and a reply meet, whichever comes last decides it.
pub proof fn lemma_interleaving_order_irrelevant(
    stats: HostStats,
    sender: Seq<StatusUpdate>,
    receiver: Seq<StatusUpdate>,
    one: Seq<StatusUpdate>,
    other: Seq<StatusUpdate>,
)
    requires
        all_from_sender(sender),
        all_from_receiver(receiver),
        is_interleaving(one, sender, receiver),
        is_interleaving(other, sender, receiver),
    ensures
        stats.apply_all(one).without_error() == stats.apply_all(other).without_error(),
        all_sent(sender) || receiver.len() == 0 ==> stats.apply_all(one) == stats.apply_all(other),
{
    lemma_interleaving_as_sequence(stats, one, sender, receiver, false);
    lemma_interleaving_as_sequence(stats, other, sender, receiver, false);
    if all_sent(sender) {
        lemma_interleaving_as_sequence(stats, one, sender, receiver, true);
        lemma_interleaving_as_sequence(stats, other, sender, receiver, true);
    } else if receiver.len() == 0 {
        assert(receiver =~= Seq::<StatusUpdate>::empty());
        lemma_interleaving_with_nothing(one, sender);
        lemma_interleaving_with_nothing(other, sender);
    }
}

/// The updates of `updates` that are about the host at `index`, in order.
pub open spec fn updates_of_host(updates: Seq<StatusUpdate>, index: int) -> Seq<StatusUpdate>
    decreases updates.len(),
{
    if updates.len() == 0 {
        Seq::empty()
    } else {
        let rest = updates_of_host(updates.drop_first(), index);
        if updates[0].host_index() == index {
            seq![updates[0]] + rest
        } else {
            rest
        }
    }
}

/// A host of the table sees only the updates that are about it.
proof fn lemma_table_host_sees_its_updates(
    table: Seq<HostStats>,
    updates: Seq<StatusUpdate>,
    index: int,
)
    requires
        0 <= index < table.len(),
    ensures
        apply_all_to_table(table, updates).len() == table.len(),
        apply_all_to_table(table, updates)[index] == table[index].apply_all(
            updates_of_host(updates, index),
        ),
    decreases updates.len(),
{
    if updates.len() > 0 {
        let head = updates[0];
        let rest = updates_of_host(updates.drop_first(), index);
        lemma_table_host_sees_its_updates(
            apply_to_table(table, head),
            updates.drop_first(),
            index,
        );
        if head.host_index() == index {
            let own = seq![head] + rest;
            assert(own[0] == head);
            assert(own.drop_first() =~= rest);
        }
    }
}

/// Every update about a host is one of the updates.
proof fn lemma_updates_of_host_are_updates(updates: Seq<StatusUpdate>, index: int)
    ensures
        forall|k: int|
            0 <= k < updates_of_host(updates, index).len() ==> exists|j: int|
                0 <= j < updates.len() && updates[j] == #[trigger] updates_of_host(updates, index)[k],
    decreases updates.len(),
{
    if updates.len() > 0 {
        let tail = updates.drop_first();
        let rest = updates_of_host(tail, index);
        let own = updates_of_host(updates, index);
        lemma_updates_of_host_are_updates(tail, index);
        assert forall|k: int| 0 <= k < own.len() implies exists|j: int|
            0 <= j < updates.len() && updates[j] == #[trigger] own[k] by {
            if updates[0].host_index() == index && k == 0 {
                assert(updates[0] == own[0]);
            } else {
                let inner = if updates[0].host_index() == index {
                    k - 1
                } else {
                    k
                };
                assert(own[k] == rest[inner]);
                let j = choose|j: int| 0 <= j < tail.len() && tail[j] == rest[inner];
                assert(updates[j + 1] == own[k]);
            }
        }
    }
}

/// The updates about one host, taken from an interleaving, interleave the
/// updates about that host of the two producers.
proof fn lemma_interleaving_of_host(
    merged: Seq<StatusUpdate>,
    first: Seq<StatusUpdate>,
    second: Seq<StatusUpdate>,
    index: int,
)
    requires
        is_interleaving(merged, first, second),
    ensures
        is_interleaving(
            updates_of_host(merged, index),
            updates_of_host(first, index),
            updates_of_host(second, index),
        ),
    decreases merged.len(),
{
    if merged.len() > 0 {
        let rest = merged.drop_first();
        let head = merged[0];
        let own_rest = updates_of_host(rest, index);
        let own = updates_of_host(merged, index);
        if first.len() > 0 && head == first[0] && is_interleaving(
            rest,
            first.drop_first(),
            second,
        ) {
            lemma_interleaving_of_host(rest, first.drop_first(), second, index);
            if head.host_index() == index {
                let own_first = updates_of_host(first, index);
                assert(own[0] == head && own_first[0] == head);
                assert(own.drop_first() =~= own_rest);
                assert(own_first.drop_first() =~= updates_of_host(first.drop_first(), index));
            }
        } else {
            lemma_interleaving_of_host(rest, first, second.drop_first(), index);
            if head.host_index() == index {
                let own_second = updates_of_host(second, index);
                assert(own[0] == head && own_second[0] == head);
                assert(own.drop_first() =~= own_rest);
                assert(own_second.drop_first() =~= updates_of_host(second.drop_first(), index));
            }
        }
    }
}

/// Applying the updates of the sender and of the receiver to the table of hosts
/// gives every host the same counters, sums, latest, least and greatest latency
/// in every interleaving that keeps each producer's order. A host's last error
/// is the same too where the sender reported no error for it or the receiver
/// reported nothing for it.
pub proof fn lemma_table_interleaving_order_irrelevant(
    table: Seq<HostStats>,
    sender: Seq<StatusUpdate>,
    receiver: Seq<StatusUpdate>,
    one: Seq<StatusUpdate>,
    other: Seq<StatusUpdate>,
    index: int,
)
    requires
        all_from_sender(sender),
        all_from_receiver(receiver),
        is_interleaving(one, sender, receiver),
        is_interleaving(other, sender, receiver),
        0 <= index < table.len(),
    ensures
        apply_all_to_table(table, one).len() == table.len(),
        apply_all_to_table(table, other).len() == table.len(),
        apply_all_to_table(table, one)[index].without_error() == apply_all_to_table(
            table,
            other,
        )[index].without_error(),
        all_sent(updates_of_host(sender, index)) || updates_of_host(receiver, index).len() == 0
            ==> apply_all_to_table(table, one)[index] == apply_all_to_table(table, other)[index],
{
    let own_sender = updates_of_host(sender, index);
    let own_receiver = updates_of_host(receiver, index);
    lemma_table_host_sees_its_updates(table, one, index);
    lemma_table_host_sees_its_updates(table, other, index);
    lemma_interleaving_of_host(one, sender, receiver, index);
    lemma_interleaving_of_host(other, sender, receiver, index);
    lemma_updates_of_host_are_updates(sender, index);
    lemma_updates_of_host_are_updates(receiver, index);
    assert(all_from_sender(own_sender)) by {
        assert forall|k: int| 0 <= k < own_sender.len() implies (
        #[trigger] own_sender[k]).from_sender() by {
            let j = choose|j: int| 0 <= j < sender.len() && sender[j] == own_sender[k];
            assert(sender[j].from_sender());
        }
    }
    assert(all_from_receiver(own_receiver)) by {
        assert forall|k: int| 0 <= k < own_receiver.len() implies #[trigger] own_receiver[k] is Received by {
            let j = choose|j: int| 0 <= j < receiver.len() && receiver[j] == own_receiver[k];
            assert(receiver[j] is Received);
        }
    }
    lemma_interleaving_order_irrelevant(
        table[index],
        own_sender,
        own_receiver,
        updates_of_host(one, index),
        updates_of_host(other, index),
    );
}

/// Two updates of which one comes from the sender and is no error, the other
/// from the receiver, may be applied in either order.
pub proof fn lemma_sent_and_received_commute(stats: HostStats, sent: StatusUpdate, reply: StatusUpdate)
    requires
        sent is Sent,
        reply is Received,
    ensures
        stats.apply(sent).apply(reply) == stats.apply(reply).apply(sent),
{
}

} // verus!
