//! What holds of the counter over any store, any identity and any run of
//! increments.

use crate::contract::{counter_entry, counts_after, events_after};
use crate::counter::{count_of, increment_result, Error, MAX};
use soroban_sdk::Address;
use vstd::prelude::*;

verus! {

/// The sum of those amounts of a run that are within `MAX`: the ones that an
/// increment accepts.
pub open spec fn accepted_total(values: Seq<u32>) -> nat
    decreases values.len(),
{
    if values.len() == 0 {
        0
    } else if values.last() <= MAX {
        accepted_total(values.drop_last()) + values.last() as nat
    } else {
        accepted_total(values.drop_last())
    }
}

/// The store after one increment of the counter of `user` for each amount of
/// `values`, in order.
pub open spec fn counts_after_all(
    counts: Map<(Seq<char>, Address), u32>,
    user: Address,
    values: Seq<u32>,
) -> Map<(Seq<char>, Address), u32>
    decreases values.len(),
{
    if values.len() == 0 {
        counts
    } else {
        counts_after(counts_after_all(counts, user, values.drop_last()), user, values.last())
    }
}

/// After a run of increments the count is the count at the start plus the
/// accepted amounts, as long as that sum fits in a `u32`.
pub proof fn lemma_count_is_start_plus_accepted(
    counts: Map<(Seq<char>, Address), u32>,
    user: Address,
    values: Seq<u32>,
)
    requires
        count_of(counter_entry(counts, user)) + accepted_total(values) <= u32::MAX,
    ensures
        count_of(counter_entry(counts_after_all(counts, user, values), user)) == count_of(
            counter_entry(counts, user),
        ) + accepted_total(values),
    decreases values.len(),
{
    if values.len() > 0 {
        lemma_count_is_start_plus_accepted(counts, user, values.drop_last());
    }
}

/// A run of increments whose accepted amounts, added to the count at the
/// start, stay within `MAX` leaves the count in the range from 0 to `MAX`.
/// The bound is on each amount and not on the count, so a run whose accepted
/// amounts go past that leaves the range.
pub proof fn lemma_count_stays_in_range(
    counts: Map<(Seq<char>, Address), u32>,
    user: Address,
    values: Seq<u32>,
)
    requires
        count_of(counter_entry(counts, user)) + accepted_total(values) <= MAX,
    ensures
        0 <= count_of(counter_entry(counts_after_all(counts, user, values), user)) <= MAX,
{
    lemma_count_is_start_plus_accepted(counts, user, values);
}

/// The counter of an identity that the store holds nothing for reads as zero.
pub proof fn lemma_fresh_identity_counts_zero(
    counts: Map<(Seq<char>, Address), u32>,
    user: Address,
)
    requires
        counter_entry(counts, user) is None,
    ensures
        count_of(counter_entry(counts, user)) == 0,
{
}

/// An amount above `MAX` is turned down with `MaxValueExceeded` whatever the
/// store holds; the store stays as it was and no event is published.
pub proof fn lemma_rejection_keeps_store(
    counts: Map<(Seq<char>, Address), u32>,
    events: Seq<(Seq<char>, Address, u32, u32)>,
    user: Address,
    value: u32,
)
    requires
        value > MAX,
    ensures
        increment_result(counter_entry(counts, user), value) == Some(
            Err::<u32, Error>(Error::MaxValueExceeded),
        ),
        counts_after(counts, user, value) == counts,
        events_after(events, counts, user, value) == events,
{
}

/// Any number of increments by amounts above `MAX` leaves the store as it
/// was.
pub proof fn lemma_rejections_keep_store(
    counts: Map<(Seq<char>, Address), u32>,
    user: Address,
    values: Seq<u32>,
)
    requires
        forall|i: int| 0 <= i < values.len() ==> values[i] > MAX,
    ensures
        counts_after_all(counts, user, values) == counts,
    decreases values.len(),
{
    if values.len() > 0 {
        lemma_rejections_keep_store(counts, user, values.drop_last());
    }
}

/// An increment that succeeds returns the earlier count plus the amount, and
/// that is what the store then holds for the identity: the count grows when
/// the amount is positive and holds when it is zero.
pub proof fn lemma_success_accumulates(
    counts: Map<(Seq<char>, Address), u32>,
    user: Address,
    value: u32,
    count: u32,
)
    requires
        increment_result(counter_entry(counts, user), value) == Some(Ok::<u32, Error>(count)),
    ensures
        value <= MAX,
        count == count_of(counter_entry(counts, user)) + value,
        counter_entry(counts_after(counts, user, value), user) == Some(count),
        count >= count_of(counter_entry(counts, user)),
        count > count_of(counter_entry(counts, user)) <==> value > 0,
{
}

/// Over any run of increments, accepted or not, the count of the identity
/// never falls.
pub proof fn lemma_count_never_falls(
    counts: Map<(Seq<char>, Address), u32>,
    user: Address,
    values: Seq<u32>,
)
    ensures
        count_of(counter_entry(counts_after_all(counts, user, values), user)) >= count_of(
            counter_entry(counts, user),
        ),
    decreases values.len(),
{
    if values.len() > 0 {
        lemma_count_never_falls(counts, user, values.drop_last());
    }
}

/// An increment for one identity leaves the counter of every other identity
/// as it was.
pub proof fn lemma_identities_are_independent(
    counts: Map<(Seq<char>, Address), u32>,
    user: Address,
    other: Address,
    value: u32,
)
    requires
        other != user,
    ensures
        counter_entry(counts_after(counts, user, value), other) == counter_entry(counts, other),
{
}

} // verus!
