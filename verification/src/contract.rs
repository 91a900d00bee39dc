//! The counter's three operations on the host. Each that reaches the store
//! asks that the identity has authorized the running call: the caller has
//! the host check that before it calls.

use crate::counter::{count_of, increment_result, step, stored_count, Error, MAX};
use crate::host::{
    admits, announce_increment, authorized_identities, contract_running, entry_at,
    increment_event, persistent_counts, published_events, read_entry, write_entry,
};
use crate::key::DataKey;
use soroban_sdk::{Address, Env};
use vstd::pervasive::unreached;
use vstd::prelude::*;

verus! {

/// The entry that the store `counts` holds for the counter of `user`.
pub open spec fn counter_entry(counts: Map<(Seq<char>, Address), u32>, user: Address) -> Option<
    u32,
> {
    entry_at(counts, DataKey::Counter(user).slot())
}

/// The store after an increment of the counter of `user` by `value`: the new
/// count under the counter's key where the increment succeeds, the store as
/// it was where it does not.
pub open spec fn counts_after(counts: Map<(Seq<char>, Address), u32>, user: Address, value: u32)
    -> Map<(Seq<char>, Address), u32> {
    match increment_result(counter_entry(counts, user), value) {
        Some(Ok(count)) => counts.insert(DataKey::Counter(user).slot(), count),
        _ => counts,
    }
}

/// The published events after an increment of the counter of `user` by
/// `value` on the store `counts`: one more, with the amount and the new count,
/// where the increment succeeds, and the same where it does not.
pub open spec fn events_after(
    events: Seq<(Seq<char>, Address, u32, u32)>,
    counts: Map<(Seq<char>, Address), u32>,
    user: Address,
    value: u32,
) -> Seq<(Seq<char>, Address, u32, u32)> {
    match increment_result(counter_entry(counts, user), value) {
        Some(Ok(count)) => events.push(increment_event(user, value, count)),
        _ => events,
    }
}

/// The counter with its three operations.
pub struct SafeCounter;

impl SafeCounter {
    /// Adds `value` to the counter of `user` and returns the new count, in a
    /// call that `user` has authorized.
    ///
    /// An amount above `MAX` is turned down before the store is read.
    /// Otherwise the new count is the stored one (zero where there is none)
    /// plus `value`: it is stored and announced as an event. Where that sum
    /// does not fit in a `u32` the result is `None`, and the store and the
    /// events stay as they were.
    pub fn checked_increment(env: &mut Env, user: Address, value: u32) -> (result: Option<
        Result<u32, Error>,
    >)
        requires
            admits(*old(env), user),
        ensures
            result == increment_result(counter_entry(persistent_counts(*old(env)), user), value),
            persistent_counts(*final(env)) == counts_after(
                persistent_counts(*old(env)),
                user,
                value,
            ),
            published_events(*final(env)) == events_after(
                published_events(*old(env)),
                persistent_counts(*old(env)),
                user,
                value,
            ),
            value > MAX ==> result == Some(Err::<u32, Error>(Error::MaxValueExceeded))
                && persistent_counts(*final(env)) == persistent_counts(*old(env))
                && published_events(*final(env)) == published_events(*old(env)),
            authorized_identities(*final(env)) == authorized_identities(*old(env)),
            contract_running(*final(env)),
    {
        if value > MAX {
            return Some(Err(Error::MaxValueExceeded));
        }
        let key = DataKey::Counter(user);
        let entry = read_entry(env, &key);
        let result = step(entry, value);
        if let Some(Ok(count)) = result {
            write_entry(env, &key, count);
            announce_increment(env, &key, value, count);
        }
        result
    }

    /// Adds `value` to the counter of `user` and returns the new count, in a
    /// call that `user` has authorized and for a counter that `value` does
    /// not bring past what a `u32` holds.
    ///
    /// An amount above `MAX` gives `MaxValueExceeded` and changes nothing.
    /// Any other amount gives the stored count plus `value`, which is then
    /// what the store holds for `user`; every other entry stays, and one
    /// event tells of the amount and the new count.
    pub fn increment(env: &mut Env, user: Address, value: u32) -> (result: Result<u32, Error>)
        requires
            admits(*old(env), user),
            value <= MAX ==> count_of(counter_entry(persistent_counts(*old(env)), user)) + value
                <= u32::MAX,
        ensures
            value > MAX <==> result == Err::<u32, Error>(Error::MaxValueExceeded),
            value <= MAX ==> result is Ok && result->Ok_0 == count_of(
                counter_entry(persistent_counts(*old(env)), user),
            ) + value,
            value > MAX ==> persistent_counts(*final(env)) == persistent_counts(*old(env))
                && published_events(*final(env)) == published_events(*old(env)),
            value <= MAX ==> persistent_counts(*final(env)) == persistent_counts(*old(env)).insert(
                DataKey::Counter(user).slot(),
                result->Ok_0,
            ),
            value <= MAX ==> published_events(*final(env)) == published_events(*old(env)).push(
                increment_event(user, value, result->Ok_0),
            ),
            Some(result) == increment_result(
                counter_entry(persistent_counts(*old(env)), user),
                value,
            ),
            authorized_identities(*final(env)) == authorized_identities(*old(env)),
            contract_running(*final(env)),
    {
        match Self::checked_increment(env, user, value) {
            Some(result) => result,
            None => unreached(),
        }
    }

    /// The count of `user`, in a call that `user` has authorized: what the
    /// store holds for it, and zero where it holds nothing. The handle is
    /// shared, so the store and the events stay as they were.
    pub fn get_count(env: &Env, user: Address) -> (count: u32)
        requires
            admits(*env, user),
        ensures
            count == count_of(counter_entry(persistent_counts(*env), user)),
            !persistent_counts(*env).contains_key(DataKey::Counter(user).slot()) ==> count == 0,
    {
        let key = DataKey::Counter(user);
        let entry = read_entry(env, &key);
        stored_count(entry)
    }

    /// The bound on one increment: always `MAX`. It asks nothing of the
    /// host.
    pub fn get_max() -> (max: u32)
        ensures
            max == MAX,
            max == 10,
    {
        MAX
    }
}

} // verus!
