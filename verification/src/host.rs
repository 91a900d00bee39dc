//! The host behind the counter: who has authorized the call, the persistent
//! store, and the events. What is said here of the host is taken on trust;
//! the functions built on it are verified.
//!
//! A value of `Env` is a handle on state that the host shares among all
//! handles. What is said here of a handle holds as long as the running call
//! reaches the host through that one handle alone: a second handle would show
//! what was written through the first.

use crate::key::{is_symbol_text, DataKey};
use soroban_sdk::{Address, Env, Symbol, TryFromVal, Val};
use vstd::prelude::*;

verus! {

/// `soroban_sdk::Env`: a handle on the host that runs the call.
#[verifier::external_type_specification]
#[verifier::external_body]
pub struct ExEnv(soroban_sdk::Env);

/// `soroban_sdk::Address`: an identity, opaque and compared by value.
#[verifier::external_type_specification]
#[verifier::external_body]
pub struct ExAddress(soroban_sdk::Address);

/// Whether the host is running a contract, so that it has a store and an
/// event buffer to reach. It stands for the host as seen through this one
/// handle.
pub uninterp spec fn contract_running(env: Env) -> bool;

/// The identities that the host has found, by `Address::require_auth`, to
/// have authorized the running call with its arguments. It stands for the
/// host as seen through this one handle.
pub uninterp spec fn authorized_identities(env: Env) -> Set<Address>;

/// The `u32` entries that the persistent store of the running contract holds
/// under keys made of a symbol and an address, each key given by the
/// symbol's text and the address. It stands for the store as seen through
/// this one handle.
pub uninterp spec fn persistent_counts(env: Env) -> Map<(Seq<char>, Address), u32>;

/// The events that the running contract has published with a symbol, an
/// address and a `u32` as topics and a `u32` as data, oldest first: each by
/// the symbol's text, the address, the third topic and the data. It stands
/// for the event buffer as seen through this one handle.
pub uninterp spec fn published_events(env: Env) -> Seq<(Seq<char>, Address, u32, u32)>;

/// Whether the running call may reach the store for `user`: a contract is
/// running, and the host has found that `user` authorized the call.
pub open spec fn admits(env: Env, user: Address) -> bool {
    &&& contract_running(env)
    &&& authorized_identities(env).contains(user)
}

/// The entry at `slot`, if the store holds one.
pub open spec fn entry_at(counts: Map<(Seq<char>, Address), u32>, slot: (Seq<char>, Address))
    -> Option<u32> {
    if counts.contains_key(slot) {
        Some(counts[slot])
    } else {
        None
    }
}

/// `Persistent::get`, with a key made by `Symbol::new` and the address, and
/// `u32::try_from_val` on what it gives: the `u32` that the persistent store
/// holds under the key, `None` where it holds nothing there or a value that
/// is no `u32`. `Symbol::new` fails on a text that is no symbol, and the host
/// has no store where no contract is running: the `requires` leaves both out.
#[verifier::external_body]
fn persistent_get(env: &Env, tag: &str, user: &Address) -> (entry: Option<u32>)
    requires
        is_symbol_text(tag@),
        contract_running(*env),
    ensures
        entry == entry_at(persistent_counts(*env), (tag@, *user)),
{
    let key = (Symbol::new(env, tag), user.clone());
    match env.storage().persistent().get::<_, Val>(&key) {
        Some(val) => u32::try_from_val(env, &val).ok(),
        None => None,
    }
}

/// `Persistent::set`, with a key made by `Symbol::new` and the address: the
/// persistent store then holds `count` under the key, and every other entry
/// as before. No event is published, and the host runs the same contract
/// with the same authorizations. `Symbol::new` fails on a text that is no
/// symbol, and the host has no store where no contract is running: the
/// `requires` leaves both out.
#[verifier::external_body]
fn persistent_set(env: &mut Env, tag: &str, user: &Address, count: u32)
    requires
        is_symbol_text(tag@),
        contract_running(*old(env)),
    ensures
        persistent_counts(*final(env)) == persistent_counts(*old(env)).insert((tag@, *user), count),
        published_events(*final(env)) == published_events(*old(env)),
        authorized_identities(*final(env)) == authorized_identities(*old(env)),
        contract_running(*final(env)),
{
    env.storage().persistent().set(&(Symbol::new(env, tag), user.clone()), &count);
}

/// `Events::publish`: hands the host an event with the topics `topic` (as a
/// symbol made by `Symbol::new`), `user` and `value`, and the data `count`.
/// The event is then the newest of the published ones. The persistent store
/// is as before, and the host runs the same contract with the same
/// authorizations. `Symbol::new` fails on a text that is no symbol, and the
/// host takes no event where no contract is running: the `requires` leaves
/// both out.
#[verifier::external_body]
#[allow(deprecated)]
fn publish(env: &mut Env, topic: &str, user: &Address, value: u32, count: u32)
    requires
        is_symbol_text(topic@),
        contract_running(*old(env)),
    ensures
        published_events(*final(env)) == published_events(*old(env)).push(
            (topic@, *user, value, count),
        ),
        persistent_counts(*final(env)) == persistent_counts(*old(env)),
        authorized_identities(*final(env)) == authorized_identities(*old(env)),
        contract_running(*final(env)),
{
    env.events().publish((Symbol::new(env, topic), user.clone(), value), count);
}

/// Reads the entry under `key`, for a call that the key's identity has
/// authorized.
pub fn read_entry(env: &Env, key: &DataKey) -> (entry: Option<u32>)
    requires
        admits(*env, key.identity_of()),
    ensures
        entry == entry_at(persistent_counts(*env), key.slot()),
{
    persistent_get(env, key.tag(), key.identity())
}

/// Writes `count` under `key`, for a call that the key's identity has
/// authorized. Every other entry stays as it was, no event is published,
/// and the call stays admitted for every identity it was admitted for.
pub fn write_entry(env: &mut Env, key: &DataKey, count: u32)
    requires
        admits(*old(env), key.identity_of()),
    ensures
        persistent_counts(*final(env)) == persistent_counts(*old(env)).insert(key.slot(), count),
        published_events(*final(env)) == published_events(*old(env)),
        authorized_identities(*final(env)) == authorized_identities(*old(env)),
        contract_running(*final(env)),
{
    persistent_set(env, key.tag(), key.identity(), count);
}

/// The first topic of the event that tells of an increment.
pub open spec fn increment_topic() -> Seq<char> {
    "increment"@
}

/// The event that tells of an increment of the counter of `user` by `value`
/// that brought it to `count`.
pub open spec fn increment_event(user: Address, value: u32, count: u32) -> (
    Seq<char>,
    Address,
    u32,
    u32,
) {
    (increment_topic(), user, value, count)
}

/// Publishes the event of an increment by `value` that brought the counter
/// of the key's identity to `count`, for a call that the identity has
/// authorized. The store stays as it was, and the call stays admitted for
/// every identity it was admitted for.
pub fn announce_increment(env: &mut Env, key: &DataKey, value: u32, count: u32)
    requires
        admits(*old(env), key.identity_of()),
    ensures
        published_events(*final(env)) == published_events(*old(env)).push(
            increment_event(key.identity_of(), value, count),
        ),
        persistent_counts(*final(env)) == persistent_counts(*old(env)),
        authorized_identities(*final(env)) == authorized_identities(*old(env)),
        contract_running(*final(env)),
{
    proof {
        reveal_strlit("increment");
    }
    publish(env, "increment", key.identity(), value, count);
}

} // verus!
