//! The keys under which the store is read and written: a tag for the kind of
//! data, and the identity that the data belongs to.

use soroban_sdk::Address;
use vstd::prelude::*;

verus! {

/// Whether `c` may stand in a symbol of the host: a letter of ASCII, a digit
/// or an underscore.
pub open spec fn is_symbol_char(c: char) -> bool {
    ||| 'a' <= c <= 'z'
    ||| 'A' <= c <= 'Z'
    ||| '0' <= c <= '9'
    ||| c == '_'
}

/// Whether `text` can be made a symbol of the host: at most 32 characters,
/// each of them a symbol character.
pub open spec fn is_symbol_text(text: Seq<char>) -> bool {
    &&& text.len() <= 32
    &&& forall|i: int| 0 <= i < text.len() ==> is_symbol_char(#[trigger] text[i])
}

/// A key of the store. Each kind of data has a variant of its own, so that
/// entries of different kinds never meet.
pub enum DataKey {
    /// The counter of an identity.
    Counter(Address),
}

impl DataKey {
    /// The tag that marks this kind of key in the store.
    pub open spec fn tag_text(self) -> Seq<char> {
        match self {
            DataKey::Counter(_) => "Counter"@,
        }
    }

    /// The identity that the key belongs to.
    pub open spec fn identity_of(self) -> Address {
        match self {
            DataKey::Counter(user) => user,
        }
    }

    /// The place in the store that the key names: its tag and its identity.
    pub open spec fn slot(self) -> (Seq<char>, Address) {
        (self.tag_text(), self.identity_of())
    }

    /// The tag of this key, which is always fit for a symbol.
    pub fn tag(&self) -> (tag: &'static str)
        ensures
            tag@ == self.tag_text(),
            is_symbol_text(tag@),
    {
        match self {
            DataKey::Counter(_) => {
                proof {
                    reveal_strlit("Counter");
                }
                "Counter"
            },
        }
    }

    /// The identity of this key.
    pub fn identity(&self) -> (user: &Address)
        ensures
            *user == self.identity_of(),
    {
        match self {
            DataKey::Counter(user) => user,
        }
    }
}

/// Keys of one kind name the same place only for the same identity.
pub proof fn lemma_slot_tells_identities_apart(a: DataKey, b: DataKey)
    requires
        a.slot() == b.slot(),
    ensures
        a == b,
{
}

} // verus!
