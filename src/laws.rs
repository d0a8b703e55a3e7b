//! What holds of a record type's partition when it behaves as a map from key
//! bytes to stored bytes: a read hands back what is stored under the key, a
//! write replaces it and hands back what was there, a removal deletes it and
//! hands it back. The keys are those that [`KeyPolicy::get_id`] and
//! [`KeyPolicy::build_id`] compute.

use vstd::prelude::*;

use crate::keys::{lower_of, KeyPolicy};

verus! {

/// What a read of the identity `id` finds in a partition with contents `c`.
pub open spec fn get_model(c: Map<Seq<u8>, Seq<u8>>, policy: KeyPolicy, id: Option<Seq<char>>) -> Option<Seq<u8>> {
    let k = policy.key_of(id);
    if c.contains_key(k) {
        Some(c[k])
    } else {
        None
    }
}

/// The contents after writing the record `bytes` with key field `key_field`,
/// and what the write hands back.
pub open spec fn insert_model(
    c: Map<Seq<u8>, Seq<u8>>,
    policy: KeyPolicy,
    key_field: Option<Seq<char>>,
    bytes: Seq<u8>,
) -> (Map<Seq<u8>, Seq<u8>>, Option<Seq<u8>>) {
    (c.insert(policy.key_of(key_field), bytes), get_model(c, policy, key_field))
}

/// The contents after removing the identity `id`, and what the removal hands back.
pub open spec fn remove_model(c: Map<Seq<u8>, Seq<u8>>, policy: KeyPolicy, id: Option<Seq<char>>) -> (
    Map<Seq<u8>, Seq<u8>>,
    Option<Seq<u8>>,
) {
    (c.remove(policy.key_of(id)), get_model(c, policy, id))
}

/// A record written and then read back under the value of its own key field
/// is found, with the bytes that were written.
pub proof fn lemma_round_trip(
    c: Map<Seq<u8>, Seq<u8>>,
    policy: KeyPolicy,
    key_field: Option<Seq<char>>,
    bytes: Seq<u8>,
)
    requires
        policy.accepts(key_field),
    ensures
        get_model(insert_model(c, policy, key_field, bytes).0, policy, key_field) == Some(bytes),
{
}

/// A write hands back nothing where nothing was stored under its key, and a
/// second write under the same key hands back the record of the first.
pub proof fn lemma_insert_returns_previous(
    c: Map<Seq<u8>, Seq<u8>>,
    policy: KeyPolicy,
    first: Option<Seq<char>>,
    first_bytes: Seq<u8>,
    second: Option<Seq<char>>,
    second_bytes: Seq<u8>,
)
    requires
        policy.accepts(first),
        policy.accepts(second),
        policy.key_of(first) == policy.key_of(second),
    ensures
        get_model(c, policy, first) is None ==> insert_model(c, policy, first, first_bytes).1 is None,
        insert_model(insert_model(c, policy, first, first_bytes).0, policy, second, second_bytes).1
            == Some(first_bytes),
{
}

/// After a removal, a read of the same identity finds nothing.
pub proof fn lemma_remove_then_get(c: Map<Seq<u8>, Seq<u8>>, policy: KeyPolicy, id: Option<Seq<char>>)
    requires
        policy.accepts(id),
    ensures
        get_model(remove_model(c, policy, id).0, policy, id) is None,
{
}

/// Under the case-folded policy, two identities that lower-case alike share
/// one key: a read or a removal under either reaches the same record.
pub proof fn lemma_case_variants_share_key(c: Map<Seq<u8>, Seq<u8>>, a: Seq<char>, b: Seq<char>)
    requires
        lower_of(a) == lower_of(b),
    ensures
        KeyPolicy::CaseFolded.key_of(Some(a)) == KeyPolicy::CaseFolded.key_of(Some(b)),
        get_model(c, KeyPolicy::CaseFolded, Some(a)) == get_model(c, KeyPolicy::CaseFolded, Some(b)),
        remove_model(c, KeyPolicy::CaseFolded, Some(a)) == remove_model(c, KeyPolicy::CaseFolded, Some(b)),
{
}

/// A record type without a key field has one slot, under the empty key: each
/// write replaces the record there, whatever its fields hold.
pub proof fn lemma_unitary_single_slot(
    c: Map<Seq<u8>, Seq<u8>>,
    first_bytes: Seq<u8>,
    second_bytes: Seq<u8>,
)
    ensures
        KeyPolicy::Unitary.key_of(None) == Seq::<u8>::empty(),
        ({
            let after_first = insert_model(c, KeyPolicy::Unitary, None, first_bytes).0;
            let (after_second, previous) = insert_model(after_first, KeyPolicy::Unitary, None, second_bytes);
            &&& previous == Some(first_bytes)
            &&& get_model(after_second, KeyPolicy::Unitary, None) == Some(second_bytes)
            &&& after_second.dom() == c.dom().insert(Seq::<u8>::empty())
        }),
{
    let after_first = insert_model(c, KeyPolicy::Unitary, None, first_bytes).0;
    let after_second = insert_model(after_first, KeyPolicy::Unitary, None, second_bytes).0;
    assert(after_second.dom() =~= c.dom().insert(Seq::<u8>::empty()));
}

} // verus!
