//! The calls into the persistent store that collections make. A tree is
//! shared by every handle to it, in this process and on disk, so nothing is
//! promised here of what a call finds: the callers state what holds of every
//! reply.

use sled::Error as StoreFault;
use vstd::prelude::*;

verus! {

#[verifier::external_type_specification]
#[verifier::external_body]
pub struct ExDb(sled::Db);

#[verifier::external_type_specification]
#[verifier::external_body]
pub struct ExTree(sled::Tree);

#[verifier::external_type_specification]
#[verifier::external_body]
pub struct ExStoreFault(StoreFault);

/// Relies on `sled::Db::open_tree`: opens the tree of that name, creating it
/// if needed; whether it succeeds depends on the store.
#[verifier::external_body]
pub(crate) fn open_tree(db: &sled::Db, name: &[u8]) -> (r: Result<sled::Tree, StoreFault>) {
    db.open_tree(name)
}

/// Relies on `sled::Tree::get`: the bytes stored under `key`, if any; what
/// comes back depends on the store.
#[verifier::external_body]
pub(crate) fn tree_get(tree: &sled::Tree, key: &[u8]) -> (r: Result<Option<Vec<u8>>, StoreFault>) {
    tree.get(key).map(|found| found.map(|v| v.to_vec()))
}

/// Relies on `sled::Tree::insert`: stores `value` under `key` and hands back
/// the bytes stored there before, if any; what comes back depends on the store.
#[verifier::external_body]
pub(crate) fn tree_insert(tree: &sled::Tree, key: &[u8], value: &[u8]) -> (r: Result<
    Option<Vec<u8>>,
    StoreFault,
>) {
    tree.insert(key, value).map(|found| found.map(|v| v.to_vec()))
}

/// Relies on `sled::Tree::remove`: deletes `key` and hands back the bytes
/// stored there, if any; what comes back depends on the store.
#[verifier::external_body]
pub(crate) fn tree_remove(tree: &sled::Tree, key: &[u8]) -> (r: Result<Option<Vec<u8>>, StoreFault>) {
    tree.remove(key).map(|found| found.map(|v| v.to_vec()))
}

} // verus!
