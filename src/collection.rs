use core::marker::PhantomData;

use vstd::prelude::*;

use crate::keys::{id_view, KeyPolicy};
use crate::registration::RecordSpec;
use crate::store::{open_tree, tree_get, tree_insert, tree_remove};

verus! {

/// An error of a collection operation.
#[derive(Debug)]
pub enum Error {
    /// A failure of this library's own, with its message.
    SledRkyvError(String),
    /// The store failed the operation.
    SledError(sled::Error),
}

/// The bytes of one stored record of type `T`, as one read returned them.
/// They are not decoded here.
pub struct TypedIVec<T> {
    raw: Vec<u8>,
    marker: PhantomData<T>,
}

impl<T> View for TypedIVec<T> {
    type V = Seq<u8>;

    closed spec fn view(&self) -> Seq<u8> {
        self.raw@
    }
}

/// What a store reply becomes: the bytes found, as a handle; nothing found;
/// or the store's error.
pub open spec fn reply_spec<T>(
    reply: Result<Option<Vec<u8>>, sled::Error>,
    r: Result<Option<TypedIVec<T>>, Error>,
) -> bool {
    match reply {
        Ok(Some(b)) => r matches Ok(Some(h)) && h@ == b@,
        Ok(None) => r matches Ok(None),
        Err(e) => r == Err::<Option<TypedIVec<T>>, Error>(Error::SledError(e)),
    }
}

impl<T> TypedIVec<T> {
    /// A handle over bytes that a read of a `T` returned.
    pub fn new(raw: Vec<u8>) -> (r: Self)
        ensures
            r@ == raw@,
    {
        TypedIVec { raw, marker: PhantomData }
    }

    /// The stored bytes.
    pub fn raw(&self) -> (r: &[u8])
        ensures
            r@ == self@,
    {
        self.raw.as_slice()
    }

    /// Takes the stored bytes out of the handle.
    pub fn into_raw(self) -> (r: Vec<u8>)
        ensures
            r@ == self@,
    {
        self.raw
    }

    /// Turns a store reply into the result of a collection operation.
    pub fn from_reply(reply: Result<Option<Vec<u8>>, sled::Error>) -> (r: Result<
        Option<TypedIVec<T>>,
        Error,
    >)
        ensures
            reply_spec(reply, r),
    {
        match reply {
            Ok(Some(b)) => Ok(Some(TypedIVec::new(b))),
            Ok(None) => Ok(None),
            Err(e) => Err(Error::SledError(e)),
        }
    }
}

/// The partition of one record type `T`, with the policy that encodes its keys.
pub struct Collection<T> {
    name: String,
    policy: KeyPolicy,
    tree: sled::Tree,
    marker: PhantomData<T>,
}

/// Whether an outcome of a store call is the store's error or a success.
pub open spec fn store_outcome<V>(r: Result<V, Error>) -> bool {
    r is Err ==> r->Err_0 is SledError
}

impl<T> Collection<T> {
    /// The name of the partition.
    pub closed spec fn spec_name(&self) -> Seq<char> {
        self.name@
    }

    /// The key policy of the record type.
    pub closed spec fn spec_policy(&self) -> KeyPolicy {
        self.policy
    }

    /// Binds a registered record type to its partition in `db`, the one named
    /// after the type.
    pub fn open(db: &sled::Db, spec: &RecordSpec) -> (r: Result<Collection<T>, Error>)
        ensures
            store_outcome(r),
            r matches Ok(c) ==> c.spec_name() == spec.name@ && c.spec_policy() == spec.policy,
    {
        let name_bytes = spec.name.as_str().as_bytes();
        match open_tree(db, name_bytes) {
            Ok(tree) => Ok(
                Collection { name: spec.name.clone(), policy: spec.policy, tree, marker: PhantomData },
            ),
            Err(e) => Err(Error::SledError(e)),
        }
    }

    /// The name of the partition.
    pub fn name(&self) -> (r: &str)
        ensures
            r@ == self.spec_name(),
    {
        self.name.as_str()
    }

    /// The key policy of the record type.
    pub fn policy(&self) -> (r: KeyPolicy)
        ensures
            r == self.spec_policy(),
    {
        self.policy
    }

    /// The record stored under the identity `id` (`None` for a record type
    /// without a key field), if any.
    pub fn get(&self, id: Option<&str>) -> (r: Result<Option<TypedIVec<T>>, Error>)
        requires
            self.spec_policy().accepts(id_view(id)),
        ensures
            store_outcome(r),
    {
        let key = self.policy.build_id(id);
        TypedIVec::from_reply(tree_get(&self.tree, key.as_slice()))
    }

    /// Stores the encoded record `bytes` under the key of its key field
    /// `key_field`, and hands back the record stored there before, if any.
    pub fn insert(&self, key_field: Option<&str>, bytes: &[u8]) -> (r: Result<
        Option<TypedIVec<T>>,
        Error,
    >)
        requires
            self.spec_policy().accepts(id_view(key_field)),
        ensures
            store_outcome(r),
    {
        let key = self.policy.get_id(key_field);
        TypedIVec::from_reply(tree_insert(&self.tree, key.as_slice(), bytes))
    }

    /// Removes the record stored under the identity `id`, and hands it back
    /// if there was one.
    pub fn remove(&self, id: Option<&str>) -> (r: Result<Option<TypedIVec<T>>, Error>)
        requires
            self.spec_policy().accepts(id_view(id)),
        ensures
            store_outcome(r),
    {
        let key = self.policy.build_id(id);
        TypedIVec::from_reply(tree_remove(&self.tree, key.as_slice()))
    }
}

} // verus!
