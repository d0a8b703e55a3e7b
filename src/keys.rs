use vstd::prelude::*;
use vstd::utf8::encode_utf8;

verus! {

/// What `str::to_lowercase` returns for a string with the given characters.
pub uninterp spec fn lower_of(s: Seq<char>) -> Seq<char>;

/// Relies on `str::to_lowercase`: the result depends on the characters alone,
/// and the empty string stays empty.
#[verifier::external_body]
fn lowercase(s: &str) -> (r: String)
    ensures
        r@ == lower_of(s@),
        s@.len() == 0 ==> r@.len() == 0,
{
    s.to_lowercase()
}

/// The UTF-8 bytes of a string, as a vector.
fn utf8_bytes(s: &str) -> (r: Vec<u8>)
    ensures
        r@ == encode_utf8(s@),
{
    vstd::slice::slice_to_vec(s.as_bytes())
}

/// How the identity of a record becomes the key under which it is stored.
#[derive(Clone, Copy, Debug, PartialEq, Eq, Structural)]
pub enum KeyPolicy {
    /// No key field: every record of the type shares the one empty key.
    Unitary,
    /// A string key field, stored as its UTF-8 bytes.
    Verbatim,
    /// A string key field, lower-cased before it is stored or looked up.
    CaseFolded,
}

/// The characters of an optional identity.
pub open spec fn id_view(id: Option<&str>) -> Option<Seq<char>> {
    match id {
        Some(s) => Some(s@),
        None => None,
    }
}

impl KeyPolicy {
    /// Whether the policy takes this identity: the unit identity (`None`)
    /// exactly when the record type has no key field.
    pub open spec fn accepts(self, id: Option<Seq<char>>) -> bool {
        (self is Unitary) == (id is None)
    }

    /// The key bytes of an identity under this policy.
    pub open spec fn key_of(self, id: Option<Seq<char>>) -> Seq<u8> {
        match self {
            KeyPolicy::Unitary => Seq::empty(),
            KeyPolicy::Verbatim => encode_utf8(id.unwrap()),
            KeyPolicy::CaseFolded => encode_utf8(lower_of(id.unwrap())),
        }
    }

    /// Whether records of this policy carry a key field.
    pub fn has_key(&self) -> (r: bool)
        ensures
            r == !(*self is Unitary),
    {
        match self {
            KeyPolicy::Unitary => false,
            _ => true,
        }
    }

    /// The key under which a record is written, from the value of its key
    /// field (`None` for a record type without one).
    pub fn get_id(&self, key_field: Option<&str>) -> (r: Vec<u8>)
        requires
            self.accepts(id_view(key_field)),
        ensures
            r@ == self.key_of(id_view(key_field)),
    {
        self.build_id(key_field)
    }

    /// The key under which an identity is looked up or removed.
    pub fn build_id(&self, id: Option<&str>) -> (r: Vec<u8>)
        requires
            self.accepts(id_view(id)),
        ensures
            r@ == self.key_of(id_view(id)),
    {
        match self {
            KeyPolicy::Unitary => Vec::new(),
            KeyPolicy::Verbatim => {
                let s = id.unwrap();
                utf8_bytes(s)
            },
            KeyPolicy::CaseFolded => {
                let s = id.unwrap();
                let folded = lowercase(s);
                utf8_bytes(folded.as_str())
            },
        }
    }
}

} // verus!
