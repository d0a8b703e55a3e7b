use vstd::prelude::*;
use vstd::string::StrSliceExecFns;

use crate::keys::KeyPolicy;

verus! {

/// The word that asks for a case-folded key: `#[key(case_insensitive)]`.
pub const CASE_INSENSITIVE: &'static str = "case_insensitive";

/// One argument inside the parentheses of a key marker.
#[derive(Clone, Debug)]
pub enum KeyOption {
    /// A bare word, such as `case_insensitive`.
    Word(String),
    /// Anything that is not a bare word (a literal, a nested list, `a = b`).
    Other,
}

/// The form of the key marker on a field.
#[derive(Clone, Debug)]
pub enum KeyMarker {
    /// `#[key]`
    Bare,
    /// `#[key(...)]`, with its arguments in order.
    List(Vec<KeyOption>),
    /// `#[key = ...]`
    NameValue,
    /// A marker whose arguments cannot be read at all.
    Malformed,
}

/// A named field of a record type, as far as key selection needs it.
#[derive(Clone, Debug)]
pub struct FieldDecl {
    pub name: String,
    /// Whether the declared type is `String`.
    pub is_string: bool,
    /// The key marker on the field, if it has one (the first, if several).
    pub key: Option<KeyMarker>,
}

/// The shape of a record type's declaration.
#[derive(Clone, Debug)]
pub enum RecordShape {
    /// A struct with named fields, in declaration order.
    Named(Vec<FieldDecl>),
    /// A tuple struct or a unit struct.
    Unnamed,
    /// An enum or a union.
    NotStruct,
}

/// The key field of a record type and its matching policy.
#[derive(Clone, Debug)]
pub struct KeyParams {
    pub ident: String,
    pub case_insensitive: bool,
}

/// Why a record type cannot be registered.
#[derive(Clone, Copy, Debug, PartialEq, Eq, Structural)]
pub enum KeyError {
    /// Only structs can be record types.
    NotAStruct,
    /// Only structs with named fields can be record types.
    FieldsNotNamed,
    /// More than one field carries a key marker.
    MultipleKeys,
    /// The marked field is not of type `String`.
    NonStringKey,
    /// The marker has the `#[key = ...]` form.
    UnsupportedAttribute,
    /// The marker's arguments are not exactly the word `case_insensitive`.
    InvalidAttribute,
}

/// Whether an argument is the word `case_insensitive`.
pub open spec fn is_case_word(o: KeyOption) -> bool {
    o matches KeyOption::Word(w) && w@ == CASE_INSENSITIVE@
}

/// Whether a marked field is case-folded, or why its marker is refused.
pub open spec fn marker_spec(m: KeyMarker, is_string: bool) -> Result<bool, KeyError> {
    match m {
        KeyMarker::Bare => if is_string {
            Ok(false)
        } else {
            Err(KeyError::NonStringKey)
        },
        KeyMarker::List(opts) => if opts@.len() != 1 {
            Err(KeyError::InvalidAttribute)
        } else if !is_string {
            Err(KeyError::NonStringKey)
        } else if is_case_word(opts@[0]) {
            Ok(true)
        } else {
            Err(KeyError::InvalidAttribute)
        },
        KeyMarker::NameValue => Err(KeyError::UnsupportedAttribute),
        KeyMarker::Malformed => Err(KeyError::InvalidAttribute),
    }
}

/// The key selection after the first `n` fields, read in order: the first
/// error met, else the one marked field so far, if any.
pub open spec fn scan_spec(fields: Seq<FieldDecl>, n: nat) -> Result<Option<KeyParams>, KeyError>
    decreases n,
{
    if n == 0 || n > fields.len() {
        Ok(None)
    } else {
        match scan_spec(fields, (n - 1) as nat) {
            Err(e) => Err(e),
            Ok(prev) => {
                let f = fields[n - 1];
                match f.key {
                    None => Ok(prev),
                    Some(m) => if prev is Some {
                        Err(KeyError::MultipleKeys)
                    } else {
                        match marker_spec(m, f.is_string) {
                            Err(e) => Err(e),
                            Ok(ci) => Ok(Some(KeyParams { ident: f.name, case_insensitive: ci })),
                        }
                    },
                }
            },
        }
    }
}

/// Once the scan has met an error, reading more fields keeps that error.
proof fn lemma_scan_error_sticks(fields: Seq<FieldDecl>, n: nat, m: nat)
    requires
        n <= m <= fields.len(),
        scan_spec(fields, n) is Err,
    ensures
        scan_spec(fields, m) == scan_spec(fields, n),
    decreases m - n,
{
    if n < m {
        lemma_scan_error_sticks(fields, n, (m - 1) as nat);
    }
}

/// The key selection of a record type.
pub open spec fn parse_key_spec(shape: RecordShape) -> Result<Option<KeyParams>, KeyError> {
    match shape {
        RecordShape::Named(fields) => scan_spec(fields@, fields@.len()),
        RecordShape::Unnamed => Err(KeyError::FieldsNotNamed),
        RecordShape::NotStruct => Err(KeyError::NotAStruct),
    }
}

/// Whether two strings hold the same characters.
fn same_chars(a: &str, b: &str) -> (r: bool)
    ensures
        r == (a@ == b@),
{
    let n = a.unicode_len();
    if n != b.unicode_len() {
        return false;
    }
    let mut i: usize = 0;
    while i < n
        invariant
            n == a@.len(),
            n == b@.len(),
            i <= n,
            forall|j: int| 0 <= j < i ==> a@[j] == b@[j],
        decreases n - i,
    {
        if a.get_char(i) != b.get_char(i) {
            return false;
        }
        i = i + 1;
    }
    assert(a@ =~= b@);
    true
}

/// Reads a field's key marker: whether the key is case-folded.
fn parse_marker(m: &KeyMarker, is_string: bool) -> (r: Result<bool, KeyError>)
    ensures
        r == marker_spec(*m, is_string),
{
    match m {
        KeyMarker::Bare => if is_string {
            Ok(false)
        } else {
            Err(KeyError::NonStringKey)
        },
        KeyMarker::List(opts) => {
            if opts.len() != 1 {
                Err(KeyError::InvalidAttribute)
            } else if !is_string {
                Err(KeyError::NonStringKey)
            } else {
                match &opts[0] {
                    KeyOption::Word(w) => if same_chars(w.as_str(), CASE_INSENSITIVE) {
                        Ok(true)
                    } else {
                        Err(KeyError::InvalidAttribute)
                    },
                    KeyOption::Other => Err(KeyError::InvalidAttribute),
                }
            }
        },
        KeyMarker::NameValue => Err(KeyError::UnsupportedAttribute),
        KeyMarker::Malformed => Err(KeyError::InvalidAttribute),
    }
}

/// Finds the key field of a record type: at most one field may carry a key
/// marker, and it must be a `String`; `#[key(case_insensitive)]` asks for a
/// case-folded key. `Ok(None)` when no field is marked.
pub fn parse_key(input: &RecordShape) -> (r: Result<Option<KeyParams>, KeyError>)
    ensures
        r == parse_key_spec(*input),
{
    let fields = match input {
        RecordShape::Named(fields) => fields,
        RecordShape::Unnamed => {
            return Err(KeyError::FieldsNotNamed);
        },
        RecordShape::NotStruct => {
            return Err(KeyError::NotAStruct);
        },
    };
    let mut result: Option<KeyParams> = None;
    let mut i: usize = 0;
    while i < fields.len()
        invariant
            i <= fields@.len(),
            parse_key_spec(*input) == scan_spec(fields@, fields@.len()),
            scan_spec(fields@, i as nat) == Ok::<Option<KeyParams>, KeyError>(result),
        decreases fields@.len() - i,
    {
        let field = &fields[i];
        match &field.key {
            None => {},
            Some(marker) => {
                if result.is_some() {
                    proof {
                        lemma_scan_error_sticks(fields@, (i + 1) as nat, fields@.len());
                    }
                    return Err(KeyError::MultipleKeys);
                }
                match parse_marker(marker, field.is_string) {
                    Err(e) => {
                        proof {
                            lemma_scan_error_sticks(fields@, (i + 1) as nat, fields@.len());
                        }
                        return Err(e);
                    },
                    Ok(case_insensitive) => {
                        result = Some(KeyParams { ident: field.name.clone(), case_insensitive });
                    },
                }
            },
        }
        i = i + 1;
    }
    Ok(result)
}

/// The key policy that a key selection asks for.
pub open spec fn policy_spec(params: Option<KeyParams>) -> KeyPolicy {
    match params {
        None => KeyPolicy::Unitary,
        Some(p) => if p.case_insensitive {
            KeyPolicy::CaseFolded
        } else {
            KeyPolicy::Verbatim
        },
    }
}

/// Chooses how a record type's keys are encoded: no key field gives the
/// single empty key, a key field its UTF-8 bytes, lower-cased first when the
/// field asked for it.
pub fn generate_key_serializing(params: &Option<KeyParams>) -> (r: KeyPolicy)
    ensures
        r == policy_spec(*params),
{
    match params {
        None => KeyPolicy::Unitary,
        Some(p) => if p.case_insensitive {
            KeyPolicy::CaseFolded
        } else {
            KeyPolicy::Verbatim
        },
    }
}

/// A registered record type: the name of its partition, its key field and
/// the policy that encodes its keys.
#[derive(Clone, Debug)]
pub struct RecordSpec {
    pub name: String,
    pub key_field: Option<String>,
    pub policy: KeyPolicy,
}

/// The registration of a record type named `name` with the given key selection.
pub open spec fn record_spec_of(name: Seq<char>, params: Option<KeyParams>, r: RecordSpec) -> bool {
    &&& r.name@ == name
    &&& r.policy == policy_spec(params)
    &&& match params {
        None => r.key_field is None,
        Some(p) => r.key_field matches Some(k) && k@ == p.ident@,
    }
}

/// Registers a record type under its name, with the key selection found for it.
pub fn generate_collection(name: &str, params: Option<KeyParams>) -> (r: RecordSpec)
    ensures
        record_spec_of(name@, params, r),
{
    let policy = generate_key_serializing(&params);
    let key_field = match params {
        None => None,
        Some(p) => Some(p.ident),
    };
    RecordSpec { name: name.to_string(), key_field, policy }
}

/// Registers the record type `name` of the given shape: fails as
/// [`parse_key`] does, else binds the type's name to its key policy.
pub fn derive_collection(name: &str, input: &RecordShape) -> (r: Result<RecordSpec, KeyError>)
    ensures
        match parse_key_spec(*input) {
            Err(e) => r == Err::<RecordSpec, KeyError>(e),
            Ok(params) => r matches Ok(spec) && record_spec_of(name@, params, spec),
        },
{
    match parse_key(input) {
        Err(e) => Err(e),
        Ok(params) => Ok(generate_collection(name, params)),
    }
}

} // verus!
