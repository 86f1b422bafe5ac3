//! The set of pull requests handled in earlier runs, and its persisted form:
//! a JSON document that is read whole and overwritten whole.

use std::collections::HashSet;
use vstd::prelude::*;
use vstd::string::*;

verus! {

broadcast use vstd::std_specs::hash::group_hash_axioms;

/// `serde_json::Error`: why a document was rejected. It is carried from the
/// parser to [`json_error_text`] and not looked into.
#[verifier::external_type_specification]
#[verifier::external_body]
pub struct ExJsonError(serde_json::Error);

/// The set of identifiers that `serde_json::from_str` reads from a document,
/// or `None` where it rejects the document.
pub uninterp spec fn json_id_set(text: Seq<char>) -> Option<Set<u64>>;

/// Calls `serde_json::from_str` for a set of `u64`. The contract names the
/// outcome: the call succeeds exactly on the documents that [`json_id_set`]
/// accepts, and then yields that set.
#[verifier::external_body]
fn parse_id_set(text: &str) -> (r: Result<HashSet<u64>, serde_json::Error>)
    ensures
        match r {
            Ok(ids) => json_id_set(text@) == Some(ids@),
            Err(_) => json_id_set(text@) is None,
        },
{
    serde_json::from_str::<HashSet<u64>>(text)
}

/// Calls `serde_json::to_string_pretty` on a set of `u64`. The contract
/// claims that the call succeeds, since it writes integers into memory and
/// the serializer fails only where its writer does, and that the document
/// reads back as the same set. The order of the members in the document is
/// left open.
#[verifier::external_body]
fn render_id_set(ids: &HashSet<u64>) -> (r: Result<String, serde_json::Error>)
    ensures
        r is Ok,
        json_id_set(r->Ok_0@) == Some(ids@),
{
    serde_json::to_string_pretty(ids)
}

/// Calls `to_string` on a `serde_json::Error`: its message for the user.
/// Nothing is claimed of the text.
#[verifier::external_body]
fn json_error_text(error: &serde_json::Error) -> String {
    error.to_string()
}

/// What was found at the place of the persisted state.
#[derive(Debug, PartialEq, Eq)]
pub enum Stored {
    /// Nothing was persisted yet.
    Absent,
    /// Something is there, but it could not be read; the cause.
    Unreadable(String),
    /// The document that is there.
    Text(String),
}

/// Why the persisted state could not be loaded or saved.
#[derive(Debug, PartialEq, Eq)]
pub enum StateError {
    /// The document could not be read; the cause.
    Unreadable(String),
    /// The document is not a set of identifiers; the cause.
    Malformed(String),
    /// The set could not be turned into a document; the cause.
    Unserializable(String),
    /// The document could not be written; the cause.
    Unwritable(String),
}

/// The set that loading yields from what was found, or `None` where loading
/// fails: no state is the empty set, and a document is what it reads as.
pub open spec fn load_result(stored: Stored) -> Option<Set<u64>> {
    match stored {
        Stored::Absent => Some(Set::empty()),
        Stored::Unreadable(_) => None,
        Stored::Text(text) => json_id_set(text@),
    }
}

/// The identifiers handled in earlier runs. Missing state is the empty set;
/// state that cannot be read or understood is an error, never an empty set.
pub fn load_processed(stored: Stored) -> (r: Result<HashSet<u64>, StateError>)
    ensures
        match load_result(stored) {
            Some(ids) => r is Ok && r->Ok_0@ == ids,
            None => r is Err,
        },
        stored matches Stored::Unreadable(cause) ==> r == Err::<HashSet<u64>, StateError>(
            StateError::Unreadable(cause),
        ),
        stored is Text && r is Err ==> r->Err_0 is Malformed,
{
    match stored {
        Stored::Absent => Ok(HashSet::new()),
        Stored::Unreadable(cause) => Err(StateError::Unreadable(cause)),
        Stored::Text(text) => match parse_id_set(text.as_str()) {
            Ok(ids) => Ok(ids),
            Err(error) => Err(StateError::Malformed(json_error_text(&error))),
        },
    }
}

/// The document that persists `processed`. There is one for every set; it
/// replaces the earlier document as a whole, and loading it yields
/// `processed` again.
pub fn save_processed(processed: &HashSet<u64>) -> (r: Result<String, StateError>)
    ensures
        r is Ok,
        load_result(Stored::Text(r->Ok_0)) == Some(processed@),
{
    match render_id_set(processed) {
        Ok(text) => Ok(text),
        Err(error) => Err(StateError::Unserializable(json_error_text(&error))),
    }
}

/// Records that `pr_number` was handled.
pub fn mark_processed(processed: &mut HashSet<u64>, pr_number: u64)
    ensures
        final(processed)@ == old(processed)@.insert(pr_number),
{
    processed.insert(pr_number);
}

/// The document that clears the persisted state. There always is one, and
/// nothing that was persisted before is read for it; once it is written,
/// loading yields the empty set.
pub fn reset() -> (r: Result<String, StateError>)
    ensures
        r is Ok,
        load_result(Stored::Text(r->Ok_0)) == Some(Set::<u64>::empty()),
{
    let processed: HashSet<u64> = HashSet::new();
    save_processed(&processed)
}

impl StateError {
    /// The failing step and its cause, for the user.
    pub fn message(&self) -> (r: String)
        ensures
            r@ == match *self {
                StateError::Unreadable(cause) => "Failed to read state: "@ + cause@,
                StateError::Malformed(cause) => "Failed to parse state: "@ + cause@,
                StateError::Unserializable(cause) => "Failed to serialize state: "@ + cause@,
                StateError::Unwritable(cause) => "Failed to write state: "@ + cause@,
            },
    {
        match self {
            StateError::Unreadable(cause) => "Failed to read state: ".to_owned().concat(
                cause.as_str(),
            ),
            StateError::Malformed(cause) => "Failed to parse state: ".to_owned().concat(
                cause.as_str(),
            ),
            StateError::Unserializable(cause) => "Failed to serialize state: ".to_owned().concat(
                cause.as_str(),
            ),
            StateError::Unwritable(cause) => "Failed to write state: ".to_owned().concat(
                cause.as_str(),
            ),
        }
    }
}

} // verus!
