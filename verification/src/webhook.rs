//! The call by which the identity provider reports a confirmed login. The
//! call is checked here; a call that passes becomes the pending record that
//! replaces whatever the store held for the person.

use crate::decimal::{parse_u64, spec_parse_u64};
use crate::records::{PendingRecord, PendingView};
use crate::store::{kept_pending, Store, StoreView};
use vstd::prelude::*;

verus! {

/// What the identity provider sends.
#[derive(Debug, PartialEq, Eq)]
pub struct Verify {
    pub id: String,
    pub shortcode: String,
    pub fullname: String,
    pub key: String,
}

/// Why a call is turned away.
#[derive(Clone, Copy, Debug, PartialEq, Eq, Structural)]
pub enum Refusal {
    /// There is no readable body, or the identity is no number.
    InvalidBody,
    /// The shared secret is not the expected one.
    Unauthorized,
}

/// How a call ended.
#[derive(Clone, Copy, Debug, PartialEq, Eq, Structural)]
pub enum Reply {
    Added,
    Refused(Refusal),
    StoreFailed,
}

/// The pending record that a call asks for.
pub open spec fn pending_of(identity: u64, payload: Verify) -> PendingView {
    PendingView { identity, shortcode: payload.shortcode@, legal_name: payload.fullname@ }
}

/// The greatest identity that a call may name: the store keys its rows by a
/// signed number of 64 bits.
pub const MAX_IDENTITY: u64 = 9223372036854775807;

/// The identity that a call names: a number in decimal, no greater than the
/// greatest that the store can key.
pub open spec fn spec_identity(id: Seq<char>) -> Option<u64> {
    match spec_parse_u64(id) {
        Some(identity) => if identity <= MAX_IDENTITY {
            Some(identity)
        } else {
            None
        },
        None => None,
    }
}

/// What the check of a call comes to: the secret is looked at first, then
/// the identity.
pub open spec fn spec_check(payload: Option<Verify>, expected_key: Seq<char>) -> Result<
    PendingView,
    Refusal,
> {
    match payload {
        None => Err(Refusal::InvalidBody),
        Some(p) => if p.key@ != expected_key {
            Err(Refusal::Unauthorized)
        } else {
            match spec_identity(p.id@) {
                Some(identity) => Ok(pending_of(identity, p)),
                None => Err(Refusal::InvalidBody),
            }
        },
    }
}

/// The status code of a reply.
pub open spec fn spec_status(reply: Reply) -> u16 {
    match reply {
        Reply::Added => 200,
        Reply::Refused(Refusal::InvalidBody) => 400,
        Reply::Refused(Refusal::Unauthorized) => 401,
        Reply::StoreFailed => 500,
    }
}

/// Reads the identity that a call names.
pub fn identity_of(id: &str) -> (identity: Option<u64>)
    ensures
        identity == spec_identity(id@),
{
    match parse_u64(id) {
        Some(identity) => if identity <= MAX_IDENTITY {
            Some(identity)
        } else {
            None
        },
        None => None,
    }
}

/// Checks a call: the shared secret, then the identity.
pub fn check(payload: Option<Verify>, expected_key: &String) -> (checked: Result<
    PendingRecord,
    Refusal,
>)
    ensures
        match checked {
            Ok(record) => spec_check(payload, expected_key@) == Ok::<PendingView, Refusal>(record@),
            Err(refusal) => spec_check(payload, expected_key@) == Err::<PendingView, Refusal>(
                refusal,
            ),
        },
{
    match payload {
        None => Err(Refusal::InvalidBody),
        Some(p) => {
            if !(p.key == *expected_key) {
                return Err(Refusal::Unauthorized);
            }
            match identity_of(p.id.as_str()) {
                Some(identity) => Ok(
                    PendingRecord { identity, shortcode: p.shortcode, legal_name: p.fullname },
                ),
                None => Err(Refusal::InvalidBody),
            }
        },
    }
}

impl Reply {
    /// The status code of this reply.
    pub fn status(self) -> (code: u16)
        ensures
            code == spec_status(self),
    {
        match self {
            Reply::Added => 200,
            Reply::Refused(Refusal::InvalidBody) => 400,
            Reply::Refused(Refusal::Unauthorized) => 401,
            Reply::StoreFailed => 500,
        }
    }

    /// The text of this reply. For a failure of the store the host sends the
    /// store's own words.
    pub fn text(self) -> (text: &'static str)
        ensures
            text@ == match self {
                Reply::Added => "Member added to `pending` database"@,
                Reply::Refused(Refusal::InvalidBody) => "Invalid request body"@,
                Reply::Refused(Refusal::Unauthorized) => "Auth required"@,
                Reply::StoreFailed => "DB request failed"@,
            },
    {
        match self {
            Reply::Added => "Member added to `pending` database",
            Reply::Refused(Refusal::InvalidBody) => "Invalid request body",
            Reply::Refused(Refusal::Unauthorized) => "Auth required",
            Reply::StoreFailed => "DB request failed",
        }
    }
}

/// The store after a call: a call that passes the check replaces the
/// pending record of the person, any other call changes nothing.
pub open spec fn store_after(store: StoreView, payload: Option<Verify>, expected_key: Seq<char>)
    -> StoreView {
    match spec_check(payload, expected_key) {
        Ok(record) => store.delete_pending(record.identity).insert_pending(record),
        Err(_) => store,
    }
}

/// Takes a call against the store held in memory: the old pending record of
/// the person is deleted and the new one inserted.
pub fn receive(store: &mut Store, payload: Option<Verify>, expected_key: &String) -> (reply: Reply)
    ensures
        final(store)@ == store_after(old(store)@, payload, expected_key@),
        reply == match spec_check(payload, expected_key@) {
            Ok(_) => Reply::Added,
            Err(refusal) => Reply::Refused(refusal),
        },
{
    match check(payload, expected_key) {
        Err(refusal) => Reply::Refused(refusal),
        Ok(record) => {
            let _ = store.delete_pending(record.identity);
            match store.insert_pending(record) {
                Ok(()) => Reply::Added,
                Err(_) => Reply::StoreFailed,
            }
        },
    }
}

/// A call that passes the check leaves exactly its own record as the
/// pending one of the person, whatever was pending before.
pub proof fn law_call_replaces_the_pending_record(
    store: StoreView,
    payload: Verify,
    identity: u64,
)
    requires
        spec_identity(payload.id@) == Some(identity),
    ensures
        ({
            let after = store_after(store, Some(payload), payload.key@);
            &&& after.pending.contains_key(identity)
            &&& after.pending[identity] == kept_pending(pending_of(identity, payload))
            &&& after.pending.remove(identity) == store.pending.remove(identity)
            &&& after.manual == store.manual
            &&& after.members == store.members
        }),
{
    let after = store_after(store, Some(payload), payload.key@);
    assert(after.pending.remove(identity) =~= store.pending.remove(identity));
}

} // verus!
