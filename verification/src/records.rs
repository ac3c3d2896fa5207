//! The three records that a verification attempt passes through.

use crate::fresher::Fresher;
use vstd::prelude::*;

verus! {

/// What a pending record holds, as plain values.
pub struct PendingView {
    pub identity: u64,
    pub shortcode: Seq<char>,
    pub legal_name: Seq<char>,
}

/// What a manual or a member record holds, as plain values.
pub struct RecordView {
    pub identity: u64,
    pub shortcode: Seq<char>,
    pub preferred_name: Seq<char>,
    pub legal_name: Seq<char>,
    pub fresher: Fresher,
}

/// A login that the identity provider has confirmed and that is not yet a
/// member.
#[derive(Debug, PartialEq, Eq)]
pub struct PendingRecord {
    pub identity: u64,
    pub shortcode: String,
    pub legal_name: String,
}

/// A request that waits for a committee member's decision.
#[derive(Debug, PartialEq, Eq)]
pub struct ManualRecord {
    pub identity: u64,
    pub shortcode: String,
    pub preferred_name: String,
    pub legal_name: String,
    pub fresher: Fresher,
}

/// A verified member.
#[derive(Debug, PartialEq, Eq)]
pub struct MemberRecord {
    pub identity: u64,
    pub shortcode: String,
    pub preferred_name: String,
    pub legal_name: String,
    pub fresher: Fresher,
}

impl View for PendingRecord {
    type V = PendingView;

    open spec fn view(&self) -> PendingView {
        PendingView {
            identity: self.identity,
            shortcode: self.shortcode@,
            legal_name: self.legal_name@,
        }
    }
}

impl View for ManualRecord {
    type V = RecordView;

    open spec fn view(&self) -> RecordView {
        RecordView {
            identity: self.identity,
            shortcode: self.shortcode@,
            preferred_name: self.preferred_name@,
            legal_name: self.legal_name@,
            fresher: self.fresher,
        }
    }
}

impl View for MemberRecord {
    type V = RecordView;

    open spec fn view(&self) -> RecordView {
        RecordView {
            identity: self.identity,
            shortcode: self.shortcode@,
            preferred_name: self.preferred_name@,
            legal_name: self.legal_name@,
            fresher: self.fresher,
        }
    }
}

/// The member that a pending login becomes once the preferred name and the
/// fresher category are known.
pub open spec fn admitted(pending: PendingView, preferred_name: Seq<char>, fresher: Fresher)
    -> RecordView {
    RecordView {
        identity: pending.identity,
        shortcode: pending.shortcode,
        preferred_name,
        legal_name: pending.legal_name,
        fresher,
    }
}

impl Clone for PendingRecord {
    fn clone(&self) -> (r: Self)
        ensures
            r == *self,
    {
        PendingRecord {
            identity: self.identity,
            shortcode: self.shortcode.clone(),
            legal_name: self.legal_name.clone(),
        }
    }
}

impl Clone for ManualRecord {
    fn clone(&self) -> (r: Self)
        ensures
            r == *self,
    {
        ManualRecord {
            identity: self.identity,
            shortcode: self.shortcode.clone(),
            preferred_name: self.preferred_name.clone(),
            legal_name: self.legal_name.clone(),
            fresher: self.fresher,
        }
    }
}

impl Clone for MemberRecord {
    fn clone(&self) -> (r: Self)
        ensures
            r == *self,
    {
        MemberRecord {
            identity: self.identity,
            shortcode: self.shortcode.clone(),
            preferred_name: self.preferred_name.clone(),
            legal_name: self.legal_name.clone(),
            fresher: self.fresher,
        }
    }
}

impl PendingRecord {
    /// The member that this login becomes.
    pub fn into_member(self, preferred_name: String, fresher: Fresher) -> (member: MemberRecord)
        ensures
            member@ == admitted(self@, preferred_name@, fresher),
    {
        MemberRecord {
            identity: self.identity,
            shortcode: self.shortcode,
            preferred_name,
            legal_name: self.legal_name,
            fresher,
        }
    }
}

impl ManualRecord {
    /// The member that this request becomes when it is accepted.
    pub fn promote(self) -> (member: MemberRecord)
        ensures
            member@ == self@,
    {
        MemberRecord {
            identity: self.identity,
            shortcode: self.shortcode,
            preferred_name: self.preferred_name,
            legal_name: self.legal_name,
            fresher: self.fresher,
        }
    }
}

impl MemberRecord {
    /// The same details as a request for manual review.
    pub fn as_request(&self) -> (request: ManualRecord)
        ensures
            request@ == self@,
    {
        ManualRecord {
            identity: self.identity,
            shortcode: self.shortcode.clone(),
            preferred_name: self.preferred_name.clone(),
            legal_name: self.legal_name.clone(),
            fresher: self.fresher,
        }
    }
}

} // verus!
