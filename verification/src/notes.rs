//! What the committee is shown of a person: the lines of the prompt that
//! asks for a decision, and those of the note that tells of a new member.

use crate::records::{MemberRecord, RecordView};
use crate::verify::{Session, SessionView};
use vstd::prelude::*;
use vstd::string::*;

verus! {

/// One line of a note, as plain values.
pub struct FieldView {
    pub name: Seq<char>,
    pub value: Seq<char>,
}

/// One line of a note: what is told, and the value.
#[derive(Debug, PartialEq, Eq)]
pub struct Field {
    pub name: String,
    pub value: String,
}

impl View for Field {
    type V = FieldView;

    open spec fn view(&self) -> FieldView {
        FieldView { name: self.name@, value: self.value@ }
    }
}

/// The lines of a note as plain values, in order.
pub open spec fn fields_view(fields: Seq<Field>) -> Seq<FieldView> {
    fields.map_values(|f: Field| f@)
}

/// The heading of the prompt that asks the committee for a decision.
pub const REQUEST_TITLE: &'static str = "New verification request from";

/// The lines that tell the committee of a new member: the fresher category,
/// the preferred name and the legal name.
pub open spec fn spec_summary_fields(record: RecordView) -> Seq<FieldView> {
    seq![
        FieldView { name: "Fresher"@, value: record.fresher.spec_label() },
        FieldView { name: "Nickname"@, value: record.preferred_name },
        FieldView { name: "Name"@, value: record.legal_name },
    ]
}

/// The lines of the prompt that asks the committee for a decision: every
/// detail that the person submitted, each to be checked.
pub open spec fn spec_request_fields(s: SessionView) -> Seq<FieldView> {
    seq![
        FieldView { name: "Real Name (To be checked)"@, value: s.candidate.legal_name },
        FieldView { name: "Imperial Shortcode (To be checked"@, value: s.candidate.shortcode },
        FieldView { name: "Fresher (To be checked)"@, value: s.candidate.fresher.spec_label() },
        FieldView { name: "Nickname (Nano whois commands)"@, value: s.candidate.preferred_name },
        FieldView { name: "Verification URL (Also displayed below)"@, value: s.proof_url },
    ]
}

/// A line of a note.
fn field(name: &str, value: &str) -> (f: Field)
    ensures
        f@ == (FieldView { name: name@, value: value@ }),
{
    Field { name: String::from_str(name), value: String::from_str(value) }
}

/// The lines that tell the committee of a new member.
pub fn summary_fields(record: &MemberRecord) -> (fields: Vec<Field>)
    ensures
        fields_view(fields@) == spec_summary_fields(record@),
{
    let fields = vec![
        field("Fresher", record.fresher.label()),
        field("Nickname", record.preferred_name.as_str()),
        field("Name", record.legal_name.as_str()),
    ];
    assert(fields_view(fields@) =~= spec_summary_fields(record@));
    fields
}

/// The lines of the prompt that asks the committee for a decision on the
/// request of a session.
pub fn request_fields(session: &Session) -> (fields: Vec<Field>)
    ensures
        fields_view(fields@) == spec_request_fields(session@),
{
    let fields = vec![
        field("Real Name (To be checked)", session.candidate.legal_name.as_str()),
        field("Imperial Shortcode (To be checked", session.candidate.shortcode.as_str()),
        field("Fresher (To be checked)", session.candidate.fresher.label()),
        field("Nickname (Nano whois commands)", session.candidate.preferred_name.as_str()),
        field("Verification URL (Also displayed below)", session.proof_url.as_str()),
    ];
    assert(fields_view(fields@) =~= spec_request_fields(session@));
    fields
}

} // verus!
