use nano::fresher::Fresher;
use nano::notes::{request_fields, summary_fields, Field, REQUEST_TITLE};
use nano::records::MemberRecord;
use nano::verify::manual::{manual_3_checked, ManualForm};

fn line(name: &str, value: &str) -> Field {
    Field { name: name.to_string(), value: value.to_string() }
}

#[test]
fn note_of_a_new_member_tells_category_and_names() {
    let record = MemberRecord {
        identity: 7,
        shortcode: "ab1234".to_string(),
        preferred_name: "Ada".to_string(),
        legal_name: "Ada Lovelace".to_string(),
        fresher: Fresher::YesPg,
    };
    assert_eq!(
        summary_fields(&record),
        vec![line("Fresher", "Yes, Postgraduate"), line("Nickname", "Ada"), line("Name", "Ada Lovelace")]
    );
}

#[test]
fn prompt_shows_every_submitted_detail() {
    let form = ManualForm {
        shortcode: "ab1234".to_string(),
        realname: "Ada Lovelace".to_string(),
        url: "https://example.org/card.png".to_string(),
        nickname: "Ada".to_string(),
    };
    let session = manual_3_checked(7, Fresher::No, form, true);
    assert_eq!(
        request_fields(&session),
        vec![
            line("Real Name (To be checked)", "Ada Lovelace"),
            line("Imperial Shortcode (To be checked", "ab1234"),
            line("Fresher (To be checked)", "No"),
            line("Nickname (Nano whois commands)", "Ada"),
            line("Verification URL (Also displayed below)", "https://example.org/card.png"),
        ]
    );
    assert_eq!(REQUEST_TITLE, "New verification request from");
}
