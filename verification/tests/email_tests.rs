use calendar_rsvp::Error;
use calendar_rsvp::MimePart;
use calendar_rsvp::eid_from_email;
use calendar_rsvp::extract_identifier;
use calendar_rsvp::find_eid;

fn plain_part(body: &str) -> MimePart {
    MimePart {
        mimetype: "text/plain".to_string(),
        body: Some(body.to_string()),
        subparts: vec![],
    }
}

#[test]
fn extracts_eid_from_alternative_plain_part() {
    let root = MimePart {
        mimetype: "multipart/mixed".to_string(),
        body: None,
        subparts: vec![MimePart {
            mimetype: "multipart/alternative".to_string(),
            body: None,
            subparts: vec![plain_part(
                "Open https://calendar.example/event?eid=XYZ123&ctz=Europe/Paris",
            )],
        }],
    };

    assert_eq!(Ok("XYZ123".to_string()), extract_identifier(&root));
}

#[test]
fn missing_alternative_plain_part_is_no_match() {
    let root = MimePart {
        mimetype: "multipart/mixed".to_string(),
        body: None,
        subparts: vec![
            plain_part("eid=SHOULD-NOT-BE-READ&"),
            MimePart {
                mimetype: "multipart/alternative".to_string(),
                body: None,
                subparts: vec![MimePart {
                    mimetype: "text/html".to_string(),
                    body: Some("<a href=\"?eid=NOR-THIS&\">".to_string()),
                    subparts: vec![],
                }],
            },
        ],
    };

    assert_eq!(Err(Error::NoMatchFound), extract_identifier(&root));
}

#[test]
fn body_without_pattern_is_no_match() {
    let root = MimePart {
        mimetype: "multipart/mixed".to_string(),
        body: None,
        subparts: vec![MimePart {
            mimetype: "multipart/alternative".to_string(),
            body: None,
            subparts: vec![plain_part("no identifier in here")],
        }],
    };

    assert_eq!(Err(Error::NoMatchFound), extract_identifier(&root));
}

#[test]
fn eid_from_email_parses_a_real_message() {
    let raw = b"From: organizer@example.com\r\n\
To: rory.mercury@example.com\r\n\
Subject: Invitation\r\n\
MIME-Version: 1.0\r\n\
Content-Type: multipart/mixed; boundary=\"outer\"\r\n\
\r\n\
--outer\r\n\
Content-Type: multipart/alternative; boundary=\"inner\"\r\n\
\r\n\
--inner\r\n\
Content-Type: text/plain; charset=\"UTF-8\"\r\n\
\r\n\
Please respond: https://calendar.example/event?action=VIEW&eid=XYZ123&tok=abc\r\n\
--inner--\r\n\
--outer--\r\n";

    assert_eq!(Ok("XYZ123".to_string()), eid_from_email(raw));
}

#[test]
fn eid_from_email_without_target_part_is_no_match() {
    let raw = b"From: organizer@example.com\r\n\
To: rory.mercury@example.com\r\n\
Subject: Hello\r\n\
\r\n\
eid=NOT-IN-AN-ALTERNATIVE-PART&\r\n";

    assert_eq!(Err(Error::NoMatchFound), eid_from_email(raw));
}

#[test]
fn find_eid_takes_the_leftmost_match() {
    assert_eq!(Some("a".to_string()), find_eid("eid=a&eid=b&"));
}

#[test]
fn find_eid_needs_a_non_empty_capture() {
    assert_eq!(None, find_eid("eid=&"));
    assert_eq!(Some("ok".to_string()), find_eid("eid=&eid=ok&"));
}

#[test]
fn find_eid_needs_a_terminator() {
    assert_eq!(None, find_eid("eid=abc"));
    assert_eq!(None, find_eid(""));
    assert_eq!(Some("abc".to_string()), find_eid("zzeid=abc&rest"));
}
