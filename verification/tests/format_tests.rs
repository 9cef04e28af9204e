use calendar_rsvp::Attendee;
use calendar_rsvp::Error;
use calendar_rsvp::Event;
use calendar_rsvp::attendee_line;
use calendar_rsvp::format_event;

fn named_attendee(name: &str, status: &str) -> Attendee {
    Attendee {
        email: Some("someone@example.com".to_string()),
        display_name: Some(name.to_string()),
        is_self: None,
        response_status: Some(status.to_string()),
    }
}

#[test]
fn declined_renders_with_the_no_label() {
    let line = attendee_line(&named_attendee("Rory", "declined"));
    assert_eq!(Some("       No    Rory\n".to_string()), line);
}

#[test]
fn unrecognized_status_renders_nothing() {
    assert_eq!(None, attendee_line(&named_attendee("Rory", "organizer")));
}

#[test]
fn all_four_labels_render_as_fixed_columns() {
    assert_eq!(
        Some("             Rory\n".to_string()),
        attendee_line(&named_attendee("Rory", "needsAction"))
    );
    assert_eq!(
        Some("       No    Rory\n".to_string()),
        attendee_line(&named_attendee("Rory", "declined"))
    );
    assert_eq!(
        Some("       Maybe Rory\n".to_string()),
        attendee_line(&named_attendee("Rory", "tentative"))
    );
    assert_eq!(
        Some("       Yes   Rory\n".to_string()),
        attendee_line(&named_attendee("Rory", "accepted"))
    );
}

#[test]
fn the_email_stands_in_for_a_missing_display_name() {
    let a = Attendee {
        email: Some("someone@example.com".to_string()),
        display_name: None,
        is_self: None,
        response_status: Some("accepted".to_string()),
    };
    assert_eq!(Some("       Yes   someone@example.com\n".to_string()), attendee_line(&a));
}

#[test]
fn nameless_or_statusless_attendees_render_nothing() {
    let nameless = Attendee {
        email: None,
        display_name: None,
        is_self: None,
        response_status: Some("accepted".to_string()),
    };
    assert_eq!(None, attendee_line(&nameless));

    let statusless = Attendee {
        email: Some("someone@example.com".to_string()),
        display_name: None,
        is_self: None,
        response_status: None,
    };
    assert_eq!(None, attendee_line(&statusless));
}

#[test]
fn a_full_event_renders_every_section() {
    let event = Event {
        summary: Some("Standup".to_string()),
        description: Some("Daily sync".to_string()),
        start_date_time: Some("2021-05-21T12:00:00+00:00".to_string()),
        end_date_time: Some("2021-05-21T13:00:00+00:00".to_string()),
        entry_point_uris: vec![None, Some("https://meet.example/abc".to_string())],
        attendees: Some(vec![
            named_attendee("Alice", "accepted"),
            named_attendee("Bob", "organizer"),
            named_attendee("Carol", "declined"),
        ]),
    };

    let expected = "Standup\n\nDaily sync\nWhen         Fri May 21, 2021 12:00 – 13:00 +0000\nJoining info https://meet.example/abc\nWho\n       Yes   Alice\n       No    Carol\n";

    assert_eq!(Ok(expected.to_string()), format_event(&event));
}

#[test]
fn an_event_without_an_end_renders_no_range() {
    let event = Event {
        summary: None,
        description: None,
        start_date_time: Some("2021-05-21T12:00:00+02:00".to_string()),
        end_date_time: None,
        entry_point_uris: vec![],
        attendees: None,
    };

    assert_eq!(
        Ok("When         Fri May 21, 2021 12:00 +0200\n".to_string()),
        format_event(&event)
    );
}

#[test]
fn a_bad_timestamp_is_an_error() {
    let event = Event {
        summary: None,
        description: None,
        start_date_time: Some("yesterday".to_string()),
        end_date_time: None,
        entry_point_uris: vec![],
        attendees: None,
    };

    assert_eq!(Err(Error::InvalidTimestamp), format_event(&event));
}

#[test]
fn an_empty_event_renders_nothing() {
    let event = Event {
        summary: None,
        description: None,
        start_date_time: None,
        end_date_time: None,
        entry_point_uris: vec![],
        attendees: None,
    };

    assert_eq!(Ok(String::new()), format_event(&event));
}
