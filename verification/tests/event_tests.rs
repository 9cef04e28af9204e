use calendar_rsvp::Attendee;
use calendar_rsvp::Event;
use calendar_rsvp::EventIdentifier;
use calendar_rsvp::ResponseStatus;
use calendar_rsvp::resolve_patch;
use calendar_rsvp::rsvp_patch;

fn attendee(email: &str, is_self: bool) -> Attendee {
    Attendee {
        email: Some(email.to_string()),
        display_name: None,
        is_self: Some(is_self),
        response_status: None,
    }
}

#[test]
fn self_attendee_is_targeted_without_a_hint() {
    let attendees = vec![attendee("a@x", false), attendee("b@x", true)];

    let patch = resolve_patch(&attendees, &None, ResponseStatus::Accepted);

    assert_eq!(Some("b@x".to_string()), patch.email);
    assert_eq!("accepted", patch.response_status);
}

#[test]
fn hint_beats_the_self_flag() {
    let attendees = vec![attendee("a@x", false), attendee("b@x", true)];

    let patch = resolve_patch(&attendees, &Some("a@x".to_string()), ResponseStatus::Accepted);

    assert_eq!(Some("a@x".to_string()), patch.email);
    assert_eq!("accepted", patch.response_status);
}

#[test]
fn unmatched_hint_falls_back_to_self() {
    let attendees = vec![attendee("a@x", false), attendee("b@x", true)];

    let patch = resolve_patch(&attendees, &Some("c@x".to_string()), ResponseStatus::Declined);

    assert_eq!(Some("b@x".to_string()), patch.email);
    assert_eq!("declined", patch.response_status);
}

#[test]
fn no_match_still_carries_the_status() {
    let patch = resolve_patch(&vec![], &None, ResponseStatus::Tentative);
    assert_eq!(None, patch.email);
    assert_eq!("tentative", patch.response_status);

    let attendees = vec![attendee("a@x", false)];
    let patch = resolve_patch(&attendees, &None, ResponseStatus::Tentative);
    assert_eq!(None, patch.email);
    assert_eq!("tentative", patch.response_status);
}

#[test]
fn hint_matching_is_case_sensitive() {
    let attendees = vec![attendee("A@x", false), attendee("b@x", true)];

    let patch = resolve_patch(&attendees, &Some("a@x".to_string()), ResponseStatus::Accepted);

    assert_eq!(Some("b@x".to_string()), patch.email);
}

#[test]
fn applying_the_same_response_twice_builds_the_same_patch() {
    let before = vec![attendee("a@x", false), attendee("b@x", true)];

    let first = resolve_patch(&before, &None, ResponseStatus::Accepted);

    // The remote API applies the patch: only b@x's response status changes.
    let after = vec![
        attendee("a@x", false),
        Attendee {
            email: Some("b@x".to_string()),
            display_name: None,
            is_self: Some(true),
            response_status: Some(first.response_status.clone()),
        },
    ];

    let second = resolve_patch(&after, &None, ResponseStatus::Accepted);

    assert_eq!(first.email, second.email);
    assert_eq!(first.response_status, second.response_status);
}

#[test]
fn rsvp_patch_resolves_against_the_event() {
    let event = Event {
        summary: None,
        description: None,
        start_date_time: None,
        end_date_time: None,
        entry_point_uris: vec![],
        attendees: Some(vec![attendee("a@x", false), attendee("b@x", true)]),
    };
    let id = EventIdentifier { event_id: "the-id".to_string(), email_hint: None };

    let patch = rsvp_patch(&event, &id, ResponseStatus::Declined);

    assert_eq!(Some("b@x".to_string()), patch.email);
    assert_eq!("declined", patch.response_status);
}

#[test]
fn rsvp_patch_on_an_event_without_attendees() {
    let event = Event {
        summary: None,
        description: None,
        start_date_time: None,
        end_date_time: None,
        entry_point_uris: vec![],
        attendees: None,
    };
    let id = EventIdentifier { event_id: "the-id".to_string(), email_hint: None };

    let patch = rsvp_patch(&event, &id, ResponseStatus::Accepted);

    assert_eq!(None, patch.email);
    assert_eq!("accepted", patch.response_status);
}

#[test]
fn status_strings_match_the_remote_api() {
    assert_eq!("accepted", ResponseStatus::Accepted.api_str());
    assert_eq!("declined", ResponseStatus::Declined.api_str());
    assert_eq!("tentative", ResponseStatus::Tentative.api_str());
}
