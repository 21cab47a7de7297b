use authgate::date::DateError;
use authgate::event::EventCategory;
use authgate::hasher::verify_password;
use authgate::model::{NewEvent, NewMessage, NewUser, User};
use authgate::payload::{
    CreateEventPayload, CreateMessagePayload, CreateUserPayload, InputEventPayload,
    InputMessagePayload, PatchEventPayload, PwError,
};

#[test]
fn event_payload_with_valid_date_becomes_a_record() {
    let p = CreateEventPayload {
        date: "2024-06-01".to_owned(),
        title: Some("Graduation".to_owned()),
        category: Some("EducationLearning".to_owned()),
        description: "Finished the degree".to_owned(),
        user_id: 7,
    };
    let e = NewEvent::try_from(p).unwrap();
    assert_eq!(e.date.year, 2024);
    assert_eq!(e.date.month, 6);
    assert_eq!(e.date.day, 1);
    assert_eq!(e.title.as_deref(), Some("Graduation"));
    assert_eq!(e.category.as_deref(), Some("EducationLearning"));
    assert_eq!(e.description, "Finished the degree");
    assert_eq!(e.user_id, 7);
}

#[test]
fn event_payload_with_bad_date_is_rejected() {
    let p = CreateEventPayload {
        date: "June 1st".to_owned(),
        title: None,
        category: None,
        description: "x".to_owned(),
        user_id: 7,
    };
    assert_eq!(NewEvent::try_from(p).unwrap_err(), PwError::ParseError(DateError::Syntax));
}

#[test]
fn input_assembly_fills_title_and_category() {
    let input = InputEventPayload {
        date: "2024-06-01".to_owned(),
        title: None,
        description: "d".to_owned(),
    };
    let p = CreateEventPayload::from_input(input, &EventCategory::CareerWork, 7);
    assert_eq!(p.title.as_deref(), Some(""));
    assert_eq!(p.category.as_deref(), Some("CareerWork"));
    assert_eq!(p.user_id, 7);
    assert_eq!(p.date, "2024-06-01");
}

#[test]
fn patch_assembly_binds_the_requesting_user() {
    let patch = PatchEventPayload {
        date: "2024-06-02".to_owned(),
        title: Some("t".to_owned()),
        description: "d".to_owned(),
        category: Some("Unknown".to_owned()),
    };
    let p = CreateEventPayload::from_patch(patch, 9);
    assert_eq!(p.user_id, 9);
    assert_eq!(p.date, "2024-06-02");
    assert_eq!(p.title.as_deref(), Some("t"));
    assert_eq!(p.category.as_deref(), Some("Unknown"));
}

#[test]
fn message_payload_moves_through_unchanged() {
    let input = InputMessagePayload { source: "bot".to_owned(), content: "hello".to_owned() };
    let p = CreateMessagePayload::from_input(input, 3);
    assert_eq!(p.event_id, 3);
    let m = NewMessage::try_from(p).unwrap();
    assert_eq!(m.event_id, 3);
    assert_eq!(m.source, "bot");
    assert_eq!(m.content, "hello");
}

#[test]
fn user_payload_is_hashed_and_dated() {
    let p = CreateUserPayload {
        full_name: "Ada Lovelace".to_owned(),
        birth_date: "1815-12-10".to_owned(),
        email: "a@x.com".to_owned(),
        password: "correct".to_owned(),
        lang: "en".to_owned(),
    };
    let u = NewUser::try_from(p).unwrap();
    assert_eq!(u.full_name, "Ada Lovelace");
    assert_eq!(u.birth_date.year, 1815);
    assert_eq!(u.birth_date.month, 12);
    assert_eq!(u.birth_date.day, 10);
    assert_eq!(u.email, "a@x.com");
    assert_eq!(u.lang, "en");
    assert_eq!(verify_password("correct", &u.hashed_password).unwrap(), true);
    assert_eq!(verify_password("wrong", &u.hashed_password).unwrap(), false);
}

#[test]
fn user_payload_with_bad_date_is_rejected_before_hashing() {
    let p = CreateUserPayload {
        full_name: "Ada".to_owned(),
        birth_date: "1815-13-10".to_owned(),
        email: "a@x.com".to_owned(),
        password: "pw".to_owned(),
        lang: "en".to_owned(),
    };
    assert_eq!(NewUser::try_from(p).unwrap_err(), PwError::ParseError(DateError::Calendar));
}

#[test]
fn sanitized_record_has_no_hash_but_keeps_the_rest() {
    let u = User {
        id: Some(7),
        full_name: "Ada".to_owned(),
        birth_date: authgate::date::Date { year: 1815, month: 12, day: 10 },
        email: "a@x.com".to_owned(),
        hashed_password: "some-phc-string".to_owned(),
        lang: "en".to_owned(),
    };
    let s = u.sanitized();
    assert_eq!(s.hashed_password, "");
    assert_eq!(s.id, Some(7));
    assert_eq!(s.email, "a@x.com");
    assert_eq!(s.full_name, "Ada");
    assert_eq!(s.lang, "en");
}
