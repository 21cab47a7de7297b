//! Request payloads and their conversions into storage records.
//!
//! Payloads arrive as plain strings; the conversions parse the date field,
//! hash the password where one is supplied, and move everything else
//! unchanged. Each conversion says exactly on which payloads it succeeds.

use vstd::prelude::*;

use crate::date::{date_format_ok, day_of, month_of, parse_date, valid_ymd, year_of, DateError};
use crate::event::{category_name, EventCategory};
use crate::hasher::{hash_password, password_matches, phc_well_formed, HashingError};
use crate::model::{NewEvent, NewMessage, NewUser};

verus! {

/// Why a payload could not become a record.
#[derive(Debug, Clone, Copy, PartialEq, Eq, Structural)]
pub enum PwError {
    /// Password hashing failed.
    HashError(HashingError),
    /// The date field is not a valid date.
    ParseError(DateError),
}

/// The body of an event update request.
#[derive(Debug, Clone)]
pub struct PatchEventPayload {
    pub date: String,
    pub title: Option<String>,
    pub description: String,
    pub category: Option<String>,
}

/// The body of an event creation request.
#[derive(Debug, Clone)]
pub struct InputEventPayload {
    pub date: String,
    pub title: Option<String>,
    pub description: String,
}

/// A fully assembled event creation request, category and owner included.
#[derive(Debug, Clone)]
pub struct CreateEventPayload {
    pub date: String,
    pub title: Option<String>,
    pub category: Option<String>,
    pub description: String,
    pub user_id: i32,
}

/// The body of a message creation or update request.
#[derive(Debug, Clone)]
pub struct InputMessagePayload {
    pub source: String,
    pub content: String,
}

/// A fully assembled message creation request, event included.
#[derive(Debug, Clone)]
pub struct CreateMessagePayload {
    pub event_id: i32,
    pub source: String,
    pub content: String,
}

/// The body of a user creation request; the password travels in plaintext
/// only here and is hashed before anything is stored.
#[derive(Debug, Clone)]
pub struct CreateUserPayload {
    pub full_name: String,
    pub birth_date: String,
    pub email: String,
    pub password: String,
    pub lang: String,
}

/// Whether a payload's date field parses as a calendar date.
pub open spec fn payload_date_ok(date: Seq<char>) -> bool {
    date_format_ok(date) && valid_ymd(year_of(date), month_of(date), day_of(date))
}

impl CreateEventPayload {
    /// Assemble the full creation payload the way the event-creation route
    /// does: a missing title becomes the empty string, the categorizer's
    /// verdict is attached under its exact name, and the event is bound to
    /// the requesting user.
    pub fn from_input(input: InputEventPayload, category: &EventCategory, user_id: i32) -> (r:
        CreateEventPayload)
        ensures
            r.date == input.date,
            input.title matches Some(t) ==> r.title == Some(t),
            input.title is None ==> (r.title matches Some(t) && t@ == Seq::<char>::empty()),
            r.category matches Some(c) && c@ == category_name(*category),
            r.description == input.description,
            r.user_id == user_id,
    {
        let title = match input.title {
            Some(t) => t,
            None => String::new(),
        };
        CreateEventPayload {
            date: input.date,
            title: Some(title),
            category: Some(category.name().to_owned()),
            description: input.description,
            user_id,
        }
    }

    /// Assemble the full payload for an update request: the patch body's
    /// fields, bound to the requesting user.
    pub fn from_patch(patch: PatchEventPayload, user_id: i32) -> (r: CreateEventPayload)
        ensures
            r.date == patch.date,
            r.title == patch.title,
            r.category == patch.category,
            r.description == patch.description,
            r.user_id == user_id,
    {
        CreateEventPayload {
            date: patch.date,
            title: patch.title,
            category: patch.category,
            description: patch.description,
            user_id,
        }
    }
}

impl CreateMessagePayload {
    /// Bind a message body to the event it was posted under.
    pub fn from_input(input: InputMessagePayload, event_id: i32) -> (r: CreateMessagePayload)
        ensures
            r.event_id == event_id,
            r.source == input.source,
            r.content == input.content,
    {
        CreateMessagePayload { event_id, source: input.source, content: input.content }
    }
}

impl NewEvent {
    /// Build a storage record from a creation payload, parsing its date.
    ///
    /// Succeeds exactly when the date field is a valid `YYYY-MM-DD` date;
    /// every other field is moved unchanged.
    pub fn try_from(p: CreateEventPayload) -> (r: Result<NewEvent, PwError>)
        ensures
            r is Ok <==> payload_date_ok(p.date@),
            r matches Ok(e) ==> {
                &&& e.date.wf()
                &&& e.date.year == year_of(p.date@)
                &&& e.date.month == month_of(p.date@)
                &&& e.date.day == day_of(p.date@)
                &&& e.description == p.description
                &&& e.user_id == p.user_id
                &&& e.title == p.title
                &&& e.category == p.category
            },
            r matches Err(e) ==> e matches PwError::ParseError(_),
    {
        let date = match parse_date(p.date.as_str()) {
            Ok(date) => date,
            Err(e) => return Err(PwError::ParseError(e)),
        };
        Ok(
            NewEvent {
                date,
                description: p.description,
                user_id: p.user_id,
                title: p.title,
                category: p.category,
            },
        )
    }
}

impl NewMessage {
    /// Build a storage record from a message payload; nothing can fail,
    /// every field is moved unchanged.
    pub fn try_from(p: CreateMessagePayload) -> (r: Result<NewMessage, PwError>)
        ensures
            r matches Ok(m) && m.event_id == p.event_id && m.source == p.source && m.content
                == p.content,
    {
        Ok(NewMessage { event_id: p.event_id, source: p.source, content: p.content })
    }
}

impl NewUser {
    /// Build a storage record from a user creation payload: the birth date
    /// is parsed, the password is hashed with a fresh salt, and the other
    /// fields are moved unchanged.
    ///
    /// An invalid date is rejected first; with a valid date, the only
    /// excuse left is a fault of the hashing primitive, and on success the
    /// stored hash verifies against the supplied password.
    pub fn try_from(p: CreateUserPayload) -> (r: Result<NewUser, PwError>)
        ensures
            !payload_date_ok(p.birth_date@) ==> (r matches Err(e) && e matches PwError::ParseError(
                _,
            )),
            payload_date_ok(p.birth_date@) ==> {
                &&& r matches Err(e) ==> e == PwError::HashError(HashingError::CryptoFault)
                &&& r matches Ok(u) ==> {
                    &&& u.full_name == p.full_name
                    &&& u.birth_date.wf()
                    &&& u.birth_date.year == year_of(p.birth_date@)
                    &&& u.birth_date.month == month_of(p.birth_date@)
                    &&& u.birth_date.day == day_of(p.birth_date@)
                    &&& u.email == p.email
                    &&& u.lang == p.lang
                    &&& phc_well_formed(u.hashed_password@)
                    &&& password_matches(p.password@, u.hashed_password@)
                }
            },
    {
        let birth_date = match parse_date(p.birth_date.as_str()) {
            Ok(date) => date,
            Err(e) => return Err(PwError::ParseError(e)),
        };
        let hashed_password = match hash_password(p.password.as_str()) {
            Ok(hash) => hash,
            Err(e) => return Err(PwError::HashError(e)),
        };
        Ok(
            NewUser {
                full_name: p.full_name,
                birth_date,
                email: p.email,
                hashed_password,
                lang: p.lang,
            },
        )
    }
}

} // verus!
