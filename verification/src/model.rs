//! The stored records that authentication and the login flow act on.
//!
//! A [`User`] is the credential record owned by the identity store: the core
//! reads it, never mutates it. Dates are held as plain [`Date`] values.

use vstd::prelude::*;

use crate::date::Date;

verus! {

/// A stored credential/profile record.
#[derive(Debug, Clone)]
pub struct User {
    pub id: Option<i32>,
    pub full_name: String,
    pub birth_date: Date,
    pub email: String,
    pub hashed_password: String,
    pub lang: String,
}

impl User {
    /// The same record with the password hash blanked, fit to be shown
    /// outside: a credential record is never exposed with its hash
    /// populated.
    pub fn sanitized(&self) -> (r: User)
        ensures
            r.id == self.id,
            r.full_name == self.full_name,
            r.birth_date == self.birth_date,
            r.email == self.email,
            r.lang == self.lang,
            r.hashed_password@ == Seq::<char>::empty(),
    {
        User {
            id: self.id,
            full_name: self.full_name.clone(),
            birth_date: self.birth_date,
            email: self.email.clone(),
            hashed_password: String::new(),
            lang: self.lang.clone(),
        }
    }
}

/// A credential/profile record about to be inserted.
#[derive(Debug, Clone)]
pub struct NewUser {
    pub full_name: String,
    pub birth_date: Date,
    pub email: String,
    pub hashed_password: String,
    pub lang: String,
}

/// A stored life event.
#[derive(Debug, Clone)]
pub struct Event {
    pub id: Option<i32>,
    pub date: Date,
    pub title: Option<String>,
    pub category: Option<String>,
    pub description: String,
    pub user_id: i32,
}

/// A life event about to be inserted or written over an existing one.
#[derive(Debug, Clone)]
pub struct NewEvent {
    pub date: Date,
    pub description: String,
    pub user_id: i32,
    pub title: Option<String>,
    pub category: Option<String>,
}

/// A stored conversation message attached to an event.
#[derive(Debug, Clone)]
pub struct Message {
    pub id: Option<i32>,
    pub event_id: i32,
    pub source: String,
    pub content: String,
}

/// A conversation message about to be inserted.
#[derive(Debug, Clone)]
pub struct NewMessage {
    pub event_id: i32,
    pub source: String,
    pub content: String,
}

} // verus!
