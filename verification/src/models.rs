//! The records that the store keeps. An identifier is the number of a UUID, a
//! time is in microseconds since the Unix epoch.

use vstd::prelude::*;
use crate::dto::{UpdateUserDto, UpdateUserView};

verus! {

/// A subject's record, with the one current credential of each class.
#[derive(Debug)]
pub struct User {
    pub id: u128,
    pub pwd_hash: String,
    pub username: String,
    pub email: Option<String>,
    pub access_token: Option<String>,
    pub refresh_token: Option<String>,
}

/// The mathematical value of [`User`].
pub struct UserView {
    pub id: u128,
    pub pwd_hash: Seq<char>,
    pub username: Seq<char>,
    pub email: Option<Seq<char>>,
    pub access_token: Option<Seq<char>>,
    pub refresh_token: Option<Seq<char>>,
}

impl View for User {
    type V = UserView;

    open spec fn view(&self) -> UserView {
        UserView {
            id: self.id,
            pwd_hash: self.pwd_hash@,
            username: self.username@,
            email: self.email.deep_view(),
            access_token: self.access_token.deep_view(),
            refresh_token: self.refresh_token.deep_view(),
        }
    }
}

impl DeepView for User {
    type V = UserView;

    open spec fn deep_view(&self) -> UserView {
        self@
    }
}

impl UserView {
    /// The record after a partial update: a field that is set takes the
    /// place of the one before, every other field stays.
    pub open spec fn updated(self, fields: UpdateUserView) -> UserView {
        UserView {
            id: self.id,
            pwd_hash: match fields.pwd_hash {
                Some(v) => v,
                None => self.pwd_hash,
            },
            username: match fields.username {
                Some(v) => v,
                None => self.username,
            },
            email: match fields.email {
                Some(v) => Some(v),
                None => self.email,
            },
            access_token: match fields.access_token {
                Some(v) => Some(v),
                None => self.access_token,
            },
            refresh_token: match fields.refresh_token {
                Some(v) => Some(v),
                None => self.refresh_token,
            },
        }
    }
}

impl User {
    /// Writes a partial update to the record and reports the number of
    /// records written: none where no field is set, and then the record
    /// stays as it is.
    pub fn set_fields(&mut self, fields: &UpdateUserDto) -> (rows: u64)
        ensures
            final(self)@ == old(self)@.updated(fields@),
            rows == if fields@.is_empty() {
                0u64
            } else {
                1u64
            },
            fields@.is_empty() ==> final(self)@ == old(self)@,
    {
        let mut rows: u64 = 0;
        if let Some(v) = &fields.pwd_hash {
            self.pwd_hash = v.clone();
            rows = 1;
        }
        if let Some(v) = &fields.username {
            self.username = v.clone();
            rows = 1;
        }
        if let Some(v) = &fields.email {
            self.email = Some(v.clone());
            rows = 1;
        }
        if let Some(v) = &fields.access_token {
            self.access_token = Some(v.clone());
            rows = 1;
        }
        if let Some(v) = &fields.refresh_token {
            self.refresh_token = Some(v.clone());
            rows = 1;
        }
        rows
    }
}

/// An event and the subject that created it.
#[derive(Debug)]
pub struct Event {
    pub id: u128,
    pub title: String,
    pub descr: String,
    pub dt: i64,
    pub place: Option<String>,
    pub creator: u128,
}

/// A message to a subject.
#[derive(Debug)]
pub struct Notification {
    pub id: u128,
    pub reipient: u128,
    pub content: Option<String>,
    pub stat: u8,
    pub creation_dt: i64,
    pub sending_dt: Option<i64>,
}

/// An invitation of a subject to an event.
#[derive(Debug)]
pub struct Invitation {
    pub id: u128,
    pub event_id: u128,
    pub user_id: u128,
    pub link: Option<String>,
}

} // verus!
