//! The values that cross the service's boundary: what clients send, what a
//! credential carries, and the partial updates of stored records.

use vstd::prelude::*;
use crate::text::{signed_decimal, signed_decimal_digits};

verus! {

/// A registration: the name, the secret and its confirmation.
#[derive(Debug, Clone)]
pub struct NewUserDto {
    pub username: String,
    pub email: Option<String>,
    pub pwd: String,
    pub pwd_confirm: String,
}

/// A new event; `dt` is its time in microseconds since the Unix epoch.
#[derive(Debug, Clone)]
pub struct NewEventDto {
    pub title: String,
    pub descr: String,
    pub dt: i64,
    pub place: Option<String>,
}

/// A login: the name and the secret in plain text.
#[derive(Debug, Clone)]
pub struct LoginUserRequest {
    pub username: String,
    pub pwd: String,
}

/// The answer to a successful authentication.
#[derive(Debug)]
pub struct AuthUserRespone(pub String);

/// What a credential carries: the subject and the time, in microseconds since
/// the Unix epoch, from which the credential is no longer live.
#[derive(Debug)]
pub struct Claims {
    pub user_id: u128,
    pub username: String,
    pub exp: u64,
}

/// The mathematical value of [`Claims`].
pub struct ClaimsView {
    pub user_id: u128,
    pub username: Seq<char>,
    pub exp: u64,
}

impl View for Claims {
    type V = ClaimsView;

    open spec fn view(&self) -> ClaimsView {
        ClaimsView { user_id: self.user_id, username: self.username@, exp: self.exp }
    }
}

impl Claims {
    /// Claims for a subject that stop being live at `exp`.
    pub fn new(user_id: &u128, username: &String, exp: u64) -> (claims: Self)
        ensures
            claims@ == (ClaimsView { user_id: *user_id, username: username@, exp }),
    {
        Self { user_id: *user_id, username: username.clone(), exp }
    }
}

/// One named column with its new value, or nothing where the value is unset.
pub open spec fn column(key: Seq<char>, value: Option<Seq<char>>) -> Seq<(Seq<char>, Seq<char>)> {
    match value {
        Some(v) => seq![(key, v)],
        None => seq![],
    }
}

fn push_column(fields: &mut Vec<(String, String)>, key: &str, value: &Option<String>)
    ensures
        final(fields).deep_view() == old(fields).deep_view() + column(key@, value.deep_view()),
{
    if let Some(v) = value {
        let ghost before = fields.deep_view();
        fields.push((String::from_str(key), v.clone()));
        assert(fields.deep_view() =~= before + seq![(key@, v@)]);
    } else {
        assert(fields.deep_view() =~= fields.deep_view() + Seq::<(Seq<char>, Seq<char>)>::empty());
    }
}

/// A partial update of a user's record: only the fields that are set are
/// written.
#[derive(Debug, Clone)]
pub struct UpdateUserDto {
    pub pwd_hash: Option<String>,
    pub username: Option<String>,
    pub email: Option<String>,
    pub access_token: Option<String>,
    pub refresh_token: Option<String>,
}

/// The mathematical value of [`UpdateUserDto`].
pub struct UpdateUserView {
    pub pwd_hash: Option<Seq<char>>,
    pub username: Option<Seq<char>>,
    pub email: Option<Seq<char>>,
    pub access_token: Option<Seq<char>>,
    pub refresh_token: Option<Seq<char>>,
}

impl View for UpdateUserDto {
    type V = UpdateUserView;

    open spec fn view(&self) -> UpdateUserView {
        UpdateUserView {
            pwd_hash: self.pwd_hash.deep_view(),
            username: self.username.deep_view(),
            email: self.email.deep_view(),
            access_token: self.access_token.deep_view(),
            refresh_token: self.refresh_token.deep_view(),
        }
    }
}

impl UpdateUserView {
    /// The columns to write with their values, in the order of the record.
    pub open spec fn values(self) -> Seq<(Seq<char>, Seq<char>)> {
        column("pwd_hash"@, self.pwd_hash) + column("username"@, self.username) + column(
            "email"@,
            self.email,
        ) + column("access_token"@, self.access_token) + column(
            "refresh_token"@,
            self.refresh_token,
        )
    }

    /// No field is set.
    pub open spec fn is_empty(self) -> bool {
        &&& self.pwd_hash is None
        &&& self.username is None
        &&& self.email is None
        &&& self.access_token is None
        &&& self.refresh_token is None
    }
}

impl UpdateUserDto {
    /// The columns to write with their values, or `None` where no field is
    /// set.
    pub fn get_values(&self) -> (values: Option<Vec<(String, String)>>)
        ensures
            values is None <==> self@.is_empty(),
            values matches Some(fields) ==> fields.deep_view() == self@.values(),
    {
        let mut fields: Vec<(String, String)> = Vec::new();
        assert(fields.deep_view() =~= Seq::<(Seq<char>, Seq<char>)>::empty());
        push_column(&mut fields, "pwd_hash", &self.pwd_hash);
        push_column(&mut fields, "username", &self.username);
        push_column(&mut fields, "email", &self.email);
        push_column(&mut fields, "access_token", &self.access_token);
        push_column(&mut fields, "refresh_token", &self.refresh_token);
        assert(fields.deep_view() =~= self@.values());
        assert(fields.deep_view().len() == fields@.len());
        if fields.is_empty() {
            None
        } else {
            Some(fields)
        }
    }
}

/// A partial update of an event; `dt` is a time in microseconds since the
/// Unix epoch.
#[derive(Debug)]
pub struct UpdateEventDto {
    pub title: Option<String>,
    pub descr: Option<String>,
    pub dt: Option<i64>,
    pub place: Option<String>,
}

/// The mathematical value of [`UpdateEventDto`].
pub struct UpdateEventView {
    pub title: Option<Seq<char>>,
    pub descr: Option<Seq<char>>,
    pub dt: Option<i64>,
    pub place: Option<Seq<char>>,
}

impl View for UpdateEventDto {
    type V = UpdateEventView;

    open spec fn view(&self) -> UpdateEventView {
        UpdateEventView {
            title: self.title.deep_view(),
            descr: self.descr.deep_view(),
            dt: self.dt,
            place: self.place.deep_view(),
        }
    }
}

impl UpdateEventView {
    /// The time as the store takes it: its decimal text.
    pub open spec fn dt_text(self) -> Option<Seq<char>> {
        match self.dt {
            Some(t) => Some(signed_decimal_digits(t as int)),
            None => None,
        }
    }

    /// The columns to write with their values, in the order of the record.
    pub open spec fn values(self) -> Seq<(Seq<char>, Seq<char>)> {
        column("title"@, self.title) + column("descr"@, self.descr) + column(
            "dt"@,
            self.dt_text(),
        ) + column("place"@, self.place)
    }

    /// No field is set.
    pub open spec fn is_empty(self) -> bool {
        &&& self.title is None
        &&& self.descr is None
        &&& self.dt is None
        &&& self.place is None
    }
}

impl UpdateEventDto {
    /// The columns to write with their values, or `None` where no field is
    /// set.
    pub fn get_values(&self) -> (values: Option<Vec<(String, String)>>)
        ensures
            values is None <==> self@.is_empty(),
            values matches Some(fields) ==> fields.deep_view() == self@.values(),
    {
        let mut fields: Vec<(String, String)> = Vec::new();
        assert(fields.deep_view() =~= Seq::<(Seq<char>, Seq<char>)>::empty());
        push_column(&mut fields, "title", &self.title);
        push_column(&mut fields, "descr", &self.descr);
        let dt_text: Option<String> = match self.dt {
            Some(t) => Some(signed_decimal(t)),
            None => None,
        };
        push_column(&mut fields, "dt", &dt_text);
        push_column(&mut fields, "place", &self.place);
        assert(fields.deep_view() =~= self@.values());
        assert(fields.deep_view().len() == fields@.len());
        if fields.is_empty() {
            None
        } else {
            Some(fields)
        }
    }
}

} // verus!
