//! Registration of a new user.

use vstd::prelude::*;
use crate::dto::{ClaimsView, NewUserDto};
use crate::errors::MyError;
use crate::ids::{is_random_uuid, random_id};
use crate::models::{User, UserView};
use crate::service::auth::jwt::{
    create_at, decoded, issued, latest_reading, timestamp, AuthConfig, AuthConfigView, StoreReply,
    TokenType,
};
use crate::service::crypto::{get_sha3_256_hash, sha3_256_hex};

verus! {

/// The mathematical value of [`NewUserDto`].
pub struct NewUserView {
    pub username: Seq<char>,
    pub email: Option<Seq<char>>,
    pub pwd: Seq<char>,
    pub pwd_confirm: Seq<char>,
}

impl View for NewUserDto {
    type V = NewUserView;

    open spec fn view(&self) -> NewUserView {
        NewUserView {
            username: self.username@,
            email: self.email.deep_view(),
            pwd: self.pwd@,
            pwd_confirm: self.pwd_confirm@,
        }
    }
}

/// The view of an outcome that holds a user's record.
pub open spec fn user_outcome(r: Result<User, MyError>) -> Result<UserView, MyError> {
    match r {
        Ok(user) => Ok(user@),
        Err(e) => Err(e),
    }
}

/// What a registration at time `now` gives, where `taken` says whether the
/// store holds the name already and `id` is the identifier for the new
/// record: `BadClientData` where the name is taken, `AuthError` where no
/// access credential can be issued, `BadClientData` where the hashes of the
/// secret and of its confirmation differ; else the record to insert, with the
/// hash of the secret, a first access credential and no refresh credential.
pub open spec fn registered(
    config: AuthConfigView,
    dto: NewUserView,
    taken: bool,
    id: u128,
    now: u64,
) -> Result<UserView, MyError> {
    if taken {
        Err(MyError::BadClientData)
    } else {
        match issued(config, TokenType::Access, id, dto.username, now, config.access_ttl) {
            Ok(token) => if sha3_256_hex(dto.pwd) == sha3_256_hex(dto.pwd_confirm) {
                Ok(
                    UserView {
                        id,
                        pwd_hash: sha3_256_hex(dto.pwd),
                        username: dto.username,
                        email: dto.email,
                        access_token: Some(token),
                        refresh_token: None,
                    },
                )
            } else {
                Err(MyError::BadClientData)
            },
            Err(_) => Err(MyError::AuthError),
        }
    }
}

/// The access credential of a new record decodes to the record's subject.
pub open spec fn first_credential_decodes(config: AuthConfigView, now: u64, r: Result<UserView, MyError>) -> bool {
    r matches Ok(user) ==> user.access_token matches Some(token) && decoded(
        config,
        TokenType::Access,
        token,
    ) == Ok::<ClaimsView, MyError>(
        ClaimsView { user_id: user.id, username: user.username, exp: (now + config.access_ttl) as u64 },
    )
}

/// Registers a user at time `now` under the identifier `id`: gives the
/// record that the caller inserts into the store.
pub fn create_with(config: &AuthConfig, dto: NewUserDto, taken: bool, id: u128, now: u64) -> (r: Result<
    User,
    MyError,
>)
    ensures
        user_outcome(r) == registered(config@, dto@, taken, id, now),
        first_credential_decodes(config@, now, user_outcome(r)),
{
    if taken {
        return Err(MyError::BadClientData);
    }
    let pwd_hash = get_sha3_256_hash(&dto.pwd);
    let pwd_confirm_hash = get_sha3_256_hash(&dto.pwd_confirm);
    let access_token = match create_at(
        config,
        &TokenType::Access,
        &id,
        &dto.username,
        now,
        config.access_ttl,
    ) {
        Ok(token) => token,
        Err(_) => {
            return Err(MyError::AuthError);
        },
    };
    if pwd_hash == pwd_confirm_hash {
        Ok(
            User {
                id,
                pwd_hash,
                username: dto.username,
                email: dto.email,
                access_token: Some(access_token),
                refresh_token: None,
            },
        )
    } else {
        Err(MyError::BadClientData)
    }
}

/// Registers a user at the time of the call, under a fresh random
/// identifier. `BadClientData` where the name is taken; else `AuthError`
/// where no access credential can be issued, which it can whenever the class
/// has a secret and its expiry leaves room for the latest time that the clock
/// can show; else `BadClientData` where the hashes of the secret and of its
/// confirmation differ.
pub fn create(config: &AuthConfig, dto: NewUserDto, taken: bool) -> (r: Result<User, MyError>)
    ensures
        exists|id: u128, now: u64|
            now <= latest_reading() && user_outcome(r) == #[trigger] registered(
                config@,
                dto@,
                taken,
                id,
                now,
            ) && is_random_uuid(id) && first_credential_decodes(config@, now, user_outcome(r)),
        taken ==> r matches Err(MyError::BadClientData),
        !taken && config@.access_secret is None ==> r matches Err(MyError::AuthError),
        !taken && config@.access_secret is Some && config@.access_ttl <= u64::MAX - latest_reading()
            ==> (r is Ok <==> sha3_256_hex(dto@.pwd) == sha3_256_hex(dto@.pwd_confirm)),
{
    let id = random_id();
    let now = timestamp();
    let ghost view = dto@;
    let r = create_with(config, dto, taken, id, now);
    assert(user_outcome(r) == registered(config@, view, taken, id, now));
    r
}

/// What a registration comes to once the store has answered the insert: the
/// number of records written, or `BadClientData` where the store refused.
pub fn inserted(reply: StoreReply) -> (r: Result<u64, MyError>)
    ensures
        r == match reply {
            StoreReply::Written(rows) => Ok::<u64, MyError>(rows),
            StoreReply::Failed => Err(MyError::BadClientData),
        },
{
    match reply {
        StoreReply::Written(rows) => Ok(rows),
        StoreReply::Failed => Err(MyError::BadClientData),
    }
}

} // verus!
