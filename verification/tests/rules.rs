use auth_gate::dto::{NewEventDto, NewUserDto, UpdateEventDto};
use auth_gate::errors::MyError;
use auth_gate::models::Event;
use auth_gate::service::auth::jwt::{decode_claims, AuthConfig, StoreReply, TokenType};
use auth_gate::service::auth::UserAuthData;
use auth_gate::service::crypto::get_sha3_256_hash;
use auth_gate::service::event::{
    create as create_event, create_invitation, create_invitation_link, create_invitation_with,
    create_with as create_event_with, update,
};
use auth_gate::service::user::{create, create_with, inserted};
use uuid::Uuid;

const NOW: u64 = 1_700_000_000_000_000;

fn config() -> AuthConfig {
    AuthConfig {
        access_secret: Some("access-secret".to_string()),
        refresh_secret: Some("refresh-secret".to_string()),
        access_ttl: 3_600_000_000,
        refresh_ttl: 432_000_000_000,
    }
}

fn registration(pwd: &str, confirm: &str) -> NewUserDto {
    NewUserDto {
        username: "carol".to_string(),
        email: Some("carol@example.org".to_string()),
        pwd: pwd.to_string(),
        pwd_confirm: confirm.to_string(),
    }
}

fn subject(id: u128) -> UserAuthData {
    UserAuthData { user_id: id, username: "carol".to_string() }
}

fn party(creator: u128) -> Event {
    Event {
        id: 5,
        title: "party".to_string(),
        descr: "bring cake".to_string(),
        dt: 1,
        place: None,
        creator,
    }
}

fn is_version_4(id: u128) -> bool {
    (id >> 76) & 0xf == 4 && (id >> 62) & 0x3 == 2
}

#[test]
fn registration_gives_the_record_to_insert() {
    let cfg = config();
    let user = create_with(&cfg, registration("pw", "pw"), false, 11, NOW).unwrap();
    assert_eq!(user.id, 11);
    assert_eq!(user.username, "carol");
    assert_eq!(user.email, Some("carol@example.org".to_string()));
    assert_eq!(user.pwd_hash, get_sha3_256_hash(&"pw".to_string()));
    assert_eq!(user.refresh_token, None);
    let claims = decode_claims(&cfg, &TokenType::Access, user.access_token.unwrap()).unwrap();
    assert_eq!(claims.user_id, 11);
    assert_eq!(claims.username, "carol");
    assert_eq!(claims.exp, NOW + 3_600_000_000);
}

#[test]
fn registration_refuses_a_taken_name_and_a_wrong_confirmation() {
    let cfg = config();
    assert_eq!(
        create_with(&cfg, registration("pw", "pw"), true, 11, NOW).err(),
        Some(MyError::BadClientData)
    );
    assert_eq!(
        create_with(&cfg, registration("pw", "pv"), false, 11, NOW).err(),
        Some(MyError::BadClientData)
    );
    assert_eq!(create(&cfg, registration("pw", "pw"), true).err(), Some(MyError::BadClientData));
}

#[test]
fn registration_without_a_credential_is_an_auth_error() {
    let mut cfg = config();
    cfg.access_secret = None;
    assert_eq!(
        create_with(&cfg, registration("pw", "pw"), false, 11, NOW).err(),
        Some(MyError::AuthError)
    );
    assert_eq!(
        create_with(&cfg, registration("pw", "pv"), false, 11, NOW).err(),
        Some(MyError::AuthError)
    );
    assert_eq!(
        create_with(&cfg, registration("pw", "pw"), true, 11, NOW).err(),
        Some(MyError::BadClientData)
    );
}

#[test]
fn registration_takes_a_fresh_identifier() {
    let cfg = config();
    let first = create(&cfg, registration("pw", "pw"), false).unwrap();
    let second = create(&cfg, registration("pw", "pw"), false).unwrap();
    assert!(is_version_4(first.id));
    assert!(is_version_4(second.id));
    assert_ne!(first.id, second.id);
    assert_eq!(Uuid::from_u128(first.id).get_version_num(), 4);
    let claims = decode_claims(&cfg, &TokenType::Access, first.access_token.unwrap()).unwrap();
    assert_eq!(claims.user_id, first.id);
}

#[test]
fn insert_answer_becomes_rows_or_bad_client_data() {
    assert_eq!(inserted(StoreReply::Written(1)), Ok(1));
    assert_eq!(inserted(StoreReply::Failed), Err(MyError::BadClientData));
}

#[test]
fn event_belongs_to_the_subject_that_creates_it() {
    let dto = NewEventDto {
        title: "party".to_string(),
        descr: "bring cake".to_string(),
        dt: 99,
        place: Some("garden".to_string()),
    };
    let event = create_event_with(&subject(4), dto.clone(), 8);
    assert_eq!(event.id, 8);
    assert_eq!(event.title, "party");
    assert_eq!(event.descr, "bring cake");
    assert_eq!(event.dt, 99);
    assert_eq!(event.place, Some("garden".to_string()));
    assert_eq!(event.creator, 4);
    let fresh = create_event(&subject(4), dto);
    assert!(is_version_4(fresh.id));
    assert_eq!(fresh.creator, 4);
    assert_eq!(fresh.title, "party");
}

#[test]
fn only_the_creator_updates_an_event() {
    let fields = UpdateEventDto { title: Some("new".to_string()), descr: None, dt: None, place: None };
    let event = party(4);
    let statement = update(Some(&event), 5, &fields, &subject(4)).unwrap().unwrap();
    assert_eq!(statement.sql, "UPDATE events SET title = $1 WHERE id = $2");
    assert_eq!(statement.values, vec!["new"]);
    assert_eq!(statement.id, 5);
    assert_eq!(update(Some(&event), 5, &fields, &subject(6)).err(), Some(MyError::Unauthorized));
    assert_eq!(update(None, 5, &fields, &subject(4)).err(), Some(MyError::InternalError));
    let none = UpdateEventDto { title: None, descr: None, dt: None, place: None };
    assert!(update(Some(&event), 5, &none, &subject(4)).unwrap().is_none());
}

#[test]
fn invitation_link_names_the_event() {
    assert_eq!(
        create_invitation_link(&0x0123_4567_89ab_cdef_0123_4567_89ab_cdef),
        "http://127.0.0.1:8080/accept-invitaion/01234567-89ab-cdef-0123-456789abcdef"
    );
}

#[test]
fn invitation_needs_a_participant_and_both_records() {
    let invitation = create_invitation_with(true, true, true, 5, 6, 7).unwrap();
    assert_eq!(invitation.id, 7);
    assert_eq!(invitation.event_id, 5);
    assert_eq!(invitation.user_id, 6);
    assert_eq!(invitation.link, Some(create_invitation_link(&5)));
    for (user, event) in [(false, false), (false, true), (true, false)] {
        assert_eq!(
            create_invitation_with(true, user, event, 5, 6, 7).err(),
            Some(MyError::BadClientData)
        );
    }
    for (user, event) in [(false, false), (false, true), (true, false), (true, true)] {
        assert_eq!(
            create_invitation_with(false, user, event, 5, 6, 7).err(),
            Some(MyError::AuthError)
        );
    }
    let fresh = create_invitation(true, true, true, 5, 6).unwrap();
    assert!(is_version_4(fresh.id));
    assert_eq!(fresh.event_id, 5);
    assert_eq!(create_invitation(false, true, true, 5, 6).err(), Some(MyError::AuthError));
}
