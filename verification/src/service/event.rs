//! The rules on events and on invitations to them.

use vstd::prelude::*;
use crate::db::event::{event_update, set_fields};
use crate::db::{Statement, StatementView};
use crate::dto::{NewEventDto, UpdateEventDto, UpdateEventView};
use crate::errors::MyError;
use crate::ids::{is_random_uuid, random_id};
use crate::models::{Event, Invitation};
use crate::service::auth::{UserAuthData, UserAuthView};
use crate::text::{hyphenated, hyphenated_digits};

verus! {

/// The mathematical value of [`NewEventDto`].
pub struct NewEventView {
    pub title: Seq<char>,
    pub descr: Seq<char>,
    pub dt: i64,
    pub place: Option<Seq<char>>,
}

impl View for NewEventDto {
    type V = NewEventView;

    open spec fn view(&self) -> NewEventView {
        NewEventView {
            title: self.title@,
            descr: self.descr@,
            dt: self.dt,
            place: self.place.deep_view(),
        }
    }
}

/// The mathematical value of [`Event`].
pub struct EventView {
    pub id: u128,
    pub title: Seq<char>,
    pub descr: Seq<char>,
    pub dt: i64,
    pub place: Option<Seq<char>>,
    pub creator: u128,
}

impl View for Event {
    type V = EventView;

    open spec fn view(&self) -> EventView {
        EventView {
            id: self.id,
            title: self.title@,
            descr: self.descr@,
            dt: self.dt,
            place: self.place.deep_view(),
            creator: self.creator,
        }
    }
}

impl DeepView for Event {
    type V = EventView;

    open spec fn deep_view(&self) -> EventView {
        self@
    }
}

/// The mathematical value of [`Invitation`].
pub struct InvitationView {
    pub id: u128,
    pub event_id: u128,
    pub user_id: u128,
    pub link: Option<Seq<char>>,
}

impl View for Invitation {
    type V = InvitationView;

    open spec fn view(&self) -> InvitationView {
        InvitationView {
            id: self.id,
            event_id: self.event_id,
            user_id: self.user_id,
            link: self.link.deep_view(),
        }
    }
}

/// The event that `creator` makes of `dto` under the identifier `id`.
pub open spec fn created(creator: UserAuthView, dto: NewEventView, id: u128) -> EventView {
    EventView {
        id,
        title: dto.title,
        descr: dto.descr,
        dt: dto.dt,
        place: dto.place,
        creator: creator.user_id,
    }
}

/// The record of a new event under the identifier `id`, created by the
/// subject of the request.
pub fn create_with(user_auth_data: &UserAuthData, dto: NewEventDto, id: u128) -> (event: Event)
    ensures
        event@ == created(user_auth_data@, dto@, id),
{
    Event {
        id,
        title: dto.title,
        descr: dto.descr,
        dt: dto.dt,
        place: dto.place,
        creator: user_auth_data.user_id,
    }
}

/// The record of a new event under a fresh random identifier.
pub fn create(user_auth_data: &UserAuthData, dto: NewEventDto) -> (event: Event)
    ensures
        event@ == created(user_auth_data@, dto@, event.id),
        is_random_uuid(event.id),
{
    create_with(user_auth_data, dto, random_id())
}

/// The view of an outcome that holds a statement, if one is to be sent.
pub open spec fn statement_outcome(r: Result<Option<Statement>, MyError>) -> Result<
    Option<StatementView>,
    MyError,
> {
    match r {
        Ok(statement) => Ok(statement.deep_view()),
        Err(e) => Err(e),
    }
}

/// What an update of the event `id` comes to, where `event` is the record
/// that the store holds, if it could be read: `InternalError` where it could
/// not, `Unauthorized` where the subject of the request did not create the
/// event, else what is to be written.
pub open spec fn update_allowed(
    event: Option<EventView>,
    id: u128,
    fields: UpdateEventView,
    subject: UserAuthView,
) -> Result<Option<StatementView>, MyError> {
    match event {
        Some(e) => if e.creator == subject.user_id {
            Ok(event_update(id, fields))
        } else {
            Err(MyError::Unauthorized)
        },
        None => Err(MyError::InternalError),
    }
}

/// Decides on the update of an event: only the subject that created it may
/// change it.
pub fn update(
    event: Option<&Event>,
    id: u128,
    event_fields: &UpdateEventDto,
    user_auth_data: &UserAuthData,
) -> (r: Result<Option<Statement>, MyError>)
    ensures
        statement_outcome(r) == update_allowed(
            event.deep_view(),
            id,
            event_fields@,
            user_auth_data@,
        ),
{
    match event {
        Some(e) => if user_auth_data.user_id == e.creator {
            Ok(set_fields(id, event_fields))
        } else {
            Err(MyError::Unauthorized)
        },
        None => Err(MyError::InternalError),
    }
}

/// The address under which an invitation to an event is accepted.
pub open spec fn invitation_link(event_id: u128) -> Seq<char> {
    "http://127.0.0.1:8080/accept-invitaion/"@ + hyphenated_digits(event_id)
}

/// The address under which an invitation to an event is accepted.
pub fn create_invitation_link(event_id: &u128) -> (link: String)
    ensures
        link@ == invitation_link(*event_id),
{
    String::from_str("http://127.0.0.1:8080/accept-invitaion/").concat(hyphenated(*event_id).as_str())
}

/// The view of an outcome that holds an invitation.
pub open spec fn invitation_outcome(r: Result<Invitation, MyError>) -> Result<InvitationView, MyError> {
    match r {
        Ok(invitation) => Ok(invitation@),
        Err(e) => Err(e),
    }
}

/// What inviting `recipient` to an event comes to: `AuthError` where the
/// recipient takes no part in the event, `BadClientData` where the store
/// does not hold both the recipient and the event, else the invitation under
/// the identifier `id`, with the address under which it is accepted.
pub open spec fn invited(
    participant: bool,
    user_exists: bool,
    event_exists: bool,
    event_id: u128,
    recipient: u128,
    id: u128,
) -> Result<InvitationView, MyError> {
    if !participant {
        Err(MyError::AuthError)
    } else if user_exists && event_exists {
        Ok(
            InvitationView {
                id,
                event_id,
                user_id: recipient,
                link: Some(invitation_link(event_id)),
            },
        )
    } else {
        Err(MyError::BadClientData)
    }
}

/// The invitation of `recipient` to an event, under the identifier `id`.
pub fn create_invitation_with(
    participant: bool,
    user_exists: bool,
    event_exists: bool,
    event_id: u128,
    recipient: u128,
    id: u128,
) -> (r: Result<Invitation, MyError>)
    ensures
        invitation_outcome(r) == invited(participant, user_exists, event_exists, event_id, recipient, id),
{
    if !participant {
        Err(MyError::AuthError)
    } else if user_exists && event_exists {
        Ok(
            Invitation {
                id,
                event_id,
                user_id: recipient,
                link: Some(create_invitation_link(&event_id)),
            },
        )
    } else {
        Err(MyError::BadClientData)
    }
}

/// The invitation of `recipient` to an event, under a fresh random
/// identifier.
pub fn create_invitation(
    participant: bool,
    user_exists: bool,
    event_exists: bool,
    event_id: u128,
    recipient: u128,
) -> (r: Result<Invitation, MyError>)
    ensures
        exists|id: u128|
            invitation_outcome(r) == #[trigger] invited(
                participant,
                user_exists,
                event_exists,
                event_id,
                recipient,
                id,
            ) && is_random_uuid(id),
{
    let id = random_id();
    let r = create_invitation_with(participant, user_exists, event_exists, event_id, recipient, id);
    assert(invitation_outcome(r) == invited(
        participant,
        user_exists,
        event_exists,
        event_id,
        recipient,
        id,
    ));
    r
}

} // verus!
