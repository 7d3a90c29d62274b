//! Writes to the records of users.

use vstd::prelude::*;
use crate::db::{to_be_sent, update_of, update_statement, Statement, StatementView};
use crate::dto::{UpdateUserDto, UpdateUserView};
use crate::models::UserView;
use crate::service::auth::jwt::StoreReply;

verus! {

/// What the store is asked to do for a partial update of the user `id`:
/// nothing where no field is set, so that no record changes and none is
/// counted as written, else one statement that writes the fields that are
/// set.
pub open spec fn user_update(id: u128, fields: UpdateUserView) -> Option<StatementView> {
    if fields.is_empty() {
        None
    } else {
        Some(update_of("users"@, id, fields.values()))
    }
}

/// A partial update in which no field is set asks nothing of the store,
/// counts no record as written, and leaves the record as it is, the pair of
/// credentials included.
pub proof fn lemma_empty_update_writes_nothing(user: UserView, fields: UpdateUserView)
    requires
        fields.is_empty(),
    ensures
        user_update(user.id, fields) is None,
        to_be_sent(user_update(user.id, fields)) == Err::<StatementView, StoreReply>(
            StoreReply::Written(0),
        ),
        fields.values().len() == 0,
        user.updated(fields) == user,
{
}

/// Writing the same partial update a second time changes nothing more.
pub proof fn lemma_update_is_idempotent(user: UserView, fields: UpdateUserView)
    ensures
        user.updated(fields).updated(fields) == user.updated(fields),
{
}

/// The statement that writes a partial update to the record of the user
/// `id`, or `None` where no field is set and nothing is to be written.
pub fn set_fields(id: u128, user_fields: &UpdateUserDto) -> (statement: Option<Statement>)
    ensures
        statement.deep_view() == user_update(id, user_fields@),
{
    match user_fields.get_values() {
        Some(fields) => {
            assert(fields.deep_view().len() <= 5);
            assert(fields.deep_view().len() == fields.len());
            Some(update_statement("users", id, &fields))
        },
        None => None,
    }
}

} // verus!
