//! Writes to the records of events.

use vstd::prelude::*;
use crate::db::{update_of, update_statement, Statement, StatementView};
use crate::dto::{UpdateEventDto, UpdateEventView};

verus! {

/// What the store is asked to do for a partial update of the event `id`:
/// nothing where no field is set, else one statement that writes the fields
/// that are set.
pub open spec fn event_update(id: u128, fields: UpdateEventView) -> Option<StatementView> {
    if fields.is_empty() {
        None
    } else {
        Some(update_of("events"@, id, fields.values()))
    }
}

/// The statement that writes a partial update to the record of the event
/// `id`, or `None` where no field is set and nothing is to be written.
pub fn set_fields(id: u128, event_fields: &UpdateEventDto) -> (statement: Option<Statement>)
    ensures
        statement.deep_view() == event_update(id, event_fields@),
{
    match event_fields.get_values() {
        Some(fields) => {
            assert(fields.deep_view().len() <= 4);
            assert(fields.deep_view().len() == fields.len());
            Some(update_statement("events", id, &fields))
        },
        None => None,
    }
}

} // verus!
