//! The query surface: which reading a route names, and what a request for
//! it is answered with.

use vstd::prelude::*;
use vstd::string::*;
use crate::error::EaseeError;
use crate::fetch::{copy_states, outcome_view, ChargerState, ChargerStateView};
use crate::text::same_text;

verus! {

/// The age in milliseconds up to which the query surface answers from the
/// cache, unless it is configured otherwise: one minute.
pub const DEFAULT_TTL: u64 = 60_000;

/// Status 200.
pub const OK: u16 = 200;

/// Status 400.
pub const BAD_REQUEST: u16 = 400;

/// One of the three readings of a charger.
#[derive(Debug, Clone, Copy, PartialEq, Eq, Structural)]
pub enum Field {
    Power,
    Session,
    Energy,
}

/// The field that a route parameter names, if it names one.
pub open spec fn named_field(param: Seq<char>) -> Option<Field> {
    if param == "power"@ {
        Some(Field::Power)
    } else if param == "session"@ {
        Some(Field::Session)
    } else if param == "energy"@ {
        Some(Field::Energy)
    } else {
        None
    }
}

impl Field {
    /// The name of the field in routes.
    pub open spec fn name(self) -> Seq<char> {
        match self {
            Field::Power => "power"@,
            Field::Session => "session"@,
            Field::Energy => "energy"@,
        }
    }

    /// The name of the field in routes.
    pub fn to_string(&self) -> (text: String)
        ensures
            text@ == self.name(),
    {
        match self {
            Field::Power => "power".to_owned(),
            Field::Session => "session".to_owned(),
            Field::Energy => "energy".to_owned(),
        }
    }

    /// Reads a field from a route parameter: `power`, `session` or
    /// `energy`. Anything else is no field.
    pub fn from_param(param: &str) -> (field: Result<Field, &'static str>)
        ensures
            match named_field(param@) {
                Some(named) => field == Ok::<Field, &'static str>(named),
                None => field is Err && field.unwrap_err()@ == "Invalid field"@,
            },
    {
        if same_text(param, "power") {
            Ok(Field::Power)
        } else if same_text(param, "session") {
            Ok(Field::Session)
        } else if same_text(param, "energy") {
            Ok(Field::Energy)
        } else {
            Err("Invalid field")
        }
    }

    /// The reading of `state` that the field stands for.
    pub open spec fn spec_reading(self, state: ChargerStateView) -> u64 {
        match self {
            Field::Power => state.power,
            Field::Session => state.session,
            Field::Energy => state.energy_per_hour,
        }
    }

    /// The reading of `state` that the field stands for.
    pub fn reading(self, state: &ChargerState) -> (bits: u64)
        ensures
            bits == self.spec_reading(state@),
    {
        match self {
            Field::Power => state.power,
            Field::Session => state.session,
            Field::Energy => state.energy_per_hour,
        }
    }
}

/// A field is read back from the name it is written as, and from no other
/// field's name.
pub proof fn lemma_field_names_round_trip(field: Field)
    ensures
        named_field(field.name()) == Some(field),
{
    reveal_strlit("power");
    reveal_strlit("session");
    reveal_strlit("energy");
    assert("power"@.len() == 5 && "session"@.len() == 7 && "energy"@.len() == 6);
}

/// Where the alias `/carChargerUsage` leads: to the power.
pub fn car_charger_usage() -> (target: &'static str)
    ensures
        target@ == "/power"@,
{
    "/power"
}

/// Where the alias `/easeeLadeMengde` leads: to the session energy.
pub fn easee_lade_mengde() -> (target: &'static str)
    ensures
        target@ == "/session"@,
{
    "/session"
}

/// Where the alias `/easeeEnergyPerHour` leads: to the energy per hour.
pub fn easee_energy_per_hour() -> (target: &'static str)
    ensures
        target@ == "/energy"@,
{
    "/energy"
}

/// Where the route of a field without an index leads: to the field's
/// reading of the first charger.
pub fn field(of: Field) -> (target: String)
    ensures
        target@ == "/"@ + of.name() + "/0"@,
{
    let mut target = "/".to_owned();
    let name = of.to_string();
    target.append(name.as_str());
    target.append("/0");
    target
}

/// The answer to a request for all states: the status and the states.
#[derive(Debug)]
pub struct Listing {
    pub status: u16,
    pub chargers: Vec<ChargerState>,
}

/// The answer to a request for all states, given what the cache or the
/// fetch came to: the states under status 200, or no states under the
/// status of the error.
pub fn index(outcome: &Result<Vec<ChargerState>, EaseeError>) -> (listing: Listing)
    ensures
        match outcome_view(*outcome) {
            Ok(states) => listing.status == OK && listing.chargers.deep_view() == states,
            Err(error) => listing.status == error.status()
                && listing.chargers.deep_view() == Seq::<ChargerStateView>::empty(),
        },
{
    match outcome {
        Ok(chargers) => Listing { status: OK, chargers: copy_states(chargers) },
        Err(error) => {
            let chargers: Vec<ChargerState> = Vec::new();
            assert(chargers.deep_view() =~= Seq::empty());
            Listing { status: error.status(), chargers }
        },
    }
}

/// What the answer to a request for one reading carries.
#[derive(Debug)]
pub enum Answer {
    /// A reading, as the bits of its double.
    Reading(u64),
    /// A message.
    Message(String),
}

/// An [`Answer`] with its message as a sequence of characters.
pub enum AnswerView {
    Reading(u64),
    Message(Seq<char>),
}

impl View for Answer {
    type V = AnswerView;

    open spec fn view(&self) -> AnswerView {
        match self {
            Answer::Reading(bits) => AnswerView::Reading(*bits),
            Answer::Message(text) => AnswerView::Message(text@),
        }
    }
}

/// The answer to a request for one reading of one charger.
#[derive(Debug)]
pub struct FieldAnswer {
    pub status: u16,
    pub body: Answer,
}

/// The answer to a request for the reading `field` of the charger at
/// `index`, given what the cache or the fetch came to: the reading under
/// status 200; for an index past the last charger, a message under status
/// 400; for an error, the status of the error and an empty message.
pub open spec fn field_answer(
    outcome: Result<Seq<ChargerStateView>, EaseeError>,
    field: Field,
    index: int,
) -> (u16, AnswerView) {
    match outcome {
        Ok(states) => if 0 <= index < states.len() {
            (OK, AnswerView::Reading(field.spec_reading(states[index])))
        } else {
            (BAD_REQUEST, AnswerView::Message("Index out of range"@))
        },
        Err(error) => (error.status(), AnswerView::Message(""@)),
    }
}

/// Answers a request for the reading `field` of the charger at `index`,
/// given what the cache or the fetch came to.
///
/// An index that is not below the number of states fetched is answered
/// with status 400. The states are only read: what the cache holds is not
/// touched.
pub fn field_index(outcome: &Result<Vec<ChargerState>, EaseeError>, field: Field, index: usize)
    -> (answer: FieldAnswer)
    ensures
        (answer.status, answer.body@) == field_answer(outcome_view(*outcome), field, index as int),
        outcome matches Ok(states) && index >= states.len() ==> answer.status == BAD_REQUEST,
{
    match outcome {
        Ok(chargers) => {
            if index < chargers.len() {
                FieldAnswer { status: OK, body: Answer::Reading(field.reading(&chargers[index])) }
            } else {
                FieldAnswer {
                    status: BAD_REQUEST,
                    body: Answer::Message("Index out of range".to_owned()),
                }
            }
        },
        Err(error) => FieldAnswer { status: error.status(), body: Answer::Message("".to_owned()) },
    }
}

} // verus!
