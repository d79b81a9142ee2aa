//! The fetch pipeline: make the session valid, list the chargers, read the
//! state of each in listing order. The first failure ends the run.

use vstd::prelude::*;
use crate::error::EaseeError;
use crate::json::{items_text_member, json_items_text, json_number, number_member};
use crate::session::{
    auth_move, ensure_valid, expires_as_granted, AuthStage, AuthStep, AuthStepView, SessionState,
    SessionView,
};
use crate::upstream::{
    is_success, spec_is_success, Event, Request, RequestView, TOO_MANY_REQUESTS,
};

verus! {

/// The state of one charger as the upstream API last reported it.
///
/// The three readings are doubles. They are held as their IEEE 754 bits,
/// which is what `f64::to_bits` gives and `f64::from_bits` takes back.
#[derive(Debug)]
pub struct ChargerState {
    /// The charger's id.
    pub id: String,
    /// The power drawn in total.
    pub power: u64,
    /// The energy of the charging session.
    pub session: u64,
    /// The energy per hour.
    pub energy_per_hour: u64,
}

/// A [`ChargerState`] with its id as a sequence of characters.
pub struct ChargerStateView {
    pub id: Seq<char>,
    pub power: u64,
    pub session: u64,
    pub energy_per_hour: u64,
}

impl View for ChargerState {
    type V = ChargerStateView;

    open spec fn view(&self) -> ChargerStateView {
        ChargerStateView {
            id: self.id@,
            power: self.power,
            session: self.session,
            energy_per_hour: self.energy_per_hour,
        }
    }
}

impl DeepView for ChargerState {
    type V = ChargerStateView;

    open spec fn deep_view(&self) -> ChargerStateView {
        self@
    }
}

impl Clone for ChargerState {
    fn clone(&self) -> (copy: Self)
        ensures
            copy == *self,
    {
        ChargerState {
            id: self.id.clone(),
            power: self.power,
            session: self.session,
            energy_per_hour: self.energy_per_hour,
        }
    }
}

impl ChargerState {
    /// Puts a state together from what was read of it, if all of it was read.
    pub fn from_readings(
        id: String,
        power: Option<u64>,
        session: Option<u64>,
        energy_per_hour: Option<u64>,
    ) -> (state: Option<ChargerState>)
        ensures
            state.deep_view() == assembled(id@, power, session, energy_per_hour),
    {
        match (power, session, energy_per_hour) {
            (Some(power), Some(session), Some(energy_per_hour)) => Some(
                ChargerState { id, power, session, energy_per_hour },
            ),
            _ => None,
        }
    }
}

/// The state of the charger `id` with the given readings; `None` where a
/// reading is missing.
pub open spec fn assembled(
    id: Seq<char>,
    power: Option<u64>,
    session: Option<u64>,
    energy_per_hour: Option<u64>,
) -> Option<ChargerStateView> {
    match (power, session, energy_per_hour) {
        (Some(power), Some(session), Some(energy_per_hour)) => Some(
            ChargerStateView { id, power, session, energy_per_hour },
        ),
        _ => None,
    }
}

/// A copy of a list of states.
pub fn copy_states(states: &Vec<ChargerState>) -> (copy: Vec<ChargerState>)
    ensures
        copy.deep_view() == states.deep_view(),
{
    let copy = states.clone();
    assert(copy.deep_view() =~= states.deep_view());
    copy
}

/// What a fetch came to, with its states as a sequence of views.
pub open spec fn outcome_view(outcome: Result<Vec<ChargerState>, EaseeError>) -> Result<
    Seq<ChargerStateView>,
    EaseeError,
> {
    match outcome {
        Ok(states) => Ok(states.deep_view()),
        Err(error) => Err(error),
    }
}

/// What the reply to an authenticated request carries: its body, or the
/// reason why there is none. A request that did not get through is an
/// `HttpFailed`; status 429 is a `RateLimit`; any other status than success
/// is an `Unathorized`; a body that could not be read is an `HttpFailed`.
pub open spec fn fetched_body(event: Event) -> Result<Seq<char>, EaseeError> {
    match event {
        Event::Response { status, body } => if spec_is_success(status) {
            match body {
                Some(body) => Ok(body@),
                None => Err(EaseeError::HttpFailed),
            }
        } else if status == TOO_MANY_REQUESTS {
            Err(EaseeError::RateLimit)
        } else {
            Err(EaseeError::Unathorized)
        },
        _ => Err(EaseeError::HttpFailed),
    }
}

/// Reads the reply to an authenticated request down to its body.
pub fn body_of(event: &Event) -> (body: Result<&String, EaseeError>)
    ensures
        match fetched_body(*event) {
            Ok(text) => body is Ok && body.unwrap()@ == text,
            Err(error) => body == Err::<&String, EaseeError>(error),
        },
{
    match event {
        Event::Response { status, body } => {
            if is_success(*status) {
                match body {
                    Some(body) => Ok(body),
                    None => Err(EaseeError::HttpFailed),
                }
            } else if *status == TOO_MANY_REQUESTS {
                Err(EaseeError::RateLimit)
            } else {
                Err(EaseeError::Unathorized)
            }
        },
        _ => Err(EaseeError::HttpFailed),
    }
}

/// The ids out of what was found in the elements of a list: all of them in
/// order, or `None` where an element had none.
pub open spec fn all_present(items: Seq<Option<Seq<char>>>) -> Option<Seq<Seq<char>>> {
    if forall|i: int| 0 <= i < items.len() ==> (#[trigger] items[i]) is Some {
        Some(Seq::new(items.len(), |i: int| items[i].unwrap()))
    } else {
        None
    }
}

/// Hands out the ids that were found in the elements of a list, if every
/// element had one.
pub fn collect_ids(items: Vec<Option<String>>) -> (ids: Option<Vec<String>>)
    ensures
        ids.deep_view() == all_present(items.deep_view()),
{
    let mut ids: Vec<String> = Vec::new();
    let mut rest = items;
    let mut at: usize = 0;
    while at < rest.len()
        invariant
            at <= rest.len(),
            rest.len() == items.len(),
            ids.len() == at,
            forall|i: int| at <= i < rest.len() ==> #[trigger] rest[i] == items[i],
            forall|i: int| 0 <= i < at ==> (#[trigger] items.deep_view()[i]) == Some(ids[i]@),
        decreases rest.len() - at,
    {
        let mut item: Option<String> = None;
        core::mem::swap(&mut item, &mut rest[at]);
        match item {
            Some(id) => ids.push(id),
            None => {
                assert(items.deep_view()[at as int] is None);
                return None;
            },
        }
        at += 1;
    }
    assert(ids.deep_view() =~= Seq::new(
        items.deep_view().len(),
        |i: int| items.deep_view()[i].unwrap(),
    ));
    Some(ids)
}

/// The charger ids that the reply to a list request carries: the `id` of
/// each element of the array in the body, in order. A body that is no array,
/// or an element without a string `id`, is an `InvalidResponse`.
pub open spec fn charger_list(event: Event) -> Result<Seq<Seq<char>>, EaseeError> {
    match fetched_body(event) {
        Ok(body) => match json_items_text(body, "id"@) {
            Some(items) => match all_present(items) {
                Some(ids) => Ok(ids),
                None => Err(EaseeError::InvalidResponse),
            },
            None => Err(EaseeError::InvalidResponse),
        },
        Err(error) => Err(error),
    }
}

/// Reads the charger ids out of the reply to a list request.
pub fn get_charger_list(event: &Event) -> (ids: Result<Vec<String>, EaseeError>)
    ensures
        match charger_list(*event) {
            Ok(listed) => ids is Ok && ids.unwrap().deep_view() == listed,
            Err(error) => ids == Err::<Vec<String>, EaseeError>(error),
        },
{
    let body = match body_of(event) {
        Ok(body) => body,
        Err(error) => return Err(error),
    };
    let items = match items_text_member(body.as_str(), "id") {
        Some(items) => items,
        None => return Err(EaseeError::InvalidResponse),
    };
    match collect_ids(items) {
        Some(ids) => Ok(ids),
        None => Err(EaseeError::InvalidResponse),
    }
}

/// The state that the reply to a state request carries for the charger
/// `id`: the `totalPower`, `sessionEnergy` and `energyPerHour` of the body.
/// A body in which one of them is missing or no number is an
/// `InvalidResponse`.
pub open spec fn charger_state(id: Seq<char>, event: Event) -> Result<
    ChargerStateView,
    EaseeError,
> {
    match fetched_body(event) {
        Ok(body) => match assembled(
            id,
            json_number(body, "totalPower"@),
            json_number(body, "sessionEnergy"@),
            json_number(body, "energyPerHour"@),
        ) {
            Some(state) => Ok(state),
            None => Err(EaseeError::InvalidResponse),
        },
        Err(error) => Err(error),
    }
}

/// Reads the state of the charger `charger_id` out of the reply to a state
/// request.
pub fn external_request_charger_state(charger_id: &str, event: &Event) -> (state: Result<
    ChargerState,
    EaseeError,
>)
    ensures
        match charger_state(charger_id@, *event) {
            Ok(read) => state is Ok && state.unwrap()@ == read,
            Err(error) => state == Err::<ChargerState, EaseeError>(error),
        },
{
    let body = match body_of(event) {
        Ok(body) => body,
        Err(error) => return Err(error),
    };
    let power = number_member(body.as_str(), "totalPower");
    let session = number_member(body.as_str(), "sessionEnergy");
    let energy_per_hour = number_member(body.as_str(), "energyPerHour");
    match ChargerState::from_readings(charger_id.to_owned(), power, session, energy_per_hour) {
        Some(state) => Ok(state),
        None => Err(EaseeError::InvalidResponse),
    }
}

/// Which reply a run of [`get_charger_state`] is waiting for.
#[derive(Debug, Clone, Copy, PartialEq, Eq, Structural)]
pub enum FetchStage {
    /// The session is being made valid; with `AuthStage::Idle`, nothing is
    /// under way at all.
    Session(AuthStage),
    /// The list of chargers was asked for.
    List,
    /// The state of the next charger was asked for.
    States,
}

/// A run of the fetch pipeline between two of its steps.
#[derive(Debug)]
pub struct FetchRun {
    stage: FetchStage,
    token: String,
    ids: Vec<String>,
    states: Vec<ChargerState>,
}

/// What a [`FetchRun`] holds: the stage, the access token the run works
/// with, the ids that were listed, and the states read so far, which are
/// those of the first of the ids.
pub struct FetchRunView {
    pub stage: FetchStage,
    pub token: Seq<char>,
    pub ids: Seq<Seq<char>>,
    pub states: Seq<ChargerStateView>,
}

impl FetchRunView {
    /// The run in which nothing is under way.
    pub open spec fn idle() -> FetchRunView {
        FetchRunView::making_valid(AuthStage::Idle)
    }

    /// The run that is making the session valid and has got to `stage`.
    pub open spec fn making_valid(stage: AuthStage) -> FetchRunView {
        FetchRunView {
            stage: FetchStage::Session(stage),
            token: Seq::empty(),
            ids: Seq::empty(),
            states: Seq::empty(),
        }
    }

    /// Whether the run is in the middle of a login or refresh.
    pub open spec fn renewing(self) -> bool {
        self.stage matches FetchStage::Session(stage) && stage != AuthStage::Idle
    }

    /// While states are being read, at least one is still missing.
    pub open spec fn well_formed(self) -> bool {
        self.stage == FetchStage::States ==> self.states.len() < self.ids.len()
    }
}

impl View for FetchRun {
    type V = FetchRunView;

    closed spec fn view(&self) -> FetchRunView {
        FetchRunView {
            stage: self.stage,
            token: self.token@,
            ids: self.ids.deep_view(),
            states: self.states.deep_view(),
        }
    }
}

impl FetchRun {
    #[verifier::type_invariant]
    spec fn one_state_missing(self) -> bool {
        self.stage == FetchStage::States ==> self.states.len() < self.ids.len()
    }

    /// A run in which nothing is under way.
    pub fn new() -> (run: Self)
        ensures
            run@ == FetchRunView::idle(),
    {
        FetchRun::making_valid(AuthStage::Idle)
    }

    fn making_valid(stage: AuthStage) -> (run: Self)
        ensures
            run@ == FetchRunView::making_valid(stage),
    {
        let run = FetchRun {
            stage: FetchStage::Session(stage),
            token: String::new(),
            ids: Vec::new(),
            states: Vec::new(),
        };
        assert(run.ids.deep_view() =~= Seq::empty());
        assert(run.states.deep_view() =~= Seq::empty());
        run
    }

    /// Whether the run is in the middle of a login or refresh.
    pub fn renewing(&self) -> (renewing: bool)
        ensures
            renewing == self@.renewing(),
    {
        match self.stage {
            FetchStage::Session(AuthStage::Idle) => false,
            FetchStage::Session(_) => true,
            _ => false,
        }
    }

    /// The reply that the run is waiting for.
    pub fn stage(&self) -> (stage: FetchStage)
        ensures
            stage == self@.stage,
            self@.well_formed(),
    {
        proof {
            use_type_invariant(self);
        }
        self.stage
    }
}

impl Default for FetchRun {
    fn default() -> (run: Self)
        ensures
            run@ == FetchRunView::idle(),
    {
        FetchRun::new()
    }
}

/// What a step of [`get_charger_state`] comes to.
#[derive(Debug)]
pub enum FetchStep {
    /// The run is over: here are the states of all chargers in listing
    /// order, or the first error.
    Done(Result<Vec<ChargerState>, EaseeError>),
    /// The driver is to carry out the request and report back.
    Ask(Request),
    /// Somebody else's login or refresh is under way: the driver is to wait
    /// until it is over and start again.
    Wait,
}

/// A [`FetchStep`] with its texts as sequences of characters.
pub enum FetchStepView {
    Done(Result<Seq<ChargerStateView>, EaseeError>),
    Ask(RequestView),
    Wait,
}

impl View for FetchStep {
    type V = FetchStepView;

    open spec fn view(&self) -> FetchStepView {
        match self {
            FetchStep::Done(Ok(states)) => FetchStepView::Done(Ok(states.deep_view())),
            FetchStep::Done(Err(error)) => FetchStepView::Done(Err(*error)),
            FetchStep::Ask(request) => FetchStepView::Ask(request@),
            FetchStep::Wait => FetchStepView::Wait,
        }
    }
}

/// Where a step of [`get_charger_state`] leads: the session and the run
/// after it, and what the step comes to.
pub struct FetchMove {
    pub session: SessionView,
    pub run: FetchRunView,
    pub step: FetchStepView,
}

/// The move that ends a run.
pub open spec fn finished(session: SessionView, outcome: Result<Seq<ChargerStateView>, EaseeError>)
    -> FetchMove {
    FetchMove { session, run: FetchRunView::idle(), step: FetchStepView::Done(outcome) }
}

/// One step of the fetch pipeline.
///
/// First the session is made valid, step by step as [`auth_move`] has it;
/// if that fails, the run ends with its error, and if that has to wait, so
/// has the run, which has not begun then. With a valid session the
/// list of chargers is asked for, with the session's access token. The
/// reply gives the ids; with none listed the run ends with no states. Then
/// the state of each charger is asked for in listing order, with the same
/// token. The first reply that gives no state ends the run with its error,
/// and what was read before is dropped; the last state ends it with all of
/// them.
pub open spec fn fetch_move(session: SessionView, run: FetchRunView, event: Event, now: i64)
    -> FetchMove {
    match run.stage {
        FetchStage::Session(stage) => {
            let made = auth_move(session, stage, event, now);
            match made.step {
                AuthStepView::Ask(request) => FetchMove {
                    session: made.session,
                    run: FetchRunView::making_valid(made.stage),
                    step: FetchStepView::Ask(request),
                },
                AuthStepView::Wait => FetchMove {
                    session: made.session,
                    run: FetchRunView::idle(),
                    step: FetchStepView::Wait,
                },
                AuthStepView::Done(Err(error)) => finished(made.session, Err(error)),
                AuthStepView::Done(Ok(_)) => match made.session.token {
                    Some(token) => FetchMove {
                        session: made.session,
                        run: FetchRunView {
                            stage: FetchStage::List,
                            token,
                            ids: Seq::empty(),
                            states: Seq::empty(),
                        },
                        step: FetchStepView::Ask(RequestView::ChargerList { token }),
                    },
                    None => finished(made.session, Err(EaseeError::LoginFailed)),
                },
            }
        },
        FetchStage::List => match charger_list(event) {
            Ok(ids) => if ids.len() == 0 {
                finished(session, Ok(Seq::empty()))
            } else {
                FetchMove {
                    session,
                    run: FetchRunView {
                        stage: FetchStage::States,
                        token: run.token,
                        ids,
                        states: Seq::empty(),
                    },
                    step: FetchStepView::Ask(
                        RequestView::ChargerState { token: run.token, charger_id: ids[0] },
                    ),
                }
            },
            Err(error) => finished(session, Err(error)),
        },
        FetchStage::States => {
            let at = run.states.len() as int;
            match charger_state(run.ids[at], event) {
                Ok(state) => if at + 1 == run.ids.len() {
                    finished(session, Ok(run.states.push(state)))
                } else {
                    FetchMove {
                        session,
                        run: FetchRunView {
                            stage: FetchStage::States,
                            token: run.token,
                            ids: run.ids,
                            states: run.states.push(state),
                        },
                        step: FetchStepView::Ask(
                            RequestView::ChargerState {
                                token: run.token,
                                charger_id: run.ids[at + 1],
                            },
                        ),
                    }
                },
                Err(error) => finished(session, Err(error)),
            }
        },
    }
}

/// Fetches the state of every charger, one step at a time.
///
/// The first call of a run is made with a new [`FetchRun`]. As long as the
/// step is an `Ask`, the driver carries the request out and calls again
/// with the run that was returned and the event that reports the outcome.
/// The run is over with the first `Done`; the run that comes with it is
/// ready for the next fetch. On `Wait` nothing has begun: the driver calls
/// again when the login or refresh under way is over.
pub fn get_charger_state(session: &mut SessionState, run: FetchRun, event: &Event, now: i64) -> (next:
    (FetchRun, FetchStep))
    ensures
        final(session)@.consistent(),
        next.0@.well_formed(),
        (FetchMove { session: final(session)@, run: next.0@, step: next.1@ }) == fetch_move(
            old(session)@,
            run@,
            *event,
            now,
        ),
        final(session)@.same_tokens(old(session)@) || expires_as_granted(
            final(session)@,
            *event,
            now,
        ),
{
    proof {
        use_type_invariant(&run);
        use_type_invariant(&*session);
        session.lemma_token_has_expiry();
    }
    let FetchRun { stage, token, ids, states } = run;
    match stage {
        FetchStage::Session(stage) => {
            let (stage, step) = ensure_valid(session, stage, event, now);
            match step {
                AuthStep::Ask(request) => (FetchRun::making_valid(stage), FetchStep::Ask(request)),
                AuthStep::Wait => (FetchRun::new(), FetchStep::Wait),
                AuthStep::Done(Err(error)) => (FetchRun::new(), FetchStep::Done(Err(error))),
                AuthStep::Done(Ok(())) => match session.token() {
                    Some(held) => {
                        let request = Request::ChargerList { token: held.clone() };
                        let next = FetchRun {
                            stage: FetchStage::List,
                            token: held.clone(),
                            ids: Vec::new(),
                            states: Vec::new(),
                        };
                        assert(next.ids.deep_view() =~= Seq::empty());
                        assert(next.states.deep_view() =~= Seq::empty());
                        (next, FetchStep::Ask(request))
                    },
                    None => (FetchRun::new(), FetchStep::Done(Err(EaseeError::LoginFailed))),
                },
            }
        },
        FetchStage::List => match get_charger_list(event) {
            Ok(listed) => {
                if listed.len() == 0 {
                    let none: Vec<ChargerState> = Vec::new();
                    assert(none.deep_view() =~= Seq::empty());
                    assert(listed.deep_view() =~= Seq::empty());
                    (FetchRun::new(), FetchStep::Done(Ok(none)))
                } else {
                    let request = Request::ChargerState {
                        token: token.clone(),
                        charger_id: listed[0].clone(),
                    };
                    let next = FetchRun {
                        stage: FetchStage::States,
                        token,
                        ids: listed,
                        states: Vec::new(),
                    };
                    assert(next.states.deep_view() =~= Seq::empty());
                    (next, FetchStep::Ask(request))
                }
            },
            Err(error) => (FetchRun::new(), FetchStep::Done(Err(error))),
        },
        FetchStage::States => {
            let at = states.len();
            match external_request_charger_state(ids[at].as_str(), event) {
                Ok(state) => {
                    let mut states = states;
                    let ghost before = states.deep_view();
                    states.push(state);
                    assert(states.deep_view() =~= before.push(state@));
                    if states.len() == ids.len() {
                        (FetchRun::new(), FetchStep::Done(Ok(states)))
                    } else {
                        let request = Request::ChargerState {
                            token: token.clone(),
                            charger_id: ids[at + 1].clone(),
                        };
                        (
                            FetchRun { stage: FetchStage::States, token, ids, states },
                            FetchStep::Ask(request),
                        )
                    }
                },
                Err(error) => (FetchRun::new(), FetchStep::Done(Err(error))),
            }
        },
    }
}

/// How a run ends when its steps are fed `inputs` in order, each the event
/// of a step and the instant at which the step is made: the outcome of the
/// first `Done`, or `None` where the run has to wait or the inputs end
/// before the run does.
pub open spec fn fetch_outcome(session: SessionView, run: FetchRunView, inputs: Seq<(Event, i64)>)
    -> Option<Result<Seq<ChargerStateView>, EaseeError>>
    decreases inputs.len(),
{
    if inputs.len() == 0 {
        None
    } else {
        let next = fetch_move(session, run, inputs[0].0, inputs[0].1);
        match next.step {
            FetchStepView::Done(outcome) => Some(outcome),
            FetchStepView::Ask(_) => fetch_outcome(next.session, next.run, inputs.drop_first()),
            FetchStepView::Wait => None,
        }
    }
}

/// The first failure ends the run: where the replies for the next chargers
/// give a state each and the one after them gives an error, the run ends
/// with that error and hands out none of the states read, whatever is
/// reported afterwards.
pub proof fn lemma_first_failure_ends_run(
    session: SessionView,
    run: FetchRunView,
    inputs: Seq<(Event, i64)>,
    good: int,
    error: EaseeError,
)
    requires
        run.stage == FetchStage::States,
        0 <= good < inputs.len(),
        run.states.len() + good < run.ids.len(),
        forall|i: int|
            0 <= i < good ==> (#[trigger] charger_state(
                run.ids[run.states.len() + i],
                inputs[i].0,
            )) is Ok,
        charger_state(run.ids[run.states.len() as int + good], inputs[good].0) == Err::<
            ChargerStateView,
            EaseeError,
        >(error),
    ensures
        fetch_outcome(session, run, inputs) == Some(
            Err::<Seq<ChargerStateView>, EaseeError>(error),
        ),
    decreases good,
{
    if good > 0 {
        let next = fetch_move(session, run, inputs[0].0, inputs[0].1);
        assert(charger_state(run.ids[run.states.len() + 0int], inputs[0].0) is Ok);
        let rest = inputs.drop_first();
        assert forall|i: int| 0 <= i < good - 1 implies (#[trigger] charger_state(
            next.run.ids[next.run.states.len() + i],
            rest[i].0,
        )) is Ok by {
            assert(charger_state(run.ids[run.states.len() + (i + 1)], inputs[i + 1].0) is Ok);
        }
        lemma_first_failure_ends_run(next.session, next.run, rest, good - 1, error);
    }
}

/// The states that the replies `inputs` give for the chargers `ids[from..]`,
/// one reply for each in order.
pub open spec fn states_given(ids: Seq<Seq<char>>, from: int, inputs: Seq<(Event, i64)>) -> Seq<
    ChargerStateView,
> {
    Seq::new(
        (ids.len() - from) as nat,
        |i: int| charger_state(ids[from + i], inputs[i].0).unwrap(),
    )
}

/// Where every reply gives a state, the run ends with the states of all
/// chargers in listing order: those read before, then one for each reply.
pub proof fn lemma_states_come_in_listing_order(
    session: SessionView,
    run: FetchRunView,
    inputs: Seq<(Event, i64)>,
)
    requires
        run.stage == FetchStage::States,
        run.states.len() < run.ids.len(),
        inputs.len() >= run.ids.len() - run.states.len(),
        forall|i: int|
            0 <= i < run.ids.len() - run.states.len() ==> (#[trigger] charger_state(
                run.ids[run.states.len() + i],
                inputs[i].0,
            )) is Ok,
    ensures
        fetch_outcome(session, run, inputs) == Some(
            Ok::<Seq<ChargerStateView>, EaseeError>(
                run.states + states_given(run.ids, run.states.len() as int, inputs),
            ),
        ),
    decreases run.ids.len() - run.states.len(),
{
    let at = run.states.len() as int;
    let next = fetch_move(session, run, inputs[0].0, inputs[0].1);
    let rest = inputs.drop_first();
    assert(charger_state(run.ids[at + 0], inputs[0].0) is Ok);
    let state = charger_state(run.ids[at], inputs[0].0).unwrap();
    if at + 1 == run.ids.len() {
        assert(run.states.push(state) =~= run.states + states_given(run.ids, at, inputs));
    } else {
        assert forall|i: int| 0 <= i < next.run.ids.len() - next.run.states.len() implies (
        #[trigger] charger_state(next.run.ids[next.run.states.len() + i], rest[i].0)) is Ok by {
            assert(charger_state(run.ids[at + (i + 1)], inputs[i + 1].0) is Ok);
        }
        lemma_states_come_in_listing_order(next.session, next.run, rest);
        assert(next.run.states + states_given(run.ids, at + 1, rest) =~= run.states
            + states_given(run.ids, at, inputs));
    }
}

/// Throttling is reported and nothing more: at status 429 for the list or
/// for a state, the run ends with `RateLimit`, asks for nothing, least of
/// all a login, and leaves the session alone.
pub proof fn lemma_throttling_ends_run(
    session: SessionView,
    run: FetchRunView,
    body: Option<String>,
    now: i64,
)
    requires
        run.stage == FetchStage::List || run.stage == FetchStage::States,
    ensures
        fetch_move(session, run, Event::Response { status: TOO_MANY_REQUESTS, body }, now)
            == finished(session, Err(EaseeError::RateLimit)),
{
}

/// A session that is valid is used as it is: the run's first step asks for
/// the list of chargers with the token that is held, and for nothing else
/// before.
pub proof fn lemma_valid_session_goes_straight_to_list(
    session: SessionView,
    event: Event,
    now: i64,
)
    requires
        session.token is Some,
        session.lifetime is Some,
        now < session.lifetime.unwrap(),
    ensures
        fetch_move(session, FetchRunView::idle(), event, now).session == session,
        fetch_move(session, FetchRunView::idle(), event, now).step == FetchStepView::Ask(
            RequestView::ChargerList { token: session.token.unwrap() },
        ),
{
}

} // verus!
