//! The one authenticated session of the process.
//!
//! A session holds an access token, a refresh token and the instant at which
//! the access token expires. Token and expiry are only ever written together.
//! The session also knows whether a login or refresh is under way, so that
//! there is never more than one.

use vstd::prelude::*;
use crate::clock::{add_seconds, instant_after};
use crate::error::EaseeError;
use crate::json::{integer_member, json_integer, json_text, text_member};
use crate::upstream::{
    is_success, spec_is_success, Event, Request, RequestView, TOO_MANY_REQUESTS,
};

verus! {

/// The authenticated session: access token, refresh token, and the instant
/// at which the access token expires.
#[derive(Debug)]
pub struct SessionState {
    token: Option<String>,
    refresh_token: Option<String>,
    lifetime: Option<i64>,
    renewing: bool,
}

/// What a [`SessionState`] holds: the three that make up the session, and
/// whether a login or refresh is under way.
pub struct SessionView {
    pub token: Option<Seq<char>>,
    pub refresh_token: Option<Seq<char>>,
    pub lifetime: Option<i64>,
    pub renewing: bool,
}

impl SessionView {
    /// A token is held exactly if its expiry is known.
    pub open spec fn consistent(self) -> bool {
        self.token is Some <==> self.lifetime is Some
    }

    /// The session before the first login.
    pub open spec fn empty() -> SessionView {
        SessionView { token: None, refresh_token: None, lifetime: None, renewing: false }
    }

    /// The session that holds the given triple, with nothing under way.
    pub open spec fn holding(token: Seq<char>, refresh_token: Seq<char>, lifetime: i64)
        -> SessionView {
        SessionView {
            token: Some(token),
            refresh_token: Some(refresh_token),
            lifetime: Some(lifetime),
            renewing: false,
        }
    }

    /// The same session with a login or refresh under way.
    pub open spec fn started(self) -> SessionView {
        SessionView { renewing: true, ..self }
    }

    /// The same session with nothing under way.
    pub open spec fn settled(self) -> SessionView {
        SessionView { renewing: false, ..self }
    }

    /// Whether two sessions hold the same token, refresh token and expiry.
    pub open spec fn same_tokens(self, other: SessionView) -> bool {
        &&& self.token == other.token
        &&& self.refresh_token == other.refresh_token
        &&& self.lifetime == other.lifetime
    }
}

impl View for SessionState {
    type V = SessionView;

    closed spec fn view(&self) -> SessionView {
        SessionView {
            token: self.token.deep_view(),
            refresh_token: self.refresh_token.deep_view(),
            lifetime: self.lifetime,
            renewing: self.renewing,
        }
    }
}

impl SessionState {
    /// What every session satisfies: a token is held exactly if its expiry
    /// is known.
    #[verifier::type_invariant]
    pub closed spec fn token_has_expiry(self) -> bool {
        self.token is Some <==> self.lifetime is Some
    }

    /// What every session satisfies, said of its view.
    pub proof fn lemma_token_has_expiry(self)
        requires
            self.token_has_expiry(),
        ensures
            self@.consistent(),
    {
    }

    /// A session that holds nothing yet.
    pub fn new() -> (session: Self)
        ensures
            session@ == SessionView::empty(),
    {
        SessionState { token: None, lifetime: None, refresh_token: None, renewing: false }
    }

    /// A session around tokens that were obtained earlier.
    pub fn with_tokens(token: String, refresh_token: Option<String>, lifetime: i64) -> (session:
        Self)
        ensures
            session@ == (SessionView {
                token: Some(token@),
                refresh_token: refresh_token.deep_view(),
                lifetime: Some(lifetime),
                renewing: false,
            }),
    {
        SessionState { token: Some(token), refresh_token, lifetime: Some(lifetime), renewing: false }
    }

    /// The access token, if one is held. Whoever sees a token here also finds
    /// its expiry in [`SessionState::lifetime`].
    pub fn token(&self) -> (token: Option<&String>)
        ensures
            token.deep_view() == self@.token,
            self@.consistent(),
    {
        proof {
            use_type_invariant(self);
        }
        self.token.as_ref()
    }

    /// The refresh token, if one is held.
    pub fn refresh_token(&self) -> (token: Option<&String>)
        ensures
            token.deep_view() == self@.refresh_token,
            self@.consistent(),
    {
        proof {
            use_type_invariant(self);
        }
        self.refresh_token.as_ref()
    }

    /// The instant at which the access token expires, if a token is held.
    pub fn lifetime(&self) -> (lifetime: Option<i64>)
        ensures
            lifetime == self@.lifetime,
            self@.consistent(),
    {
        proof {
            use_type_invariant(self);
        }
        self.lifetime
    }

    /// Whether a login or refresh is under way.
    pub fn renewing(&self) -> (renewing: bool)
        ensures
            renewing == self@.renewing,
    {
        self.renewing
    }

    /// Gives up the login or refresh that is under way, for the driver that
    /// cannot see it through. What the session holds stays as it is.
    pub fn abandon(&mut self)
        ensures
            final(self)@ == old(self)@.settled(),
            final(self)@.consistent(),
    {
        proof {
            use_type_invariant(&*self);
        }
        self.renewing = false;
    }
}

/// What a caller has to do before the session can be used.
#[derive(Debug, Clone, Copy, PartialEq, Eq, Structural)]
pub enum AuthPlan {
    /// The access token is still good: nothing to do.
    Valid,
    /// Log in with the account's credentials.
    Login,
    /// Exchange the expired pair of tokens for a new one.
    Refresh,
}

/// The plan for a session at the instant `now`: log in where no token is
/// held; refresh where the token has expired, or log in where no refresh
/// token is held; nothing otherwise.
pub open spec fn auth_plan(session: SessionView, now: i64) -> AuthPlan {
    match (session.token, session.lifetime) {
        (Some(_), Some(lifetime)) => if now < lifetime {
            AuthPlan::Valid
        } else if session.refresh_token is Some {
            AuthPlan::Refresh
        } else {
            AuthPlan::Login
        },
        _ => AuthPlan::Login,
    }
}

/// The session that a token response with the given body grants at `now`:
/// it holds the body's `accessToken` and `refreshToken`, and expires
/// `expiresIn` seconds after `now`. `None` where one of the three is missing
/// or malformed, or where the expiry cannot be represented.
pub open spec fn granted(body: Seq<char>, now: i64) -> Option<SessionView> {
    match (
        json_text(body, "accessToken"@),
        json_text(body, "refreshToken"@),
        json_integer(body, "expiresIn"@),
    ) {
        (Some(token), Some(refresh_token), Some(seconds)) => match instant_after(now, seconds) {
            Some(lifetime) => Some(SessionView::holding(token, refresh_token, lifetime)),
            None => None,
        },
        _ => None,
    }
}

/// What the reply to a login or refresh request amounts to at `now`: the
/// session it grants, or the reason why it grants none. A request that did
/// not get through is an `HttpFailed`; a status other than success is a
/// `LoginFailed`; a body that could not be read is an `HttpFailed`; a body
/// that grants nothing is an `InvalidResponse`.
pub open spec fn token_exchange(event: Event, now: i64) -> Result<SessionView, EaseeError> {
    match event {
        Event::Response { status, body } => if !spec_is_success(status) {
            Err(EaseeError::LoginFailed)
        } else {
            match body {
                Some(body) => match granted(body@, now) {
                    Some(session) => Ok(session),
                    None => Err(EaseeError::InvalidResponse),
                },
                None => Err(EaseeError::HttpFailed),
            }
        },
        _ => Err(EaseeError::HttpFailed),
    }
}

/// Whether `session` expires when the reply `event`, taken in at `now`,
/// says it does: `expiresIn` seconds after `now`, to the millisecond.
pub open spec fn expires_as_granted(session: SessionView, event: Event, now: i64) -> bool {
    &&& event matches Event::Response { body: Some(body), .. }
    &&& json_integer(body@, "expiresIn"@) matches Some(seconds)
    &&& session.lifetime matches Some(lifetime)
    &&& lifetime == now + seconds * 1000
}

/// Whether the upstream API turned a token request down: its reply has a
/// status that is neither a success nor 429, the status of throttling.
pub open spec fn spec_refused(event: Event) -> bool {
    event matches Event::Response { status, .. } && !spec_is_success(status) && status
        != TOO_MANY_REQUESTS
}

/// Whether the upstream API turned a token request down: its reply has a
/// status that is neither a success nor 429, the status of throttling.
pub fn refused(event: &Event) -> (refused: bool)
    ensures
        refused == spec_refused(*event),
{
    match event {
        Event::Response { status, .. } => !is_success(*status) && *status != TOO_MANY_REQUESTS,
        _ => false,
    }
}

/// Decides what has to happen before `session` can be used at `now`.
///
/// While a token is held and `now` lies before its expiry the answer is
/// `Valid`, and nothing is asked of the upstream API.
pub fn refresh_auth(session: &SessionState, now: i64) -> (plan: AuthPlan)
    ensures
        plan == auth_plan(session@, now),
        session@.token is Some && session@.lifetime is Some && now < session@.lifetime->0
            ==> plan == AuthPlan::Valid,
{
    match (&session.token, session.lifetime) {
        (Some(_), Some(lifetime)) => {
            if now < lifetime {
                AuthPlan::Valid
            } else if session.refresh_token.is_some() {
                AuthPlan::Refresh
            } else {
                AuthPlan::Login
            }
        },
        _ => AuthPlan::Login,
    }
}

/// Stores a granted triple in `session`, all three at once, or leaves the
/// session as it is where one of them is missing. Whether a login or
/// refresh is under way is not touched.
pub fn accept_grant(
    session: &mut SessionState,
    token: Option<String>,
    refresh_token: Option<String>,
    lifetime: Option<i64>,
) -> (outcome: Result<(), EaseeError>)
    ensures
        final(session)@.consistent(),
        match (token, refresh_token, lifetime) {
            (Some(token), Some(refresh_token), Some(lifetime)) => {
                &&& outcome is Ok
                &&& final(session)@ == (SessionView {
                    renewing: old(session)@.renewing,
                    ..SessionView::holding(token@, refresh_token@, lifetime)
                })
            },
            _ => {
                &&& outcome == Err::<(), EaseeError>(EaseeError::InvalidResponse)
                &&& final(session)@ == old(session)@
            },
        },
{
    proof {
        use_type_invariant(&*session);
    }
    match (token, refresh_token, lifetime) {
        (Some(token), Some(refresh_token), Some(lifetime)) => {
            *session = SessionState {
                token: Some(token),
                refresh_token: Some(refresh_token),
                lifetime: Some(lifetime),
                renewing: session.renewing,
            };
            Ok(())
        },
        _ => Err(EaseeError::InvalidResponse),
    }
}

/// Takes in the reply to a token request: stores what it grants, or reports
/// why it grants nothing and leaves token, refresh token and expiry
/// untouched. Either way the login or refresh is no longer under way.
fn exchange(session: &mut SessionState, event: &Event, now: i64) -> (outcome: Result<
    (),
    EaseeError,
>)
    ensures
        final(session)@.consistent(),
        match token_exchange(*event, now) {
            Ok(granted) => outcome is Ok && final(session)@ == granted,
            Err(error) => outcome == Err::<(), EaseeError>(error) && final(session)@ == old(
                session,
            )@.settled(),
        },
        outcome is Ok ==> expires_as_granted(final(session)@, *event, now),
{
    proof {
        use_type_invariant(&*session);
    }
    session.renewing = false;
    match event {
        Event::Response { status, body } => {
            if !is_success(*status) {
                return Err(EaseeError::LoginFailed);
            }
            match body {
                Some(body) => {
                    let token = text_member(body.as_str(), "accessToken");
                    let refresh_token = text_member(body.as_str(), "refreshToken");
                    let lifetime = match integer_member(body.as_str(), "expiresIn") {
                        Some(seconds) => add_seconds(now, seconds),
                        None => None,
                    };
                    accept_grant(session, token, refresh_token, lifetime)
                },
                None => Err(EaseeError::HttpFailed),
            }
        },
        _ => Err(EaseeError::HttpFailed),
    }
}

/// Takes in the reply to a login request, which ends the login.
///
/// On success the session holds the granted access token, refresh token and
/// expiry, written as one; the expiry is `now` plus the granted number of
/// seconds. On any failure the three are left as they were.
pub fn login(session: &mut SessionState, event: &Event, now: i64) -> (outcome: Result<
    (),
    EaseeError,
>)
    ensures
        final(session)@.consistent(),
        match token_exchange(*event, now) {
            Ok(granted) => outcome is Ok && final(session)@ == granted,
            Err(error) => outcome == Err::<(), EaseeError>(error) && final(session)@ == old(
                session,
            )@.settled(),
        },
        outcome is Ok ==> expires_as_granted(final(session)@, *event, now),
{
    exchange(session, event, now)
}

/// Takes in the reply to a refresh request, which ends the refresh. The
/// reply is read and stored exactly as the reply to a login request is.
pub fn refresh_token(session: &mut SessionState, event: &Event, now: i64) -> (outcome: Result<
    (),
    EaseeError,
>)
    ensures
        final(session)@.consistent(),
        match token_exchange(*event, now) {
            Ok(granted) => outcome is Ok && final(session)@ == granted,
            Err(error) => outcome == Err::<(), EaseeError>(error) && final(session)@ == old(
                session,
            )@.settled(),
        },
        outcome is Ok ==> expires_as_granted(final(session)@, *event, now),
{
    exchange(session, event, now)
}

/// Which reply a run of [`ensure_valid`] is waiting for.
#[derive(Debug, Clone, Copy, PartialEq, Eq, Structural)]
pub enum AuthStage {
    /// Nothing is under way.
    Idle,
    /// The credential provider was asked.
    Credentials,
    /// A login request is under way.
    Login,
    /// A refresh request is under way.
    Refresh,
}

/// What a step of [`ensure_valid`] comes to.
#[derive(Debug)]
pub enum AuthStep {
    /// The run is over: the session is valid, or could not be made so.
    Done(Result<(), EaseeError>),
    /// The driver is to carry out the request and report back.
    Ask(Request),
    /// Somebody else's login or refresh is under way: the driver is to wait
    /// until it is over and start again.
    Wait,
}

/// An [`AuthStep`] with its texts as sequences of characters.
pub enum AuthStepView {
    Done(Result<(), EaseeError>),
    Ask(RequestView),
    Wait,
}

impl View for AuthStep {
    type V = AuthStepView;

    open spec fn view(&self) -> AuthStepView {
        match self {
            AuthStep::Done(outcome) => AuthStepView::Done(*outcome),
            AuthStep::Ask(request) => AuthStepView::Ask(request@),
            AuthStep::Wait => AuthStepView::Wait,
        }
    }
}

/// Where a step of [`ensure_valid`] leads: the session after it, the reply
/// that is awaited next, and what the step comes to.
pub struct AuthMove {
    pub session: SessionView,
    pub stage: AuthStage,
    pub step: AuthStepView,
}

/// One step of making a session valid.
///
/// From `Idle` the step follows [`auth_plan`] and `event` plays no part. A
/// valid session ends the run at once. Otherwise a login or refresh is
/// needed: if one is under way already, the step is to wait for it; if
/// not, the session notes that one is under way now, and the credential
/// provider or the refresh endpoint is asked.
///
/// Credentials lead to a login request; anything else in their place ends
/// the run with `LoginFailed`. The reply to a login request ends the run
/// either way. A refresh request that the upstream API turns down makes the
/// run fall back to a login; any other reply to it ends the run. Throttling
/// is no turning down: it ends the run, and starts no login.
///
/// Whatever ends the run also ends the login or refresh under way.
pub open spec fn auth_move(session: SessionView, stage: AuthStage, event: Event, now: i64)
    -> AuthMove {
    match stage {
        AuthStage::Idle => match auth_plan(session, now) {
            AuthPlan::Valid => AuthMove {
                session,
                stage: AuthStage::Idle,
                step: AuthStepView::Done(Ok(())),
            },
            _ if session.renewing => AuthMove {
                session,
                stage: AuthStage::Idle,
                step: AuthStepView::Wait,
            },
            AuthPlan::Login => AuthMove {
                session: session.started(),
                stage: AuthStage::Credentials,
                step: AuthStepView::Ask(RequestView::Credentials),
            },
            AuthPlan::Refresh => AuthMove {
                session: session.started(),
                stage: AuthStage::Refresh,
                step: AuthStepView::Ask(
                    RequestView::Refresh {
                        access_token: session.token.unwrap(),
                        refresh_token: session.refresh_token.unwrap(),
                    },
                ),
            },
        },
        AuthStage::Credentials => match event {
            Event::Credentials { username, password } => AuthMove {
                session,
                stage: AuthStage::Login,
                step: AuthStepView::Ask(
                    RequestView::Login { username: username@, password: password@ },
                ),
            },
            _ => AuthMove {
                session: session.settled(),
                stage: AuthStage::Idle,
                step: AuthStepView::Done(Err(EaseeError::LoginFailed)),
            },
        },
        AuthStage::Login => match token_exchange(event, now) {
            Ok(granted) => AuthMove {
                session: granted,
                stage: AuthStage::Idle,
                step: AuthStepView::Done(Ok(())),
            },
            Err(error) => AuthMove {
                session: session.settled(),
                stage: AuthStage::Idle,
                step: AuthStepView::Done(Err(error)),
            },
        },
        AuthStage::Refresh => if spec_refused(event) {
            AuthMove {
                session,
                stage: AuthStage::Credentials,
                step: AuthStepView::Ask(RequestView::Credentials),
            }
        } else {
            match token_exchange(event, now) {
                Ok(granted) => AuthMove {
                    session: granted,
                    stage: AuthStage::Idle,
                    step: AuthStepView::Done(Ok(())),
                },
                Err(error) => AuthMove {
                    session: session.settled(),
                    stage: AuthStage::Idle,
                    step: AuthStepView::Done(Err(error)),
                },
            }
        },
    }
}

/// Makes `session` valid, one step at a time.
///
/// The first call of a run is made at stage `Idle`. As long as the step is
/// an `Ask`, the driver carries the request out and calls again with the
/// stage that was returned and the event that reports the outcome. The run
/// is over with the first `Done`. On `Wait` nothing has begun: the driver
/// comes back at stage `Idle` when the login or refresh under way is over.
pub fn ensure_valid(session: &mut SessionState, stage: AuthStage, event: &Event, now: i64) -> (next:
    (AuthStage, AuthStep))
    ensures
        final(session)@.consistent(),
        (AuthMove { session: final(session)@, stage: next.0, step: next.1@ }) == auth_move(
            old(session)@,
            stage,
            *event,
            now,
        ),
        stage != AuthStage::Idle && next.1@ == AuthStepView::Done(Ok(())) ==> expires_as_granted(
            final(session)@,
            *event,
            now,
        ),
{
    proof {
        use_type_invariant(&*session);
    }
    match stage {
        AuthStage::Idle => {
            let plan = refresh_auth(session, now);
            if plan == AuthPlan::Valid {
                return (AuthStage::Idle, AuthStep::Done(Ok(())));
            }
            if session.renewing {
                return (AuthStage::Idle, AuthStep::Wait);
            }
            let step = match (plan, &session.token, &session.refresh_token) {
                (AuthPlan::Refresh, Some(token), Some(refresh_token)) => (
                    AuthStage::Refresh,
                    AuthStep::Ask(
                        Request::Refresh {
                            access_token: token.clone(),
                            refresh_token: refresh_token.clone(),
                        },
                    ),
                ),
                _ => (AuthStage::Credentials, AuthStep::Ask(Request::Credentials)),
            };
            session.renewing = true;
            step
        },
        AuthStage::Credentials => match event {
            Event::Credentials { username, password } => (
                AuthStage::Login,
                AuthStep::Ask(
                    Request::Login { username: username.clone(), password: password.clone() },
                ),
            ),
            _ => {
                session.renewing = false;
                (AuthStage::Idle, AuthStep::Done(Err(EaseeError::LoginFailed)))
            },
        },
        AuthStage::Login => match login(session, event, now) {
            Ok(()) => (AuthStage::Idle, AuthStep::Done(Ok(()))),
            Err(error) => (AuthStage::Idle, AuthStep::Done(Err(error))),
        },
        AuthStage::Refresh => if refused(event) {
            (AuthStage::Credentials, AuthStep::Ask(Request::Credentials))
        } else {
            match refresh_token(session, event, now) {
                Ok(()) => (AuthStage::Idle, AuthStep::Done(Ok(()))),
                Err(error) => (AuthStage::Idle, AuthStep::Done(Err(error))),
            }
        },
    }
}

/// The requests that a run of [`ensure_valid`] asks, from the given session
/// and stage, when its steps are fed `inputs` in order: each input is the
/// event of a step and the instant at which the step is made. The run ends
/// with its first `Done` or `Wait`, or where the inputs end.
pub open spec fn auth_requests(session: SessionView, stage: AuthStage, inputs: Seq<(Event, i64)>)
    -> Seq<RequestView>
    decreases inputs.len(),
{
    if inputs.len() == 0 {
        Seq::empty()
    } else {
        let next = auth_move(session, stage, inputs[0].0, inputs[0].1);
        match next.step {
            AuthStepView::Ask(request) => seq![request] + auth_requests(
                next.session,
                next.stage,
                inputs.drop_first(),
            ),
            _ => Seq::empty(),
        }
    }
}

/// While a token is held and has not expired, making the session valid asks
/// nothing of anybody: the run is over at its first step, with success, and
/// the session is as it was.
pub proof fn lemma_valid_session_asks_nothing(session: SessionView, event: Event, now: i64)
    requires
        session.token is Some,
        session.lifetime is Some,
        now < session.lifetime.unwrap(),
    ensures
        auth_move(session, AuthStage::Idle, event, now) == (AuthMove {
            session,
            stage: AuthStage::Idle,
            step: AuthStepView::Done(Ok(())),
        }),
        forall|inputs: Seq<(Event, i64)>|
            inputs.len() > 0 && inputs[0].1 == now ==> #[trigger] auth_requests(
                session,
                AuthStage::Idle,
                inputs,
            ) == Seq::<RequestView>::empty(),
{
}

/// A step never breaks the tie between token and expiry.
pub proof fn lemma_step_keeps_token_and_expiry_together(
    session: SessionView,
    stage: AuthStage,
    event: Event,
    now: i64,
)
    requires
        session.consistent(),
    ensures
        auth_move(session, stage, event, now).session.consistent(),
{
}

/// Only a successful login or refresh changes what the session holds: a
/// step that asks for something, that waits, or that ends the run with an
/// error, leaves token, refresh token and expiry as they were.
pub proof fn lemma_only_success_changes_tokens(
    session: SessionView,
    stage: AuthStage,
    event: Event,
    now: i64,
)
    ensures
        auth_move(session, stage, event, now).step != AuthStepView::Done(Ok(())) ==> auth_move(
            session,
            stage,
            event,
            now,
        ).session.same_tokens(session),
{
}

/// A run that ends with success leaves a session that holds a token and its
/// expiry.
pub proof fn lemma_success_leaves_token(
    session: SessionView,
    stage: AuthStage,
    event: Event,
    now: i64,
)
    requires
        session.consistent(),
        auth_move(session, stage, event, now).step == AuthStepView::Done(Ok(())),
    ensures
        auth_move(session, stage, event, now).session.token is Some,
        auth_move(session, stage, event, now).session.lifetime is Some,
{
}

/// There is never a second login or refresh: while one is under way, a run
/// that begins asks for nothing. It finds the session valid, or it waits;
/// the session stays as it is.
pub proof fn lemma_one_renewal_at_a_time(session: SessionView, event: Event, now: i64)
    requires
        session.renewing,
    ensures
        auth_move(session, AuthStage::Idle, event, now).session == session,
        auth_move(session, AuthStage::Idle, event, now).stage == AuthStage::Idle,
        auth_move(session, AuthStage::Idle, event, now).step == if auth_plan(session, now)
            == AuthPlan::Valid {
            AuthStepView::Done(Ok(()))
        } else {
            AuthStepView::Wait
        },
{
}

/// A login or refresh is under way exactly from the step that first asks
/// for something to the step that ends the run: a run that begins with
/// nothing under way is under way for as long as it asks, and whatever
/// ends it leaves nothing under way.
pub proof fn lemma_renewal_lasts_as_long_as_the_run(
    session: SessionView,
    stage: AuthStage,
    event: Event,
    now: i64,
)
    requires
        stage == AuthStage::Idle ==> !session.renewing,
        stage != AuthStage::Idle ==> session.renewing,
    ensures
        auth_move(session, stage, event, now).step is Ask ==> auth_move(
            session,
            stage,
            event,
            now,
        ).session.renewing && auth_move(session, stage, event, now).stage != AuthStage::Idle,
        auth_move(session, stage, event, now).step is Done ==> !auth_move(
            session,
            stage,
            event,
            now,
        ).session.renewing && auth_move(session, stage, event, now).stage == AuthStage::Idle,
        !(auth_move(session, stage, event, now).step is Wait),
{
}

/// Whether a request belongs to a login: asking for credentials, or logging in.
pub open spec fn is_login_request(request: RequestView) -> bool {
    request is Credentials || request is Login
}

/// Once a run is past its first step and not waiting for a refresh, all it
/// ever asks belongs to a login.
pub proof fn lemma_login_stays_login(
    session: SessionView,
    stage: AuthStage,
    inputs: Seq<(Event, i64)>,
)
    requires
        stage == AuthStage::Credentials || stage == AuthStage::Login,
    ensures
        forall|i: int|
            0 <= i < auth_requests(session, stage, inputs).len() ==> is_login_request(
                #[trigger] auth_requests(session, stage, inputs)[i],
            ),
        auth_requests(session, stage, inputs).len() <= 1,
    decreases inputs.len(),
{
    if inputs.len() > 0 {
        let next = auth_move(session, stage, inputs[0].0, inputs[0].1);
        if next.step is Ask {
            lemma_login_stays_login(next.session, next.stage, inputs.drop_first());
            assert(next.stage == AuthStage::Login);
            assert(auth_requests(next.session, next.stage, inputs.drop_first()).len() == 0) by {
                if inputs.drop_first().len() > 0 {
                    let last = auth_move(
                        next.session,
                        next.stage,
                        inputs.drop_first()[0].0,
                        inputs.drop_first()[0].1,
                    );
                    assert(last.step is Done);
                }
            }
        }
    }
}

/// Without a token, or with an expired token and no refresh token, a run
/// logs in and does nothing else: it asks for credentials first, and never
/// for a refresh.
pub proof fn lemma_login_only(session: SessionView, inputs: Seq<(Event, i64)>)
    requires
        inputs.len() > 0,
        auth_plan(session, inputs[0].1) == AuthPlan::Login,
        !session.renewing,
    ensures
        auth_requests(session, AuthStage::Idle, inputs).len() >= 1,
        auth_requests(session, AuthStage::Idle, inputs)[0] == RequestView::Credentials,
        forall|i: int|
            0 <= i < auth_requests(session, AuthStage::Idle, inputs).len() ==> is_login_request(
                #[trigger] auth_requests(session, AuthStage::Idle, inputs)[i],
            ),
{
    let begun = session.started();
    let rest = auth_requests(begun, AuthStage::Credentials, inputs.drop_first());
    lemma_login_stays_login(begun, AuthStage::Credentials, inputs.drop_first());
    assert(auth_requests(session, AuthStage::Idle, inputs) == seq![RequestView::Credentials]
        + rest);
}

/// With an expired token and a refresh token, a run starts with a refresh
/// of exactly the pair that is held, and asks for no second refresh. Unless
/// the upstream API turns the refresh down, the refresh is all it asks.
pub proof fn lemma_refresh_first(session: SessionView, inputs: Seq<(Event, i64)>)
    requires
        inputs.len() > 0,
        auth_plan(session, inputs[0].1) == AuthPlan::Refresh,
        !session.renewing,
    ensures
        auth_requests(session, AuthStage::Idle, inputs).len() >= 1,
        auth_requests(session, AuthStage::Idle, inputs)[0] == (RequestView::Refresh {
            access_token: session.token.unwrap(),
            refresh_token: session.refresh_token.unwrap(),
        }),
        forall|i: int|
            1 <= i < auth_requests(session, AuthStage::Idle, inputs).len() ==> is_login_request(
                #[trigger] auth_requests(session, AuthStage::Idle, inputs)[i],
            ),
        inputs.len() > 1 && !spec_refused(inputs[1].0) ==> auth_requests(
            session,
            AuthStage::Idle,
            inputs,
        ).len() == 1,
{
    let first = RequestView::Refresh {
        access_token: session.token.unwrap(),
        refresh_token: session.refresh_token.unwrap(),
    };
    let begun = session.started();
    let after = inputs.drop_first();
    let rest = auth_requests(begun, AuthStage::Refresh, after);
    assert(auth_requests(session, AuthStage::Idle, inputs) == seq![first] + rest);
    if after.len() > 0 {
        assert(after[0] == inputs[1]);
        let next = auth_move(begun, AuthStage::Refresh, after[0].0, after[0].1);
        if next.step is Ask {
            let tail = auth_requests(next.session, next.stage, after.drop_first());
            lemma_login_stays_login(next.session, next.stage, after.drop_first());
            assert(rest == seq![RequestView::Credentials] + tail);
        } else {
            assert(rest == Seq::<RequestView>::empty());
        }
    }
}

/// Throttling starts no login: a login or refresh that is answered with
/// status 429 ends the run with `LoginFailed`, asks for nothing, and
/// leaves token, refresh token and expiry alone.
pub proof fn lemma_throttling_starts_no_login(
    session: SessionView,
    stage: AuthStage,
    body: Option<String>,
    now: i64,
)
    requires
        stage == AuthStage::Login || stage == AuthStage::Refresh,
    ensures
        auth_move(session, stage, Event::Response { status: TOO_MANY_REQUESTS, body }, now)
            == (AuthMove {
            session: session.settled(),
            stage: AuthStage::Idle,
            step: AuthStepView::Done(Err(EaseeError::LoginFailed)),
        }),
{
}

impl Default for SessionState {
    fn default() -> (session: Self)
        ensures
            session@ == SessionView::empty(),
    {
        SessionState::new()
    }
}

} // verus!
