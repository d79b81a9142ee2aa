//! The conversation with the outside world: what the core asks its driver to
//! do, and what the driver reports back.

use vstd::prelude::*;
use vstd::string::*;

verus! {

/// The root of the upstream API.
pub const EASEE_BASE: &'static str = "https://api.easee.cloud/api";

/// Something the driver is asked to do on behalf of the core.
#[derive(Debug)]
pub enum Request {
    /// Ask the credential provider for the account's user name and password.
    Credentials,
    /// Exchange user name and password for a pair of tokens.
    Login { username: String, password: String },
    /// Exchange the current pair of tokens for a new one.
    Refresh { access_token: String, refresh_token: String },
    /// List the account's chargers.
    ChargerList { token: String },
    /// Read the state of one charger.
    ChargerState { token: String, charger_id: String },
}

/// A [`Request`] with its texts as sequences of characters.
pub enum RequestView {
    Credentials,
    Login { username: Seq<char>, password: Seq<char> },
    Refresh { access_token: Seq<char>, refresh_token: Seq<char> },
    ChargerList { token: Seq<char> },
    ChargerState { token: Seq<char>, charger_id: Seq<char> },
}

impl View for Request {
    type V = RequestView;

    open spec fn view(&self) -> RequestView {
        match self {
            Request::Credentials => RequestView::Credentials,
            Request::Login { username, password } => RequestView::Login {
                username: username@,
                password: password@,
            },
            Request::Refresh { access_token, refresh_token } => RequestView::Refresh {
                access_token: access_token@,
                refresh_token: refresh_token@,
            },
            Request::ChargerList { token } => RequestView::ChargerList { token: token@ },
            Request::ChargerState { token, charger_id } => RequestView::ChargerState {
                token: token@,
                charger_id: charger_id@,
            },
        }
    }
}

/// What the driver reports after carrying out a [`Request`].
#[derive(Debug)]
pub enum Event {
    /// Nothing has been asked yet.
    Start,
    /// The credential provider answered.
    Credentials { username: String, password: String },
    /// The upstream API answered. `body` is `None` where the body could not
    /// be read to its end.
    Response { status: u16, body: Option<String> },
    /// The request could not be carried out: the provider had no credentials,
    /// or the HTTP exchange failed or timed out.
    Failed,
}

/// Whether an HTTP status reports success.
pub open spec fn spec_is_success(status: u16) -> bool {
    200 <= status < 300
}

/// Whether an HTTP status reports success: the statuses from 200 to 299.
#[verifier::when_used_as_spec(spec_is_success)]
pub fn is_success(status: u16) -> (success: bool)
    ensures
        success == spec_is_success(status),
{
    200 <= status && status < 300
}

/// The HTTP status with which the upstream API throttles a client.
pub const TOO_MANY_REQUESTS: u16 = 429;

impl RequestView {
    /// The address that the request goes to under the API root `base`;
    /// `None` for the one request that goes to no address, the one for
    /// credentials.
    pub open spec fn url(self, base: Seq<char>) -> Option<Seq<char>> {
        match self {
            RequestView::Credentials => None,
            RequestView::Login { .. } => Some(base + "/accounts/login"@),
            RequestView::Refresh { .. } => Some(base + "/accounts/refresh_token"@),
            RequestView::ChargerList { .. } => Some(base + "/chargers"@),
            RequestView::ChargerState { charger_id, .. } => Some(
                base + "/chargers/"@ + charger_id + "/state"@,
            ),
        }
    }

    /// The members of the JSON object that the request posts, names and
    /// values in order; none for a request that posts nothing.
    pub open spec fn fields(self) -> Seq<(Seq<char>, Seq<char>)> {
        match self {
            RequestView::Login { username, password } => seq![
                ("username"@, username),
                ("password"@, password),
            ],
            RequestView::Refresh { access_token, refresh_token } => seq![
                ("accessToken"@, access_token),
                ("refreshToken"@, refresh_token),
            ],
            _ => Seq::empty(),
        }
    }

    /// The access token that the request presents as its bearer; `None`
    /// for a request that presents none.
    pub open spec fn bearer(self) -> Option<Seq<char>> {
        match self {
            RequestView::ChargerList { token } => Some(token),
            RequestView::ChargerState { token, .. } => Some(token),
            _ => None,
        }
    }
}

impl Request {
    /// The address that the request goes to under the API root `base`.
    pub fn url(&self, base: &str) -> (url: Option<String>)
        ensures
            url.deep_view() == self@.url(base@),
    {
        let mut url = base.to_owned();
        match self {
            Request::Credentials => {
                return None;
            },
            Request::Login { .. } => {
                url.append("/accounts/login");
            },
            Request::Refresh { .. } => {
                url.append("/accounts/refresh_token");
            },
            Request::ChargerList { .. } => {
                url.append("/chargers");
            },
            Request::ChargerState { charger_id, .. } => {
                url.append("/chargers/");
                url.append(charger_id.as_str());
                url.append("/state");
            },
        }
        Some(url)
    }

    /// The members of the JSON object that the request posts.
    pub fn fields(&self) -> (fields: Vec<(String, String)>)
        ensures
            fields.deep_view() == self@.fields(),
    {
        let mut fields: Vec<(String, String)> = Vec::new();
        match self {
            Request::Login { username, password } => {
                fields.push(("username".to_owned(), username.clone()));
                fields.push(("password".to_owned(), password.clone()));
            },
            Request::Refresh { access_token, refresh_token } => {
                fields.push(("accessToken".to_owned(), access_token.clone()));
                fields.push(("refreshToken".to_owned(), refresh_token.clone()));
            },
            _ => {},
        }
        assert(fields.deep_view() =~= self@.fields());
        fields
    }

    /// The access token that the request presents as its bearer.
    pub fn bearer(&self) -> (token: Option<&String>)
        ensures
            token.deep_view() == self@.bearer(),
    {
        match self {
            Request::ChargerList { token } => Some(token),
            Request::ChargerState { token, .. } => Some(token),
            _ => None,
        }
    }
}

} // verus!
