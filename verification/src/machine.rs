//! The program's control flow as a state machine.
//!
//! A run is linear: load the two credentials from the environment,
//! authenticate by one of two mutually exclusive flows (app-only bearer
//! token, or the PIN-based three-legged flow), fetch one page of the
//! user's timeline, print it, exit.  Every decision of that flow lives
//! here as the pure transition function [`step`]: it consumes the current
//! state together with the outcome of the last outside operation (an
//! [`Event`]) and returns the next state together with the next outside
//! operation to perform (an [`Action`]).  The surrounding application
//! performs the actions — environment reads, network calls, console I/O —
//! and feeds their outcomes back in; it decides nothing itself.

use vstd::prelude::*;
use vstd::string::StringExecFns;

use crate::error::ErrorModel;
use crate::error::TessError;
use crate::render::render_feed;
use crate::render::rendered_feed;
use crate::trimming::trim_whitespace;
use crate::trimming::trimmed;

verus! {

/// Which of the two mutually exclusive authentication flows a run uses.
#[derive(Clone, Copy, Debug, PartialEq, Eq, Structural)]
pub enum AuthMode {
    /// Machine-only: acquire an application bearer token, no user interaction.
    AppOnly,
    /// PIN-based three-legged flow: the operator signs in and types a PIN.
    UserPin,
}

/// The two secrets read from the environment at startup.
#[derive(Debug, PartialEq, Eq)]
pub struct Credentials {
    pub api_key: String,
    pub api_key_secret: String,
}

/// Model of [`Credentials`]: the characters of the two secrets.
#[verifier::ext_equal]
pub struct CredentialsModel {
    pub api_key: Seq<char>,
    pub api_key_secret: Seq<char>,
}

impl View for Credentials {
    type V = CredentialsModel;

    open spec fn view(&self) -> CredentialsModel {
        CredentialsModel { api_key: self.api_key@, api_key_secret: self.api_key_secret@ }
    }
}

impl Credentials {
    /// A second copy, for when the credentials go both into the next
    /// state and into the action handed out.
    pub fn duplicate(&self) -> (r: Credentials)
        ensures
            r@ == self@,
    {
        Credentials { api_key: self.api_key.clone(), api_key_secret: self.api_key_secret.clone() }
    }
}

/// The temporary token of the PIN flow's first leg, consumed by the
/// authorization URL and by the final exchange.
#[derive(Debug, PartialEq, Eq)]
pub struct RequestToken {
    pub key: String,
    pub secret: String,
}

/// Model of [`RequestToken`].
#[verifier::ext_equal]
pub struct RequestTokenModel {
    pub key: Seq<char>,
    pub secret: Seq<char>,
}

impl View for RequestToken {
    type V = RequestTokenModel;

    open spec fn view(&self) -> RequestTokenModel {
        RequestTokenModel { key: self.key@, secret: self.secret@ }
    }
}

impl RequestToken {
    /// A second copy, for when the token goes both into the next state
    /// and into the action handed out.
    pub fn duplicate(&self) -> (r: RequestToken)
        ensures
            r@ == self@,
    {
        RequestToken { key: self.key.clone(), secret: self.secret.clone() }
    }
}

/// The credential a timeline request is made with: either an app-only
/// bearer token or a user access token (the consumer pair and the access
/// pair together).
#[derive(Debug, PartialEq, Eq)]
pub enum Token {
    Bearer { token: String },
    Access { consumer_key: String, consumer_secret: String, key: String, secret: String },
}

/// Model of [`Token`].
#[verifier::ext_equal]
pub enum TokenModel {
    Bearer { token: Seq<char> },
    Access { consumer_key: Seq<char>, consumer_secret: Seq<char>, key: Seq<char>, secret: Seq<char> },
}

impl View for Token {
    type V = TokenModel;

    open spec fn view(&self) -> TokenModel {
        match self {
            Token::Bearer { token } => (TokenModel::Bearer { token: token@ }),
            Token::Access { consumer_key, consumer_secret, key, secret } => (TokenModel::Access {
                consumer_key: consumer_key@,
                consumer_secret: consumer_secret@,
                key: key@,
                secret: secret@,
            }),
        }
    }
}

/// Who the PIN flow signed in as, as reported by the token exchange.
#[derive(Debug, PartialEq, Eq)]
pub struct UserIdentity {
    pub user_id: u64,
    pub screen_name: String,
}

/// Model of [`UserIdentity`].
#[verifier::ext_equal]
pub struct UserIdentityModel {
    pub user_id: u64,
    pub screen_name: Seq<char>,
}

impl View for UserIdentity {
    type V = UserIdentityModel;

    open spec fn view(&self) -> UserIdentityModel {
        UserIdentityModel { user_id: self.user_id, screen_name: self.screen_name@ }
    }
}

/// Where a run stands.  The flow is linear; `Done` and `Failed` are
/// absorbing.
#[derive(Debug, PartialEq, Eq)]
pub enum State {
    /// Waiting for the two environment variables to be read.
    LoadingConfig { mode: AuthMode },
    /// Bearer-token request in flight.
    Authenticating,
    /// PIN flow, first leg: request-token call in flight.
    RequestingToken { creds: Credentials },
    /// PIN flow: the operator is signing in and typing the PIN.
    AwaitingPin { creds: Credentials, request: RequestToken },
    /// PIN flow, last leg: the PIN-for-token exchange is in flight.
    ExchangingPin { creds: Credentials },
    /// Timeline request in flight; `user` is who the PIN flow signed in
    /// as, or `None` on the app-only path.
    Fetching { user: Option<UserIdentity> },
    /// The page was printed; the run is over.
    Done,
    /// Something failed; the run is over.
    Failed { error: TessError },
}

/// Model of [`State`].
#[verifier::ext_equal]
pub enum StateModel {
    LoadingConfig { mode: AuthMode },
    Authenticating,
    RequestingToken { creds: CredentialsModel },
    AwaitingPin { creds: CredentialsModel, request: RequestTokenModel },
    ExchangingPin { creds: CredentialsModel },
    Fetching { user: Option<UserIdentityModel> },
    Done,
    Failed { error: ErrorModel },
}

impl View for State {
    type V = StateModel;

    open spec fn view(&self) -> StateModel {
        match self {
            State::LoadingConfig { mode } => (StateModel::LoadingConfig { mode: *mode }),
            State::Authenticating => StateModel::Authenticating,
            State::RequestingToken { creds } => (StateModel::RequestingToken { creds: creds@ }),
            State::AwaitingPin { creds, request } => (StateModel::AwaitingPin {
                creds: creds@,
                request: request@,
            }),
            State::ExchangingPin { creds } => (StateModel::ExchangingPin { creds: creds@ }),
            State::Fetching { user } => (StateModel::Fetching {
                user: match user {
                    Option::None => Option::None,
                    Option::Some(u) => Option::Some(u@),
                },
            }),
            State::Done => StateModel::Done,
            State::Failed { error } => (StateModel::Failed { error: error@ }),
        }
    }
}

/// The outcome of the last outside operation, handed back to the machine.
#[derive(Debug, PartialEq, Eq)]
pub enum Event {
    /// Both environment variables were present; their values, as read.
    ConfigRead { api_key: String, api_key_secret: String },
    /// The named environment variable was absent.
    ConfigMissing { var: String },
    /// The bearer-token endpoint granted a token.
    BearerGranted { bearer: String },
    /// The request-token endpoint granted a temporary token.
    RequestTokenGranted { key: String, secret: String },
    /// The operator typed a line at the PIN prompt, as read (untrimmed).
    PinProvided { raw: String },
    /// Reading or prompting on the console failed.
    PinReadFailed { message: String },
    /// The exchange granted an access token for the signed-in user.
    AccessGranted { key: String, secret: String, user_id: u64, screen_name: String },
    /// The timeline endpoint returned a page: each post's printable text,
    /// in the order received.
    TimelinePage { posts: Vec<String> },
    /// The remote API rejected the call in flight.
    ApiRejected { message: String },
}

/// Model of [`Event`].
#[verifier::ext_equal]
pub enum EventModel {
    ConfigRead { api_key: Seq<char>, api_key_secret: Seq<char> },
    ConfigMissing { var: Seq<char> },
    BearerGranted { bearer: Seq<char> },
    RequestTokenGranted { key: Seq<char>, secret: Seq<char> },
    PinProvided { raw: Seq<char> },
    PinReadFailed { message: Seq<char> },
    AccessGranted { key: Seq<char>, secret: Seq<char>, user_id: u64, screen_name: Seq<char> },
    TimelinePage { posts: Seq<Seq<char>> },
    ApiRejected { message: Seq<char> },
}

impl View for Event {
    type V = EventModel;

    open spec fn view(&self) -> EventModel {
        match self {
            Event::ConfigRead { api_key, api_key_secret } => (EventModel::ConfigRead {
                api_key: api_key@,
                api_key_secret: api_key_secret@,
            }),
            Event::ConfigMissing { var } => (EventModel::ConfigMissing { var: var@ }),
            Event::BearerGranted { bearer } => (EventModel::BearerGranted { bearer: bearer@ }),
            Event::RequestTokenGranted { key, secret } => (EventModel::RequestTokenGranted {
                key: key@,
                secret: secret@,
            }),
            Event::PinProvided { raw } => (EventModel::PinProvided { raw: raw@ }),
            Event::PinReadFailed { message } => (EventModel::PinReadFailed { message: message@ }),
            Event::AccessGranted { key, secret, user_id, screen_name } => (EventModel::AccessGranted {
                key: key@,
                secret: secret@,
                user_id: *user_id,
                screen_name: screen_name@,
            }),
            Event::TimelinePage { posts } => (EventModel::TimelinePage { posts: posts.deep_view() }),
            Event::ApiRejected { message } => (EventModel::ApiRejected { message: message@ }),
        }
    }
}

/// What the machine asks the surrounding application to do next.
#[derive(Debug, PartialEq, Eq)]
pub enum Action {
    /// Read the two named environment variables.
    ReadConfig { key_var: String, secret_var: String },
    /// Call the bearer-token endpoint with these credentials.
    AcquireBearer { creds: Credentials },
    /// Call the request-token endpoint with these credentials and this
    /// OAuth callback.
    AcquireRequestToken { creds: Credentials, callback: String },
    /// Show the authorization URL for this request token and prompt the
    /// operator for the PIN.
    PromptPin { request: RequestToken },
    /// Exchange the (already trimmed) PIN for an access token.
    ExchangePin { creds: Credentials, request: RequestToken, pin: String },
    /// Fetch one page of the named user's timeline with this token.
    Fetch {
        token: Token,
        username: String,
        page_size: u32,
        include_replies: bool,
        include_retweets: bool,
    },
    /// Print this text and exit zero.
    Finish { output: String },
    /// Report this error and exit non-zero.
    Abort { error: TessError },
    /// Nothing: the run is already over, or the event did not belong to
    /// the current state.
    Stop,
}

/// Model of [`Action`].
#[verifier::ext_equal]
pub enum ActionModel {
    ReadConfig { key_var: Seq<char>, secret_var: Seq<char> },
    AcquireBearer { creds: CredentialsModel },
    AcquireRequestToken { creds: CredentialsModel, callback: Seq<char> },
    PromptPin { request: RequestTokenModel },
    ExchangePin { creds: CredentialsModel, request: RequestTokenModel, pin: Seq<char> },
    Fetch {
        token: TokenModel,
        username: Seq<char>,
        page_size: u32,
        include_replies: bool,
        include_retweets: bool,
    },
    Finish { output: Seq<char> },
    Abort { error: ErrorModel },
    Stop,
}

impl View for Action {
    type V = ActionModel;

    open spec fn view(&self) -> ActionModel {
        match self {
            Action::ReadConfig { key_var, secret_var } => (ActionModel::ReadConfig {
                key_var: key_var@,
                secret_var: secret_var@,
            }),
            Action::AcquireBearer { creds } => (ActionModel::AcquireBearer { creds: creds@ }),
            Action::AcquireRequestToken { creds, callback } => (ActionModel::AcquireRequestToken {
                creds: creds@,
                callback: callback@,
            }),
            Action::PromptPin { request } => (ActionModel::PromptPin { request: request@ }),
            Action::ExchangePin { creds, request, pin } => (ActionModel::ExchangePin {
                creds: creds@,
                request: request@,
                pin: pin@,
            }),
            Action::Fetch { token, username, page_size, include_replies, include_retweets } => (ActionModel::Fetch {
                token: token@,
                username: username@,
                page_size: *page_size,
                include_replies: *include_replies,
                include_retweets: *include_retweets,
            }),
            Action::Finish { output } => (ActionModel::Finish { output: output@ }),
            Action::Abort { error } => (ActionModel::Abort { error: error@ }),
            Action::Stop => ActionModel::Stop,
        }
    }
}

/// The halted pair a failure leads to: the run is over, the application
/// is asked to report the error and exit non-zero.
pub open spec fn failure(error: ErrorModel) -> (StateModel, ActionModel) {
    ((StateModel::Failed { error }), (ActionModel::Abort { error }))
}

/// The one timeline request of a run: the fixed username, one page of
/// five posts, retweets excluded, replies excluded.
pub open spec fn fetch_request(token: TokenModel) -> ActionModel {
    ActionModel::Fetch {
        token,
        username: "rustlang"@,
        page_size: 5u32,
        include_replies: false,
        include_retweets: false,
    }
}

/// The transition function of the run, over models.  Events that do not
/// belong to the current state change nothing and ask for nothing; the
/// terminal states absorb every event the same way.
pub open spec fn spec_step(s: StateModel, e: EventModel) -> (StateModel, ActionModel) {
    match (s, e) {
        (StateModel::LoadingConfig { mode }, EventModel::ConfigRead { api_key, api_key_secret }) => {
            if api_key.len() == 0 {
                failure(ErrorModel::IoFailure { message: "TWITTER_API_KEY must not be empty"@ })
            } else if api_key_secret.len() == 0 {
                failure(
                    ErrorModel::IoFailure { message: "TWITTER_API_KEY_SECRET must not be empty"@ },
                )
            } else {
                let creds = CredentialsModel { api_key, api_key_secret };
                match mode {
                    AuthMode::AppOnly => (
                        StateModel::Authenticating,
                        (ActionModel::AcquireBearer { creds }),
                    ),
                    AuthMode::UserPin => (
                        (StateModel::RequestingToken { creds }),
                        (ActionModel::AcquireRequestToken { creds, callback: "oob"@ }),
                    ),
                }
            }
        },
        (StateModel::LoadingConfig { mode }, EventModel::ConfigMissing { var }) => failure(
            ErrorModel::IoFailure { message: var + " env var should be set"@ },
        ),
        (StateModel::Authenticating, EventModel::BearerGranted { bearer }) => (
            (StateModel::Fetching { user: Option::None }),
            fetch_request(TokenModel::Bearer { token: bearer }),
        ),
        (StateModel::Authenticating, EventModel::ApiRejected { message }) => failure(
            ErrorModel::ApiFailure { message },
        ),
        (StateModel::RequestingToken { creds }, EventModel::RequestTokenGranted { key, secret }) => (
            (StateModel::AwaitingPin { creds, request: RequestTokenModel { key, secret } }),
            (ActionModel::PromptPin { request: RequestTokenModel { key, secret } }),
        ),
        (StateModel::RequestingToken { creds }, EventModel::ApiRejected { message }) => failure(
            ErrorModel::ApiFailure { message },
        ),
        (StateModel::AwaitingPin { creds, request }, EventModel::PinProvided { raw }) => (
            (StateModel::ExchangingPin { creds }),
            (ActionModel::ExchangePin { creds, request, pin: trimmed(raw) }),
        ),
        (StateModel::AwaitingPin { creds, request }, EventModel::PinReadFailed { message }) => failure(
            ErrorModel::IoFailure { message },
        ),
        (
            StateModel::ExchangingPin { creds },
            EventModel::AccessGranted { key, secret, user_id, screen_name },
        ) => (
            (StateModel::Fetching {
                user: Option::Some(UserIdentityModel { user_id, screen_name }),
            }),
            fetch_request(
                TokenModel::Access {
                    consumer_key: creds.api_key,
                    consumer_secret: creds.api_key_secret,
                    key,
                    secret,
                },
            ),
        ),
        (StateModel::ExchangingPin { creds }, EventModel::ApiRejected { message }) => failure(
            ErrorModel::ApiFailure { message },
        ),
        (StateModel::Fetching { user }, EventModel::TimelinePage { posts }) => (
            StateModel::Done,
            (ActionModel::Finish { output: rendered_feed(posts) }),
        ),
        (StateModel::Fetching { user }, EventModel::ApiRejected { message }) => failure(
            ErrorModel::ApiFailure { message },
        ),
        (st, _) => (st, ActionModel::Stop),
    }
}

/// The starting pair of a run: the machine waits for the configuration
/// and asks the application to read the two environment variables.
pub open spec fn spec_initial(mode: AuthMode) -> (StateModel, ActionModel) {
    (
        (StateModel::LoadingConfig { mode }),
        (ActionModel::ReadConfig {
            key_var: "TWITTER_API_KEY"@,
            secret_var: "TWITTER_API_KEY_SECRET"@,
        }),
    )
}

fn fail_with(error: TessError) -> (r: (State, Action))
    ensures
        r.0@ == failure(error@).0,
        r.1@ == failure(error@).1,
{
    let copy = error.duplicate();
    (State::Failed { error }, Action::Abort { error: copy })
}

fn fetch_with(token: Token, user: Option<UserIdentity>) -> (r: (State, Action))
    ensures
        r.0@ == (StateModel::Fetching {
            user: match user {
                Option::None => Option::None,
                Option::Some(u) => Option::Some(u@),
            },
        }),
        r.1@ == fetch_request(token@),
{
    (
        State::Fetching { user },
        Action::Fetch {
            token,
            username: String::from_str("rustlang"),
            page_size: 5,
            include_replies: false,
            include_retweets: false,
        },
    )
}

/// Starts a run: the initial state, and the request to read the two
/// environment variables.
pub fn initial(mode: AuthMode) -> (r: (State, Action))
    ensures
        r.0@ == spec_initial(mode).0,
        r.1@ == spec_initial(mode).1,
{
    (
        State::LoadingConfig { mode },
        Action::ReadConfig {
            key_var: String::from_str("TWITTER_API_KEY"),
            secret_var: String::from_str("TWITTER_API_KEY_SECRET"),
        },
    )
}

/// Performs one transition of the run: consumes the current state and
/// the outcome of the last outside operation, returns the next state and
/// the next operation to perform.
pub fn step(s: State, e: Event) -> (r: (State, Action))
    ensures
        r.0@ == spec_step(s@, e@).0,
        r.1@ == spec_step(s@, e@).1,
{
    match (s, e) {
        (State::LoadingConfig { mode }, Event::ConfigRead { api_key, api_key_secret }) => {
            if api_key.as_str().is_empty() {
                fail_with(
                    TessError::from_io(String::from_str("TWITTER_API_KEY must not be empty")),
                )
            } else if api_key_secret.as_str().is_empty() {
                fail_with(
                    TessError::from_io(
                        String::from_str("TWITTER_API_KEY_SECRET must not be empty"),
                    ),
                )
            } else {
                let creds = Credentials { api_key, api_key_secret };
                match mode {
                    AuthMode::AppOnly => (
                        State::Authenticating,
                        Action::AcquireBearer { creds },
                    ),
                    AuthMode::UserPin => {
                        let copy = creds.duplicate();
                        (
                            State::RequestingToken { creds },
                            Action::AcquireRequestToken {
                                creds: copy,
                                callback: String::from_str("oob"),
                            },
                        )
                    },
                }
            }
        },
        (State::LoadingConfig { mode: _ }, Event::ConfigMissing { var }) => {
            fail_with(TessError::from_io(var.concat(" env var should be set")))
        },
        (State::Authenticating, Event::BearerGranted { bearer }) => {
            fetch_with(Token::Bearer { token: bearer }, Option::None)
        },
        (State::Authenticating, Event::ApiRejected { message }) => {
            fail_with(TessError::from_api(message))
        },
        (State::RequestingToken { creds }, Event::RequestTokenGranted { key, secret }) => {
            let request = RequestToken { key, secret };
            let copy = request.duplicate();
            (
                State::AwaitingPin { creds, request },
                Action::PromptPin { request: copy },
            )
        },
        (State::RequestingToken { creds: _ }, Event::ApiRejected { message }) => {
            fail_with(TessError::from_api(message))
        },
        (State::AwaitingPin { creds, request }, Event::PinProvided { raw }) => {
            let pin = trim_whitespace(raw.as_str());
            let copy = creds.duplicate();
            (
                State::ExchangingPin { creds: copy },
                Action::ExchangePin { creds, request, pin },
            )
        },
        (State::AwaitingPin { creds: _, request: _ }, Event::PinReadFailed { message }) => {
            fail_with(TessError::from_io(message))
        },
        (
            State::ExchangingPin { creds },
            Event::AccessGranted { key, secret, user_id, screen_name },
        ) => {
            fetch_with(
                Token::Access {
                    consumer_key: creds.api_key,
                    consumer_secret: creds.api_key_secret,
                    key,
                    secret,
                },
                Option::Some(UserIdentity { user_id, screen_name }),
            )
        },
        (State::ExchangingPin { creds: _ }, Event::ApiRejected { message }) => {
            fail_with(TessError::from_api(message))
        },
        (State::Fetching { user: _ }, Event::TimelinePage { posts }) => {
            let output = render_feed(&posts);
            (State::Done, Action::Finish { output })
        },
        (State::Fetching { user: _ }, Event::ApiRejected { message }) => {
            fail_with(TessError::from_api(message))
        },
        (st, _) => (st, Action::Stop),
    }
}

/// True of the states the app-only flow passes through.
pub open spec fn app_only_flow(s: StateModel) -> bool {
    match s {
        StateModel::LoadingConfig { mode } => mode == AuthMode::AppOnly,
        StateModel::Authenticating => true,
        StateModel::Fetching { user } => user is None,
        StateModel::Done => true,
        StateModel::Failed { error } => true,
        _ => false,
    }
}

/// True of the actions that involve the operator: showing the
/// authorization URL with its PIN prompt, or exchanging a PIN.
pub open spec fn asks_for_pin(a: ActionModel) -> bool {
    a is PromptPin || a is ExchangePin
}

/// True of the actions that reach out over the network.
pub open spec fn contacts_network(a: ActionModel) -> bool {
    a is AcquireBearer || a is AcquireRequestToken || a is ExchangePin || a is Fetch
}

/// The app-only flow never involves the operator: started towards a
/// bearer token, a run stays on that flow, and no transition of it ever
/// asks for a PIN prompt or a PIN exchange.  The token is obtained, and
/// the page fetched, without input.
pub proof fn lemma_app_only_never_prompts(s: StateModel, e: EventModel)
    requires
        app_only_flow(s),
    ensures
        app_only_flow(spec_step(s, e).0),
        !asks_for_pin(spec_step(s, e).1),
{
}

/// A missing environment variable ends the run at once: the machine
/// moves straight to `Failed` and asks only for the abort, never for a
/// network call.
pub proof fn lemma_missing_config_halts(mode: AuthMode, var: Seq<char>)
    ensures
        spec_step((StateModel::LoadingConfig { mode }), (EventModel::ConfigMissing { var })).0 is Failed,
        spec_step((StateModel::LoadingConfig { mode }), (EventModel::ConfigMissing { var })).1 is Abort,
        !contacts_network(
            spec_step((StateModel::LoadingConfig { mode }), (EventModel::ConfigMissing { var })).1,
        ),
{
}

/// An empty credential ends the run the same way: both secrets must be
/// non-empty for any network call to be asked for.
pub proof fn lemma_empty_credential_halts(mode: AuthMode, api_key: Seq<char>, api_key_secret: Seq<char>)
    requires
        api_key.len() == 0 || api_key_secret.len() == 0,
    ensures
        spec_step(
            (StateModel::LoadingConfig { mode }),
            (EventModel::ConfigRead { api_key, api_key_secret }),
        ).0 is Failed,
        !contacts_network(
            spec_step(
                (StateModel::LoadingConfig { mode }),
                (EventModel::ConfigRead { api_key, api_key_secret }),
            ).1,
        ),
{
}

/// The PIN flow opens with exactly one request-token call, made with the
/// loaded credentials and the out-of-band callback `oob` — and with it
/// the run moves to waiting for that token, so the call is not repeated
/// and no prompt can come before it.
pub proof fn lemma_request_token_uses_oob(api_key: Seq<char>, api_key_secret: Seq<char>)
    requires
        api_key.len() > 0,
        api_key_secret.len() > 0,
    ensures
        spec_step(
            (StateModel::LoadingConfig { mode: AuthMode::UserPin }),
            (EventModel::ConfigRead { api_key, api_key_secret }),
        ).0 == (StateModel::RequestingToken {
            creds: (CredentialsModel { api_key, api_key_secret }),
        }),
        spec_step(
            (StateModel::LoadingConfig { mode: AuthMode::UserPin }),
            (EventModel::ConfigRead { api_key, api_key_secret }),
        ).1 == (ActionModel::AcquireRequestToken {
            creds: (CredentialsModel { api_key, api_key_secret }),
            callback: "oob"@,
        }),
{
}

/// Failure is final: once the run has failed, every further event leaves
/// the state unchanged and asks for nothing — no network call, no output.
pub proof fn lemma_failed_is_absorbing(error: ErrorModel, e: EventModel)
    ensures
        spec_step((StateModel::Failed { error }), e).0 == (StateModel::Failed { error }),
        spec_step((StateModel::Failed { error }), e).1 == ActionModel::Stop,
{
}

/// A rejected timeline request surfaces as exactly one `ApiFailure`,
/// carried by the one abort action, and nothing is printed: the
/// transition asks for no output, and by [`lemma_failed_is_absorbing`]
/// none is ever asked for afterwards.
pub proof fn lemma_fetch_failure_aborts(user: Option<UserIdentityModel>, message: Seq<char>)
    ensures
        spec_step((StateModel::Fetching { user }), (EventModel::ApiRejected { message })).0
            == (StateModel::Failed { error: (ErrorModel::ApiFailure { message }) }),
        spec_step((StateModel::Fetching { user }), (EventModel::ApiRejected { message })).1
            == (ActionModel::Abort { error: (ErrorModel::ApiFailure { message }) }),
{
}

/// A successful PIN exchange yields everything at once: the machine
/// records the numeric user id and the reported display name, and the
/// very next request is the timeline fetch, made with an access token
/// built from the consumer pair and the granted pair.
pub proof fn lemma_exchange_yields_token(
    creds: CredentialsModel,
    key: Seq<char>,
    secret: Seq<char>,
    user_id: u64,
    screen_name: Seq<char>,
)
    ensures
        spec_step(
            (StateModel::ExchangingPin { creds }),
            (EventModel::AccessGranted { key, secret, user_id, screen_name }),
        ).0 == (StateModel::Fetching {
            user: Option::Some((UserIdentityModel { user_id, screen_name })),
        }),
        spec_step(
            (StateModel::ExchangingPin { creds }),
            (EventModel::AccessGranted { key, secret, user_id, screen_name }),
        ).1 == fetch_request(
            (TokenModel::Access {
                consumer_key: creds.api_key,
                consumer_secret: creds.api_key_secret,
                key,
                secret,
            }),
        ),
{
}

/// True of the states a run is in once the PIN exchange is behind it.
pub open spec fn exchange_settled(s: StateModel) -> bool {
    s is Fetching || s is Done || s is Failed
}

/// A PIN is exchanged at most once: from the moment the exchange has
/// settled — successfully or not — no later transition asks for another
/// exchange, so no second network round-trip is made for the same PIN.
pub proof fn lemma_no_second_exchange(s: StateModel, e: EventModel)
    requires
        exchange_settled(s),
    ensures
        exchange_settled(spec_step(s, e).0),
        !(spec_step(s, e).1 is ExchangePin),
{
}

/// The PIN handed to the exchange is the typed line with its surrounding
/// whitespace removed, exactly.
pub proof fn lemma_pin_is_trimmed(creds: CredentialsModel, request: RequestTokenModel, raw: Seq<char>)
    ensures
        spec_step((StateModel::AwaitingPin { creds, request }), (EventModel::PinProvided { raw })).1
            == (ActionModel::ExchangePin { creds, request, pin: trimmed(raw) }),
        spec_step((StateModel::AwaitingPin { creds, request }), (EventModel::PinProvided { raw })).0
            == (StateModel::ExchangingPin { creds }),
{
}

} // verus!
