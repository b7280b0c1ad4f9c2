use tess::error::TessError;
use tess::machine::Action;
use tess::machine::AuthMode;
use tess::machine::Event;
use tess::machine::State;
use tess::machine::Token;
use tess::machine::UserIdentity;
use tess::machine::initial;
use tess::machine::step;

fn s(text: &str) -> String {
    String::from(text)
}

#[test]
fn bearer_flow_obtains_token_without_prompt() {
    let (state, action) = initial(AuthMode::AppOnly);
    match &action {
        Action::ReadConfig { key_var, secret_var } => {
            assert_eq!(key_var, "TWITTER_API_KEY");
            assert_eq!(secret_var, "TWITTER_API_KEY_SECRET");
        },
        other => panic!("expected ReadConfig, got {:?}", other),
    }

    let (state, action) = step(
        state,
        Event::ConfigRead { api_key: s("key"), api_key_secret: s("secret") },
    );
    assert_eq!(state, State::Authenticating);
    match &action {
        Action::AcquireBearer { creds } => {
            assert_eq!(creds.api_key, "key");
            assert_eq!(creds.api_key_secret, "secret");
        },
        other => panic!("expected AcquireBearer, got {:?}", other),
    }

    let (state, action) = step(state, Event::BearerGranted { bearer: s("AAAA") });
    assert_eq!(state, State::Fetching { user: None });
    match &action {
        Action::Fetch { token, username, page_size, include_replies, include_retweets } => {
            assert_eq!(*token, Token::Bearer { token: s("AAAA") });
            assert_eq!(username, "rustlang");
            assert_eq!(*page_size, 5);
            assert!(!*include_replies);
            assert!(!*include_retweets);
        },
        other => panic!("expected Fetch, got {:?}", other),
    }
}

#[test]
fn missing_env_var_stops_before_network() {
    let (state, _action) = initial(AuthMode::AppOnly);
    let (state, action) = step(state, Event::ConfigMissing { var: s("TWITTER_API_KEY") });
    let expected = TessError::IoFailure { message: s("TWITTER_API_KEY env var should be set") };
    assert_eq!(state, State::Failed { error: expected });
    match action {
        Action::Abort { error } => {
            assert_eq!(error.describe(), "IoError: TWITTER_API_KEY env var should be set");
        },
        other => panic!("expected Abort, got {:?}", other),
    }
}

#[test]
fn empty_api_key_is_rejected_at_load() {
    let (state, _action) = initial(AuthMode::AppOnly);
    let (state, action) = step(
        state,
        Event::ConfigRead { api_key: s(""), api_key_secret: s("secret") },
    );
    assert!(matches!(state, State::Failed { .. }));
    match action {
        Action::Abort { error } => {
            assert_eq!(
                error,
                TessError::IoFailure { message: s("TWITTER_API_KEY must not be empty") },
            );
        },
        other => panic!("expected Abort, got {:?}", other),
    }
}

#[test]
fn empty_api_key_secret_is_rejected_at_load() {
    let (state, _action) = initial(AuthMode::UserPin);
    let (state, action) = step(
        state,
        Event::ConfigRead { api_key: s("key"), api_key_secret: s("") },
    );
    assert!(matches!(state, State::Failed { .. }));
    match action {
        Action::Abort { error } => {
            assert_eq!(
                error,
                TessError::IoFailure { message: s("TWITTER_API_KEY_SECRET must not be empty") },
            );
        },
        other => panic!("expected Abort, got {:?}", other),
    }
}

#[test]
fn timeline_error_aborts_without_output() {
    let state = State::Fetching { user: None };
    let (state, action) = step(state, Event::ApiRejected { message: s("rate limited") });
    let expected = TessError::ApiFailure { message: s("rate limited") };
    assert_eq!(state, State::Failed { error: expected });
    match action {
        Action::Abort { error } => {
            assert_eq!(error.describe(), "TwitterAPIError: rate limited");
        },
        other => panic!("expected Abort, got {:?}", other),
    }

    // Failure is final: a late page produces no output at all.
    let (state, action) = step(state, Event::TimelinePage { posts: vec![s("late post")] });
    assert!(matches!(state, State::Failed { .. }));
    assert_eq!(action, Action::Stop);
}

#[test]
fn pin_flow_exchanges_trimmed_pin_once() {
    let (state, _action) = initial(AuthMode::UserPin);

    let (state, action) = step(
        state,
        Event::ConfigRead { api_key: s("ck"), api_key_secret: s("cs") },
    );
    assert!(matches!(state, State::RequestingToken { .. }));
    match &action {
        Action::AcquireRequestToken { creds, callback } => {
            assert_eq!(creds.api_key, "ck");
            assert_eq!(creds.api_key_secret, "cs");
            assert_eq!(callback, "oob");
        },
        other => panic!("expected AcquireRequestToken, got {:?}", other),
    }

    let (state, action) = step(
        state,
        Event::RequestTokenGranted { key: s("rk"), secret: s("rs") },
    );
    assert!(matches!(state, State::AwaitingPin { .. }));
    match &action {
        Action::PromptPin { request } => {
            assert_eq!(request.key, "rk");
            assert_eq!(request.secret, "rs");
        },
        other => panic!("expected PromptPin, got {:?}", other),
    }

    let (state, action) = step(state, Event::PinProvided { raw: s("  7654321 \n") });
    assert!(matches!(state, State::ExchangingPin { .. }));
    match &action {
        Action::ExchangePin { creds, request, pin } => {
            assert_eq!(creds.api_key, "ck");
            assert_eq!(creds.api_key_secret, "cs");
            assert_eq!(request.key, "rk");
            assert_eq!(request.secret, "rs");
            assert_eq!(pin, "7654321");
        },
        other => panic!("expected ExchangePin, got {:?}", other),
    }

    let (state, action) = step(
        state,
        Event::AccessGranted {
            key: s("ak"),
            secret: s("as"),
            user_id: 42,
            screen_name: s("rustlang"),
        },
    );
    // One round-trip yields the token, the numeric id and the name ...
    assert_eq!(
        state,
        State::Fetching {
            user: Some(UserIdentity { user_id: 42, screen_name: s("rustlang") }),
        },
    );
    // ... and the next request is already the fetch, not a second exchange.
    match &action {
        Action::Fetch { token, .. } => {
            assert_eq!(
                *token,
                Token::Access {
                    consumer_key: s("ck"),
                    consumer_secret: s("cs"),
                    key: s("ak"),
                    secret: s("as"),
                },
            );
        },
        other => panic!("expected Fetch, got {:?}", other),
    }

    let (state, action) = step(state, Event::TimelinePage { posts: vec![s("post one")] });
    assert_eq!(state, State::Done);
    assert!(matches!(action, Action::Finish { .. }));
}

#[test]
fn pin_read_failure_is_an_io_failure() {
    let (state, _action) = initial(AuthMode::UserPin);
    let (state, _action) = step(
        state,
        Event::ConfigRead { api_key: s("ck"), api_key_secret: s("cs") },
    );
    let (state, _action) = step(
        state,
        Event::RequestTokenGranted { key: s("rk"), secret: s("rs") },
    );
    let (state, action) = step(state, Event::PinReadFailed { message: s("console gone") });
    let expected = TessError::IoFailure { message: s("console gone") };
    assert_eq!(state, State::Failed { error: expected });
    assert!(matches!(action, Action::Abort { .. }));
}

#[test]
fn request_token_rejection_propagates() {
    let (state, _action) = initial(AuthMode::UserPin);
    let (state, _action) = step(
        state,
        Event::ConfigRead { api_key: s("ck"), api_key_secret: s("cs") },
    );
    let (state, action) = step(state, Event::ApiRejected { message: s("denied") });
    let expected = TessError::ApiFailure { message: s("denied") };
    assert_eq!(state, State::Failed { error: expected });
    assert!(matches!(action, Action::Abort { .. }));
}

#[test]
fn done_ignores_further_events() {
    let (state, action) = step(State::Done, Event::BearerGranted { bearer: s("AAAA") });
    assert_eq!(state, State::Done);
    assert_eq!(action, Action::Stop);
}

#[test]
fn mismatched_event_changes_nothing() {
    let (state, action) = step(
        State::Authenticating,
        Event::TimelinePage { posts: vec![s("post")] },
    );
    assert_eq!(state, State::Authenticating);
    assert_eq!(action, Action::Stop);
}
