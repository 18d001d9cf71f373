//! The authenticator: the authorization-code flow as a state machine.
//!
//! The caller opens the URL, runs the callback listener and talks to the
//! provider; it reports what happened as an [`AuthEvent`], and the
//! authenticator decides what is done next and what the browser is told.
//! The first callback that carries a code and the session's anti-forgery
//! token is the only one that is exchanged. Every other one is answered with
//! the failure message, and after the first none changes anything. The
//! browser is told of the success only when the credential is on disk.

use crate::codec::token_document;
use crate::credential::{Credential, CredentialView};
use crate::error::Error;
use crate::session::{AuthSession, AuthSessionView};
use crate::store::{spec_save, TokenStore, TokenStoreView};
use crate::text::optional_text;
use vstd::prelude::*;

verus! {

/// Where the flow stands.
#[derive(Clone, Copy, Debug, PartialEq, Eq, Structural)]
pub enum AuthState {
    /// Nothing has been asked of the user yet.
    Idle,
    /// The user has the URL; the listener waits for the redirect.
    AwaitingCode,
    /// The code is being exchanged for a token.
    Exchanging,
    /// The token is there; the store is being written to disk.
    Saving,
    /// The credential is in the store, and the store is on disk.
    Authenticated,
    /// The flow ended without a credential.
    Failed(Error),
}

/// What the browser is told in answer to the redirect.
#[derive(Clone, Copy, Debug, PartialEq, Eq, Structural)]
pub enum Reply {
    Success,
    Failure,
}

/// What the caller reports.
#[derive(Debug)]
pub enum AuthEvent {
    /// The user asked to authenticate.
    Begin,
    /// The listener received a request with these query parameters.
    Callback { code: Option<String>, state: Option<String> },
    /// The provider exchanged the code for this token set.
    Exchanged(Credential),
    /// The provider refused the code.
    ExchangeRejected,
    /// The transport failed before the provider answered.
    TransportFailed,
    /// The store was written to disk.
    Persisted,
    /// The store could not be written to disk.
    PersistFailed,
    /// The time allowed for the flow is over.
    Deadline,
}

/// What the caller is to do next.
#[derive(Debug)]
pub enum AuthAction {
    /// Show the user this URL and start the listener.
    Present { url: String },
    /// Exchange this code at the token endpoint.
    Exchange { code: String },
    /// Write the store to disk and report how it went.
    Persist,
    /// Answer the browser.
    Answer(Reply),
    /// Stop waiting and report this error.
    GiveUp(Error),
    /// The event does not belong to this state and was ignored.
    Nothing,
}

/// What an [`AuthEvent`] holds, as mathematical values.
pub enum AuthEventView {
    Begin,
    Callback { code: Option<Seq<char>>, state: Option<Seq<char>> },
    Exchanged(CredentialView),
    ExchangeRejected,
    TransportFailed,
    Persisted,
    PersistFailed,
    Deadline,
}

/// What an [`AuthAction`] holds, as mathematical values.
pub enum AuthActionView {
    Present { url: Seq<char> },
    Exchange { code: Seq<char> },
    Persist,
    Answer(Reply),
    GiveUp(Error),
    Nothing,
}

impl View for AuthEvent {
    type V = AuthEventView;

    open spec fn view(&self) -> AuthEventView {
        match self {
            AuthEvent::Begin => AuthEventView::Begin,
            AuthEvent::Callback { code, state } => AuthEventView::Callback {
                code: optional_text(*code),
                state: optional_text(*state),
            },
            AuthEvent::Exchanged(credential) => AuthEventView::Exchanged(credential@),
            AuthEvent::ExchangeRejected => AuthEventView::ExchangeRejected,
            AuthEvent::TransportFailed => AuthEventView::TransportFailed,
            AuthEvent::Persisted => AuthEventView::Persisted,
            AuthEvent::PersistFailed => AuthEventView::PersistFailed,
            AuthEvent::Deadline => AuthEventView::Deadline,
        }
    }
}

impl View for AuthAction {
    type V = AuthActionView;

    open spec fn view(&self) -> AuthActionView {
        match self {
            AuthAction::Present { url } => AuthActionView::Present { url: url@ },
            AuthAction::Exchange { code } => AuthActionView::Exchange { code: code@ },
            AuthAction::Persist => AuthActionView::Persist,
            AuthAction::Answer(reply) => AuthActionView::Answer(*reply),
            AuthAction::GiveUp(error) => AuthActionView::GiveUp(*error),
            AuthAction::Nothing => AuthActionView::Nothing,
        }
    }
}

impl Reply {
    /// The body of the plain-text answer.
    pub open spec fn spec_body(self) -> Seq<char> {
        match self {
            Reply::Success => "You have successfully authenticated, this tab can now be closed."@,
            Reply::Failure => "Something went wrong during authentication. Please try again."@,
        }
    }

    /// The body of the plain-text answer.
    pub fn body(self) -> (text: &'static str)
        ensures
            text@ == self.spec_body(),
    {
        match self {
            Reply::Success => "You have successfully authenticated, this tab can now be closed.",
            Reply::Failure => "Something went wrong during authentication. Please try again.",
        }
    }
}

impl AuthState {
    /// Whether the flow is over.
    pub open spec fn terminal(self) -> bool {
        self is Authenticated || self is Failed
    }
}

/// What a redirect leads to while the listener waits for one: with a code
/// and the session's anti-forgery token, to the exchange; without either, to
/// failure.
pub open spec fn spec_on_callback(
    session: AuthSessionView,
    code: Option<Seq<char>>,
    state: Option<Seq<char>>,
) -> (AuthState, AuthActionView) {
    if code.is_some() && session.accepts(state) {
        (AuthState::Exchanging, AuthActionView::Exchange { code: code.unwrap() })
    } else {
        (AuthState::Failed(Error::AuthorizationFailed), AuthActionView::Answer(Reply::Failure))
    }
}

/// What a save of the credential reports: success where the credential has
/// a document, else `CorruptCredential`.
pub open spec fn spec_saved(credential: CredentialView) -> Result<(), Error> {
    if token_document(credential).is_some() {
        Ok(())
    } else {
        Err(Error::CorruptCredential)
    }
}

/// How the flow goes on after the exchange, given what came of saving the
/// credential into the store: saved, the store is to be written to disk;
/// not saved, the flow has failed with the error and the browser is told
/// so. In every other state nothing happens.
pub open spec fn spec_proceed(state: AuthState, saved: Result<(), Error>) -> (
    AuthState,
    AuthActionView,
) {
    match (state, saved) {
        (AuthState::Exchanging, Ok(_)) => (AuthState::Saving, AuthActionView::Persist),
        (AuthState::Exchanging, Err(error)) => (
            AuthState::Failed(error),
            AuthActionView::Answer(Reply::Failure),
        ),
        _ => (state, AuthActionView::Nothing),
    }
}

/// The transition function of the authenticator.
pub open spec fn spec_auth_step(
    session: AuthSessionView,
    state: AuthState,
    store: TokenStoreView,
    event: AuthEventView,
) -> (AuthState, TokenStoreView, AuthActionView) {
    match (state, event) {
        (AuthState::Idle, AuthEventView::Begin) => (
            AuthState::AwaitingCode,
            store,
            AuthActionView::Present { url: session.authorization_url() },
        ),
        (AuthState::AwaitingCode, AuthEventView::Callback { code, state: returned }) => {
            let (next, action) = spec_on_callback(session, code, returned);
            (next, store, action)
        },
        (_, AuthEventView::Callback { .. }) => (
            state,
            store,
            AuthActionView::Answer(Reply::Failure),
        ),
        (AuthState::Exchanging, AuthEventView::Exchanged(credential)) => {
            let (next, action) = spec_proceed(state, spec_saved(credential));
            (next, spec_save(store, credential), action)
        },
        (AuthState::Saving, AuthEventView::Persisted) => (
            AuthState::Authenticated,
            store,
            AuthActionView::Answer(Reply::Success),
        ),
        (AuthState::Saving, AuthEventView::PersistFailed) => (
            AuthState::Failed(Error::StoreFailed),
            store,
            AuthActionView::Answer(Reply::Failure),
        ),
        (AuthState::Exchanging, AuthEventView::ExchangeRejected) => (
            AuthState::Failed(Error::AuthorizationFailed),
            store,
            AuthActionView::Answer(Reply::Failure),
        ),
        (AuthState::Exchanging, AuthEventView::TransportFailed) => (
            AuthState::Failed(Error::NetworkError),
            store,
            AuthActionView::Answer(Reply::Failure),
        ),
        (AuthState::AwaitingCode, AuthEventView::Deadline) => (
            AuthState::Failed(Error::AuthenticationTimedOut),
            store,
            AuthActionView::GiveUp(Error::AuthenticationTimedOut),
        ),
        (AuthState::Exchanging, AuthEventView::Deadline) => (
            AuthState::Failed(Error::AuthenticationTimedOut),
            store,
            AuthActionView::GiveUp(Error::AuthenticationTimedOut),
        ),
        (AuthState::Saving, AuthEventView::Deadline) => (
            AuthState::Failed(Error::AuthenticationTimedOut),
            store,
            AuthActionView::GiveUp(Error::AuthenticationTimedOut),
        ),
        (AuthState::Failed(error), AuthEventView::Deadline) => (
            state,
            store,
            AuthActionView::GiveUp(error),
        ),
        _ => (state, store, AuthActionView::Nothing),
    }
}

/// One authentication from its start to its end.
#[derive(Debug)]
pub struct Authenticator {
    session: AuthSession,
    state: AuthState,
}

impl Authenticator {
    /// Where the flow stands.
    pub closed spec fn spec_state(&self) -> AuthState {
        self.state
    }

    /// The session of this flow.
    pub closed spec fn spec_session(&self) -> AuthSessionView {
        self.session@
    }

    /// An authenticator that has not begun.
    pub fn new(session: AuthSession) -> (authenticator: Authenticator)
        ensures
            authenticator.spec_state() == AuthState::Idle,
            authenticator.spec_session() == session@,
    {
        Authenticator { session, state: AuthState::Idle }
    }

    /// Where the flow stands.
    #[verifier::when_used_as_spec(spec_state)]
    pub fn state(&self) -> (state: AuthState)
        ensures
            state == self.spec_state(),
    {
        self.state
    }

    /// The session of this flow.
    pub fn session(&self) -> (session: &AuthSession)
        ensures
            session@ == self.spec_session(),
    {
        &self.session
    }

    /// Goes on after the exchange, given what came of saving the credential
    /// into the store.
    pub fn proceed(&mut self, saved: Result<(), Error>) -> (action: AuthAction)
        ensures
            final(self).spec_session() == old(self).spec_session(),
            (final(self).spec_state(), action@) == spec_proceed(old(self).spec_state(), saved),
    {
        match (self.state, saved) {
            (AuthState::Exchanging, Ok(_)) => {
                self.state = AuthState::Saving;
                AuthAction::Persist
            },
            (AuthState::Exchanging, Err(error)) => {
                self.state = AuthState::Failed(error);
                AuthAction::Answer(Reply::Failure)
            },
            _ => AuthAction::Nothing,
        }
    }

    /// Takes the caller's report and decides what is done next. The
    /// credential that an exchange brought is saved to `store`, and the
    /// browser is told of the success when the caller has written the store
    /// to disk.
    pub fn step(&mut self, store: &mut TokenStore, event: AuthEvent) -> (action: AuthAction)
        ensures
            final(self).spec_session() == old(self).spec_session(),
            (final(self).spec_state(), final(store)@, action@) == spec_auth_step(
                old(self).spec_session(),
                old(self).spec_state(),
                old(store)@,
                event@,
            ),
    {
        match (self.state, event) {
            (AuthState::Idle, AuthEvent::Begin) => {
                self.state = AuthState::AwaitingCode;
                AuthAction::Present { url: self.session.authorization_url() }
            },
            (AuthState::AwaitingCode, AuthEvent::Callback { code, state }) => {
                let accepted = self.session.accepts(&state);
                match code {
                    Some(code) => {
                        if accepted {
                            self.state = AuthState::Exchanging;
                            AuthAction::Exchange { code }
                        } else {
                            self.state = AuthState::Failed(Error::AuthorizationFailed);
                            AuthAction::Answer(Reply::Failure)
                        }
                    },
                    None => {
                        self.state = AuthState::Failed(Error::AuthorizationFailed);
                        AuthAction::Answer(Reply::Failure)
                    },
                }
            },
            (_, AuthEvent::Callback { .. }) => AuthAction::Answer(Reply::Failure),
            (AuthState::Exchanging, AuthEvent::Exchanged(credential)) => {
                let saved = store.save(&credential);
                self.proceed(saved)
            },
            (AuthState::Saving, AuthEvent::Persisted) => {
                self.state = AuthState::Authenticated;
                AuthAction::Answer(Reply::Success)
            },
            (AuthState::Saving, AuthEvent::PersistFailed) => {
                self.state = AuthState::Failed(Error::StoreFailed);
                AuthAction::Answer(Reply::Failure)
            },
            (AuthState::Exchanging, AuthEvent::ExchangeRejected) => {
                self.state = AuthState::Failed(Error::AuthorizationFailed);
                AuthAction::Answer(Reply::Failure)
            },
            (AuthState::Exchanging, AuthEvent::TransportFailed) => {
                self.state = AuthState::Failed(Error::NetworkError);
                AuthAction::Answer(Reply::Failure)
            },
            (AuthState::AwaitingCode, AuthEvent::Deadline) => {
                self.state = AuthState::Failed(Error::AuthenticationTimedOut);
                AuthAction::GiveUp(Error::AuthenticationTimedOut)
            },
            (AuthState::Exchanging, AuthEvent::Deadline) => {
                self.state = AuthState::Failed(Error::AuthenticationTimedOut);
                AuthAction::GiveUp(Error::AuthenticationTimedOut)
            },
            (AuthState::Saving, AuthEvent::Deadline) => {
                self.state = AuthState::Failed(Error::AuthenticationTimedOut);
                AuthAction::GiveUp(Error::AuthenticationTimedOut)
            },
            (AuthState::Failed(error), AuthEvent::Deadline) => AuthAction::GiveUp(error),
            _ => AuthAction::Nothing,
        }
    }
}

/// The actions that the authenticator takes on a sequence of reports, in order.
pub open spec fn spec_auth_run(
    session: AuthSessionView,
    state: AuthState,
    store: TokenStoreView,
    events: Seq<AuthEventView>,
) -> Seq<AuthActionView>
    decreases events.len(),
{
    if events.len() == 0 {
        Seq::empty()
    } else {
        let (next, kept, action) = spec_auth_step(session, state, store, events.first());
        seq![action] + spec_auth_run(session, next, kept, events.drop_first())
    }
}

/// The store after a sequence of reports.
pub open spec fn spec_auth_store(
    session: AuthSessionView,
    state: AuthState,
    store: TokenStoreView,
    events: Seq<AuthEventView>,
) -> TokenStoreView
    decreases events.len(),
{
    if events.len() == 0 {
        store
    } else {
        let (next, kept, action) = spec_auth_step(session, state, store, events.first());
        spec_auth_store(session, next, kept, events.drop_first())
    }
}

/// How many of the actions exchange a code.
pub open spec fn exchanges(actions: Seq<AuthActionView>) -> nat
    decreases actions.len(),
{
    if actions.len() == 0 {
        0
    } else {
        let rest = exchanges(actions.drop_first());
        if actions.first() is Exchange {
            rest + 1
        } else {
            rest
        }
    }
}

/// How many codes can still be exchanged from a state.
pub open spec fn exchanges_left(state: AuthState) -> nat {
    match state {
        AuthState::Idle => 1,
        AuthState::AwaitingCode => 1,
        _ => 0,
    }
}

/// Only a redirect that carries the session's anti-forgery token is
/// exchanged, and only while the listener waits for its first one.
pub proof fn lemma_exchange_needs_token(
    session: AuthSessionView,
    state: AuthState,
    store: TokenStoreView,
    event: AuthEventView,
)
    requires
        spec_auth_step(session, state, store, event).2 is Exchange,
    ensures
        state == AuthState::AwaitingCode,
        event matches AuthEventView::Callback { code, state: returned } && returned == Some(
            session.csrf_token,
        ) && code == Some(spec_auth_step(session, state, store, event).2->code),
{
}

/// First write wins: once the flow is over, no report changes its outcome or
/// the store, and a late redirect is answered with the failure message.
pub proof fn lemma_first_write_wins(
    session: AuthSessionView,
    state: AuthState,
    store: TokenStoreView,
    event: AuthEventView,
)
    requires
        state.terminal(),
    ensures
        spec_auth_step(session, state, store, event).0 == state,
        spec_auth_step(session, state, store, event).1 == store,
        event is Callback ==> spec_auth_step(session, state, store, event).2
            == AuthActionView::Answer(Reply::Failure),
{
}

/// The store is written at one point only: when the exchange of the accepted
/// code brought a credential, and what is written is a save of that
/// credential. The user counts as authenticated only when that store was
/// reported as written to disk.
pub proof fn lemma_store_written_by_exchange_only(
    session: AuthSessionView,
    state: AuthState,
    store: TokenStoreView,
    event: AuthEventView,
)
    ensures
        ({
            let (next, kept, action) = spec_auth_step(session, state, store, event);
            &&& kept != store ==> state == AuthState::Exchanging && event is Exchanged
            &&& next == AuthState::Saving && state != AuthState::Saving ==> {
                &&& event matches AuthEventView::Exchanged(credential)
                &&& kept == spec_save(store, credential)
                &&& kept.contents.is_some()
            }
            &&& next == AuthState::Authenticated && state != AuthState::Authenticated ==> {
                &&& state == AuthState::Saving
                &&& event is Persisted
                &&& action == AuthActionView::Answer(Reply::Success)
            }
            &&& action == AuthActionView::Answer(Reply::Success) ==> {
                &&& state == AuthState::Saving
                &&& event is Persisted
            }
        }),
{
}

/// Only the accepted redirect is not refused: every redirect but the one
/// that carries a code and the session's anti-forgery token while the
/// listener waits for its first is answered with the failure message. No
/// code is exchanged for it and the store stays as it is. While the listener
/// waits, it fails the flow with `AuthorizationFailed`; in every other state
/// the flow stays where it is.
pub proof fn lemma_redirect_refused(
    session: AuthSessionView,
    state: AuthState,
    store: TokenStoreView,
    code: Option<Seq<char>>,
    returned: Option<Seq<char>>,
)
    requires
        !(state == AuthState::AwaitingCode && code.is_some() && session.accepts(returned)),
    ensures
        spec_auth_step(session, state, store, AuthEventView::Callback { code, state: returned })
            == (
            if state == AuthState::AwaitingCode {
                AuthState::Failed(Error::AuthorizationFailed)
            } else {
                state
            },
            store,
            AuthActionView::Answer(Reply::Failure),
        ),
{
}

/// A step pays for an exchange out of what its state had left.
pub proof fn lemma_auth_step_pays(
    session: AuthSessionView,
    state: AuthState,
    store: TokenStoreView,
    event: AuthEventView,
)
    ensures
        ({
            let (next, kept, action) = spec_auth_step(session, state, store, event);
            exchanges_left(next) + (if action is Exchange { 1nat } else { 0 }) <= exchanges_left(
                state,
            )
        }),
{
}

/// Whatever is reported and in whatever order, one flow exchanges at most
/// one code.
pub proof fn lemma_at_most_one_exchange(
    session: AuthSessionView,
    state: AuthState,
    store: TokenStoreView,
    events: Seq<AuthEventView>,
)
    ensures
        exchanges(spec_auth_run(session, state, store, events)) <= exchanges_left(state),
    decreases events.len(),
{
    if events.len() > 0 {
        let (next, kept, action) = spec_auth_step(session, state, store, events.first());
        lemma_auth_step_pays(session, state, store, events.first());
        lemma_at_most_one_exchange(session, next, kept, events.drop_first());
        let rest = spec_auth_run(session, next, kept, events.drop_first());
        assert((seq![action] + rest).drop_first() =~= rest);
    }
}

/// Once the flow is over, the store stays as it is under every sequence of
/// reports: duplicate redirects cannot corrupt it.
pub proof fn lemma_store_settled(
    session: AuthSessionView,
    state: AuthState,
    store: TokenStoreView,
    events: Seq<AuthEventView>,
)
    requires
        state.terminal(),
    ensures
        spec_auth_store(session, state, store, events) == store,
    decreases events.len(),
{
    if events.len() > 0 {
        lemma_first_write_wins(session, state, store, events.first());
        lemma_store_settled(session, state, store, events.drop_first());
    }
}

} // verus!
