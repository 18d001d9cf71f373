//! The token manager: one call to the task service from the persisted
//! credential to the answer.
//!
//! The caller does the outside work and reports each outcome as an [`Event`];
//! the manager decides what is done next. Every call refreshes the token
//! before it is used. An answer of 401 buys one more refresh and one retry,
//! never a second.

use crate::codec::token_document;
use crate::credential::{Credential, CredentialView};
use crate::error::Error;
use crate::http::{Request, RequestView, Response, ResponseView};
use crate::store::{spec_load, spec_save, TokenStore, TokenStoreView};
use vstd::prelude::*;

verus! {

/// Where a call stands.
#[derive(Clone, Copy, Debug, PartialEq, Eq, Structural)]
pub enum Phase {
    /// The provider has been asked for a new token. `retried` tells whether
    /// the task service has already refused one.
    Refreshing { retried: bool },
    /// The task service has been sent the request.
    Sending { retried: bool },
    /// The call is over.
    Done,
}

/// What the caller reports.
#[derive(Debug)]
pub enum Event {
    /// The provider issued this token set.
    Refreshed(Credential),
    /// The provider refused the refresh.
    RefreshRejected,
    /// The task service answered.
    Responded(Response),
    /// The transport failed before any answer.
    TransportFailed,
}

/// What the caller is to do next.
#[derive(Debug)]
pub enum Action {
    /// Ask the provider for a new token with this refresh token.
    Refresh { refresh_token: String },
    /// Send the request with this `Authorization` header.
    Send { request: Request, authorization: String },
    /// The call is over: this is the answer.
    Deliver(Response),
    /// The call is over: it failed.
    Fail(Error),
    /// The event does not belong to this phase and was ignored.
    Nothing,
}

/// What an [`Event`] holds, as mathematical values.
pub enum EventView {
    Refreshed(CredentialView),
    RefreshRejected,
    Responded(ResponseView),
    TransportFailed,
}

/// What an [`Action`] holds, as mathematical values.
pub enum ActionView {
    Refresh { refresh_token: Seq<char> },
    Send { request: RequestView, authorization: Seq<char> },
    Deliver(ResponseView),
    Fail(Error),
    Nothing,
}

impl View for Event {
    type V = EventView;

    open spec fn view(&self) -> EventView {
        match self {
            Event::Refreshed(credential) => EventView::Refreshed(credential@),
            Event::RefreshRejected => EventView::RefreshRejected,
            Event::Responded(response) => EventView::Responded(response@),
            Event::TransportFailed => EventView::TransportFailed,
        }
    }
}

impl View for Action {
    type V = ActionView;

    open spec fn view(&self) -> ActionView {
        match self {
            Action::Refresh { refresh_token } => ActionView::Refresh {
                refresh_token: refresh_token@,
            },
            Action::Send { request, authorization } => ActionView::Send {
                request: request@,
                authorization: authorization@,
            },
            Action::Deliver(response) => ActionView::Deliver(response@),
            Action::Fail(error) => ActionView::Fail(*error),
            Action::Nothing => ActionView::Nothing,
        }
    }
}

/// What an [`ApiCall`] holds, as mathematical values.
pub struct ApiCallView {
    pub request: RequestView,
    /// The credential in use, absent only where the call ended before it had one.
    pub credential: Option<CredentialView>,
    pub phase: Phase,
}

/// One call to the task service.
#[derive(Debug)]
pub struct ApiCall {
    request: Request,
    credential: Option<Credential>,
    phase: Phase,
}

impl ApiCallView {
    /// A call that is not over holds a credential that can be refreshed.
    pub open spec fn wf(self) -> bool {
        self.phase != Phase::Done ==> self.refreshable()
    }

    /// Whether the call holds a credential with a refresh token.
    pub open spec fn refreshable(self) -> bool {
        match self.credential {
            Some(credential) => credential.refresh_token.is_some(),
            None => false,
        }
    }

    /// The same call, over.
    pub open spec fn finished(self) -> ApiCallView {
        ApiCallView { phase: Phase::Done, ..self }
    }
}

/// The credential that a call starts from: the persisted one, which must
/// hold a refresh token. Without a token file there is `NoCredential`, with
/// an unreadable one `CorruptCredential`, and a credential without a refresh
/// token cannot be refreshed: `AuthorizationFailed`.
pub open spec fn spec_held(store: TokenStoreView) -> Result<CredentialView, Error> {
    match spec_load(store) {
        Ok(credential) => if credential.refresh_token.is_some() {
            Ok(credential)
        } else {
            Err(Error::AuthorizationFailed)
        },
        Err(error) => Err(
            if error == Error::NotAuthenticated {
                Error::NoCredential
            } else {
                error
            },
        ),
    }
}

/// What a refresh that returned `fresh` leaves behind: the renewed
/// credential, persisted over the old one. A renewed credential without a
/// document is not persisted and is reported as `CorruptCredential`.
pub open spec fn spec_adopt(store: TokenStoreView, held: CredentialView, fresh: CredentialView) -> (
    TokenStoreView,
    Result<CredentialView, Error>,
) {
    let kept = held.renewed(fresh);
    if token_document(kept).is_some() {
        (spec_save(store, kept), Ok(kept))
    } else {
        (store, Err(Error::CorruptCredential))
    }
}

/// How a call begins: the credential is loaded and a refresh is asked for.
pub open spec fn spec_start(store: TokenStoreView, request: RequestView) -> (
    ApiCallView,
    ActionView,
) {
    match spec_held(store) {
        Ok(credential) => (
            ApiCallView {
                request,
                credential: Some(credential),
                phase: Phase::Refreshing { retried: false },
            },
            ActionView::Refresh { refresh_token: credential.refresh_token.unwrap() },
        ),
        Err(error) => (
            ApiCallView { request, credential: None, phase: Phase::Done },
            ActionView::Fail(error),
        ),
    }
}

/// How a call goes on after a refresh, given what came of adopting the
/// token set: with the adopted credential the request goes out; without one
/// the call ends with the error. A credential that could not be refreshed
/// again ends the call too, with `AuthorizationFailed`. In every other phase
/// nothing happens.
pub open spec fn spec_resume(call: ApiCallView, adopted: Result<CredentialView, Error>) -> (
    ApiCallView,
    ActionView,
) {
    match call.phase {
        Phase::Refreshing { retried } => match adopted {
            Ok(kept) => if kept.refresh_token.is_some() {
                (
                    ApiCallView {
                        credential: Some(kept),
                        phase: Phase::Sending { retried },
                        ..call
                    },
                    ActionView::Send {
                        request: call.request,
                        authorization: kept.authorization(),
                    },
                )
            } else {
                (call.finished(), ActionView::Fail(Error::AuthorizationFailed))
            },
            Err(error) => (call.finished(), ActionView::Fail(error)),
        },
        _ => (call, ActionView::Nothing),
    }
}

/// What a refreshed token set leads to: it is merged into the credential,
/// persisted, and the request goes out with it.
pub open spec fn spec_on_refreshed(call: ApiCallView, store: TokenStoreView, fresh: CredentialView)
    -> (ApiCallView, TokenStoreView, ActionView)
    recommends
        call.credential.is_some(),
{
    let (saved, adopted) = spec_adopt(store, call.credential.unwrap(), fresh);
    let (next, action) = spec_resume(call, adopted);
    (next, saved, action)
}

/// What an answer of the task service leads to: the first 401 to a refresh,
/// a second to `Unauthorized`, any other answer to the caller.
pub open spec fn spec_on_response(call: ApiCallView, retried: bool, response: ResponseView) -> (
    ApiCallView,
    ActionView,
)
    recommends
        call.refreshable(),
{
    if !response.unauthorized() {
        (call.finished(), ActionView::Deliver(response))
    } else if retried {
        (call.finished(), ActionView::Fail(Error::Unauthorized))
    } else {
        (
            ApiCallView { phase: Phase::Refreshing { retried: true }, ..call },
            ActionView::Refresh { refresh_token: call.credential.unwrap().refresh_token.unwrap() },
        )
    }
}

/// The transition function of a call.
pub open spec fn spec_step(call: ApiCallView, store: TokenStoreView, event: EventView) -> (
    ApiCallView,
    TokenStoreView,
    ActionView,
) {
    match (call.phase, event) {
        (Phase::Refreshing { .. }, EventView::Refreshed(fresh)) => spec_on_refreshed(
            call,
            store,
            fresh,
        ),
        (Phase::Refreshing { .. }, EventView::RefreshRejected) => (
            call.finished(),
            store,
            ActionView::Fail(Error::AuthorizationFailed),
        ),
        (Phase::Sending { retried }, EventView::Responded(response)) => {
            let (next, action) = spec_on_response(call, retried, response);
            (next, store, action)
        },
        (Phase::Refreshing { .. }, EventView::TransportFailed) => (
            call.finished(),
            store,
            ActionView::Fail(Error::NetworkError),
        ),
        (Phase::Sending { .. }, EventView::TransportFailed) => (
            call.finished(),
            store,
            ActionView::Fail(Error::NetworkError),
        ),
        _ => (call, store, ActionView::Nothing),
    }
}

/// Loads the credential that a call starts from. It holds a refresh token.
pub fn held_credential(store: &TokenStore) -> (held: Result<Credential, Error>)
    ensures
        match held {
            Ok(credential) => spec_held(store@) == Ok::<CredentialView, Error>(credential@),
            Err(error) => spec_held(store@) == Err::<CredentialView, Error>(error),
        },
{
    match store.load() {
        Ok(credential) => {
            if credential.refresh_token.is_some() {
                Ok(credential)
            } else {
                Err(Error::AuthorizationFailed)
            }
        },
        Err(Error::NotAuthenticated) => Err(Error::NoCredential),
        Err(error) => Err(error),
    }
}

/// Adopts the token set that a refresh returned: merges it into the
/// credential held so far, overwrites the store with the result and hands it
/// out for the next call.
pub fn adopt_refreshed(store: &mut TokenStore, held: &Credential, fresh: Credential) -> (adopted:
    Result<Credential, Error>)
    ensures
        final(store)@ == spec_adopt(old(store)@, held@, fresh@).0,
        match adopted {
            Ok(kept) => spec_adopt(old(store)@, held@, fresh@).1 == Ok::<CredentialView, Error>(
                kept@,
            ),
            Err(error) => spec_adopt(old(store)@, held@, fresh@).1 == Err::<CredentialView, Error>(
                error,
            ),
        },
{
    let kept = held.renewed(fresh);
    match store.save(&kept) {
        Ok(()) => Ok(kept),
        Err(error) => Err(error),
    }
}

impl View for ApiCall {
    type V = ApiCallView;

    closed spec fn view(&self) -> ApiCallView {
        ApiCallView {
            request: self.request@,
            credential: match self.credential {
                Some(credential) => Some(credential@),
                None => None,
            },
            phase: self.phase,
        }
    }
}

impl ApiCall {
    #[verifier::type_invariant]
    spec fn inv(&self) -> bool {
        self@.wf()
    }

    /// Begins a call: loads the credential and asks for its refresh.
    pub fn start(store: &TokenStore, request: Request) -> (begun: (ApiCall, Action))
        ensures
            (begun.0@, begun.1@) == spec_start(store@, request@),
            begun.0@.wf(),
    {
        match held_credential(store) {
            Ok(credential) => {
                let token = match &credential.refresh_token {
                    Some(token) => token.clone(),
                    None => String::new(),
                };
                (
                    ApiCall {
                        request,
                        credential: Some(credential),
                        phase: Phase::Refreshing { retried: false },
                    },
                    Action::Refresh { refresh_token: token },
                )
            },
            Err(error) => (
                ApiCall { request, credential: None, phase: Phase::Done },
                Action::Fail(error),
            ),
        }
    }

    /// Where the call stands.
    pub fn phase(&self) -> (phase: Phase)
        ensures
            phase == self@.phase,
    {
        self.phase
    }

    /// Whether the call is over.
    pub fn is_done(&self) -> (done: bool)
        ensures
            done == (self@.phase == Phase::Done),
    {
        match self.phase {
            Phase::Done => true,
            _ => false,
        }
    }

    /// Goes on after a refresh, given what came of adopting the token set.
    pub fn resume(&mut self, adopted: Result<Credential, Error>) -> (action: Action)
        ensures
            final(self)@.wf(),
            (final(self)@, action@) == spec_resume(
                old(self)@,
                match adopted {
                    Ok(kept) => Ok(kept@),
                    Err(error) => Err(error),
                },
            ),
    {
        proof {
            use_type_invariant(&*self);
        }
        match self.phase {
            Phase::Refreshing { retried } => match adopted {
                Ok(kept) => {
                    if kept.refresh_token.is_some() {
                        let authorization = kept.authorization();
                        let request = self.request.clone();
                        self.credential = Some(kept);
                        self.phase = Phase::Sending { retried };
                        Action::Send { request, authorization }
                    } else {
                        self.phase = Phase::Done;
                        Action::Fail(Error::AuthorizationFailed)
                    }
                },
                Err(error) => {
                    self.phase = Phase::Done;
                    Action::Fail(error)
                },
            },
            _ => Action::Nothing,
        }
    }

    /// Takes the caller's report and decides what is done next. A refreshed
    /// credential is saved to `store` before the request goes out with it.
    pub fn step(&mut self, store: &mut TokenStore, event: Event) -> (action: Action)
        ensures
            final(self)@.wf(),
            (final(self)@, final(store)@, action@) == spec_step(old(self)@, old(store)@, event@),
    {
        proof {
            use_type_invariant(&*self);
        }
        match (self.phase, event) {
            (Phase::Refreshing { .. }, Event::Refreshed(fresh)) => {
                let adopted = match &self.credential {
                    Some(held) => adopt_refreshed(store, held, fresh),
                    None => Err(Error::NoCredential),
                };
                self.resume(adopted)
            },
            (Phase::Refreshing { .. }, Event::RefreshRejected) => {
                self.phase = Phase::Done;
                Action::Fail(Error::AuthorizationFailed)
            },
            (Phase::Sending { retried }, Event::Responded(response)) => {
                if !response.unauthorized() {
                    self.phase = Phase::Done;
                    Action::Deliver(response)
                } else if retried {
                    self.phase = Phase::Done;
                    Action::Fail(Error::Unauthorized)
                } else {
                    let token = match &self.credential {
                        Some(held) => match &held.refresh_token {
                            Some(token) => Some(token.clone()),
                            None => None,
                        },
                        None => None,
                    };
                    match token {
                        Some(refresh_token) => {
                            self.phase = Phase::Refreshing { retried: true };
                            Action::Refresh { refresh_token }
                        },
                        None => {
                            self.phase = Phase::Done;
                            Action::Fail(Error::AuthorizationFailed)
                        },
                    }
                }
            },
            (Phase::Refreshing { .. }, Event::TransportFailed) => {
                self.phase = Phase::Done;
                Action::Fail(Error::NetworkError)
            },
            (Phase::Sending { .. }, Event::TransportFailed) => {
                self.phase = Phase::Done;
                Action::Fail(Error::NetworkError)
            },
            _ => Action::Nothing,
        }
    }
}

/// The actions that a call takes on a sequence of reports, in order.
pub open spec fn spec_run(call: ApiCallView, store: TokenStoreView, events: Seq<EventView>) -> Seq<
    ActionView,
>
    decreases events.len(),
{
    if events.len() == 0 {
        Seq::empty()
    } else {
        let (next, kept, action) = spec_step(call, store, events.first());
        seq![action] + spec_run(next, kept, events.drop_first())
    }
}

/// How many of the actions send the request.
pub open spec fn sends(actions: Seq<ActionView>) -> nat
    decreases actions.len(),
{
    if actions.len() == 0 {
        0
    } else {
        let rest = sends(actions.drop_first());
        if actions.first() is Send {
            rest + 1
        } else {
            rest
        }
    }
}

/// How many of the actions ask for a refresh.
pub open spec fn refreshes(actions: Seq<ActionView>) -> nat
    decreases actions.len(),
{
    if actions.len() == 0 {
        0
    } else {
        let rest = refreshes(actions.drop_first());
        if actions.first() is Refresh {
            rest + 1
        } else {
            rest
        }
    }
}

/// How often the request can still go out from a phase.
pub open spec fn sends_left(phase: Phase) -> nat {
    match phase {
        Phase::Refreshing { retried: false } => 2,
        Phase::Sending { retried: false } => 1,
        Phase::Refreshing { retried: true } => 1,
        Phase::Sending { retried: true } => 0,
        Phase::Done => 0,
    }
}

/// How often a refresh can still be asked for from a phase.
pub open spec fn refreshes_left(phase: Phase) -> nat {
    match phase {
        Phase::Refreshing { retried: false } => 1,
        Phase::Sending { retried: false } => 1,
        _ => 0,
    }
}

/// A step keeps a call well formed, and pays for each send and each refresh
/// out of what its phase had left.
pub proof fn lemma_step_pays(call: ApiCallView, store: TokenStoreView, event: EventView)
    requires
        call.wf(),
    ensures
        ({
            let (next, kept, action) = spec_step(call, store, event);
            &&& next.wf()
            &&& next.request == call.request
            &&& sends_left(next.phase) + (if action is Send { 1nat } else { 0 }) <= sends_left(
                call.phase,
            )
            &&& refreshes_left(next.phase) + (if action is Refresh { 1nat } else { 0 })
                <= refreshes_left(call.phase)
        }),
{
}

/// Whatever is reported and in whatever order, a call sends the request at
/// most as often as its phase has left, and refreshes likewise.
pub proof fn lemma_run_bounded(call: ApiCallView, store: TokenStoreView, events: Seq<EventView>)
    requires
        call.wf(),
    ensures
        sends(spec_run(call, store, events)) <= sends_left(call.phase),
        refreshes(spec_run(call, store, events)) <= refreshes_left(call.phase),
    decreases events.len(),
{
    if events.len() > 0 {
        let (next, kept, action) = spec_step(call, store, events.first());
        lemma_step_pays(call, store, events.first());
        lemma_run_bounded(next, kept, events.drop_first());
        let rest = spec_run(next, kept, events.drop_first());
        assert((seq![action] + rest).drop_first() =~= rest);
    }
}

/// A whole call, its first action counted, asks for at most two refreshes
/// and sends the request at most twice, whatever is reported and in whatever
/// order.
pub proof fn lemma_call_bounded(
    store: TokenStoreView,
    request: RequestView,
    events: Seq<EventView>,
)
    ensures
        ({
            let (call, first) = spec_start(store, request);
            let actions = seq![first] + spec_run(call, store, events);
            &&& refreshes(actions) <= 2
            &&& sends(actions) <= 2
        }),
{
    let (call, first) = spec_start(store, request);
    let later = spec_run(call, store, events);
    lemma_run_bounded(call, store, events);
    assert((seq![first] + later).drop_first() =~= later);
}

/// A call that is over stays over: it ignores every report and leaves the
/// store alone.
pub proof fn lemma_done_is_final(call: ApiCallView, store: TokenStoreView, event: EventView)
    requires
        call.phase == Phase::Done,
    ensures
        spec_step(call, store, event) == (call, store, ActionView::Nothing),
{
}

/// Never a second loop: the first 401 is answered with one refresh, and
/// whatever is reported after it, in whatever order, the call asks for no
/// further refresh and sends the request at most once more.
pub proof fn lemma_no_second_retry(
    call: ApiCallView,
    store: TokenStoreView,
    first: ResponseView,
    later: Seq<EventView>,
)
    requires
        call.wf(),
        call.phase == (Phase::Sending { retried: false }),
        first.unauthorized(),
    ensures
        ({
            let (asked, kept, action) = spec_step(call, store, EventView::Responded(first));
            &&& action is Refresh
            &&& refreshes(spec_run(asked, kept, later)) == 0
            &&& sends(spec_run(asked, kept, later)) <= 1
        }),
{
    let (asked, kept, action) = spec_step(call, store, EventView::Responded(first));
    lemma_run_bounded(asked, kept, later);
}

/// Nothing is sent without a credential: where the store yields none, or one
/// that cannot be refreshed, the call is over as it begins, with the error
/// of the store, and whatever is reported after that, it neither refreshes
/// nor sends.
pub proof fn lemma_nothing_sent_without_credential(
    store: TokenStoreView,
    request: RequestView,
    events: Seq<EventView>,
)
    requires
        spec_held(store).is_err(),
    ensures
        spec_start(store, request).0.phase == Phase::Done,
        spec_start(store, request).1 == ActionView::Fail(spec_held(store)->Err_0),
        sends(spec_run(spec_start(store, request).0, store, events)) == 0,
        refreshes(spec_run(spec_start(store, request).0, store, events)) == 0,
{
    lemma_run_bounded(spec_start(store, request).0, store, events);
}

/// One refresh, one retry: when the first answer is 401, the call asks for
/// exactly one refresh; the refreshed token buys exactly one more send of
/// the same request; and the second answer ends the call, with
/// `Unauthorized` if it is 401 again and with the answer itself if not.
pub proof fn lemma_refresh_and_retry_once(
    call: ApiCallView,
    store: TokenStoreView,
    first: ResponseView,
    fresh: CredentialView,
    second: ResponseView,
)
    requires
        call.wf(),
        call.phase == (Phase::Sending { retried: false }),
        first.unauthorized(),
        token_document(call.credential.unwrap().renewed(fresh)).is_some(),
    ensures
        ({
            let held = call.credential.unwrap();
            let kept = held.renewed(fresh);
            let (asked, store1, action1) = spec_step(call, store, EventView::Responded(first));
            let (sent, store2, action2) = spec_step(asked, store1, EventView::Refreshed(fresh));
            let (ended, store3, action3) = spec_step(sent, store2, EventView::Responded(second));
            &&& action1 == (ActionView::Refresh { refresh_token: held.refresh_token.unwrap() })
            &&& store1 == store
            &&& action2 == (ActionView::Send {
                request: call.request,
                authorization: kept.authorization(),
            })
            &&& store2 == spec_save(store, kept)
            &&& ended.phase == Phase::Done
            &&& store3 == store2
            &&& action3 == if second.unauthorized() {
                ActionView::Fail(Error::Unauthorized)
            } else {
                ActionView::Deliver(second)
            }
        }),
{
}

} // verus!
