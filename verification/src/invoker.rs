//! The life of one portal call, from the choice of its token to its result.
//!
//! The invoker holds no connection. Whoever drives it makes the bus call and
//! listens for signals, and tells the invoker what happened; the invoker
//! keeps the state of the request, decides where to listen, and turns the
//! completion signal into the caller's result.
//!
//! A request is `Created` with its subscription armed on the predicted
//! path, `AwaitingCall` once the call is on its way, `AwaitingSignal` once
//! the call has returned the path of the request, and `Resolved` once the
//! caller holds the result. A caller that loses interest while the request
//! is under way leaves it `Abandoned`.

use vstd::prelude::*;

use crate::desktop::handle_token::{
    generated_text, lemma_generated_injective, next_counter, HandleToken, HandleTokenGenerator,
};
use crate::desktop::request::{
    identity_ok, lemma_distinct_tokens_distinct_paths, predict_path, predicted_text,
    PendingRequest, PendingView, RequestPath,
};
use crate::desktop::response::is_mapped;
use crate::error::Error;

verus! {

/// How a request ended.
#[derive(Debug, Clone, Copy, PartialEq, Eq, Structural)]
pub enum Resolution {
    /// The caller holds the decoded result.
    Success,
    /// The user dismissed the dialog.
    Cancelled,
    /// The call failed, the portal reported a failure, or the payload did
    /// not decode.
    Error,
}

/// Where a request stands.
#[derive(Debug, Clone, Copy, PartialEq, Eq, Structural)]
pub enum RequestState {
    /// Token and path are chosen and the subscription is armed.
    Created,
    /// The call is on its way.
    AwaitingCall,
    /// The call has returned; the completion signal is awaited.
    AwaitingSignal,
    /// The result was handed to the caller.
    Resolved(Resolution),
    /// The caller gave the request up.
    Abandoned,
}

impl RequestState {
    /// The request is under way: signals are listened for, and giving it up
    /// owes the portal a `Close`.
    pub open spec fn under_way(self) -> bool {
        self is AwaitingCall || self is AwaitingSignal
    }

    /// Nothing will happen to the request any more.
    pub open spec fn terminal(self) -> bool {
        self is Resolved || self is Abandoned
    }

    /// `next` is reached from `self` in one step of the lifecycle. No step
    /// passes over a state: a result by signal comes only to a request that
    /// awaits its signal. Only the failure of the call itself ends a request
    /// that still awaits its call.
    pub open spec fn steps_to(self, next: RequestState) -> bool {
        match (self, next) {
            (RequestState::Created, RequestState::AwaitingCall) => true,
            (RequestState::AwaitingCall, RequestState::AwaitingSignal) => true,
            (RequestState::AwaitingCall, RequestState::Resolved(Resolution::Error)) => true,
            (RequestState::AwaitingSignal, RequestState::Resolved(_)) => true,
            (RequestState::AwaitingCall, RequestState::Abandoned) => true,
            (RequestState::AwaitingSignal, RequestState::Abandoned) => true,
            _ => false,
        }
    }
}

/// How the caller's result counts as a resolution.
pub open spec fn resolution_of<T>(result: Result<T, Error>) -> Resolution {
    match result {
        Ok(_) => Resolution::Success,
        Err(Error::Cancelled) => Resolution::Cancelled,
        Err(_) => Resolution::Error,
    }
}

/// An invocation as a value: its state, its token and its pending request.
pub struct InvocationView<P> {
    pub state: RequestState,
    pub token: Seq<char>,
    pub pending: PendingView<P>,
}

impl<P> InvocationView<P> {
    /// A new invocation: the subscription is armed on the path predicted
    /// from `identity` and `token`.
    pub open spec fn created(identity: Seq<char>, token: Seq<char>) -> Self {
        InvocationView {
            state: RequestState::Created,
            token,
            pending: PendingView::armed(predicted_text(identity, token)),
        }
    }

    /// The pending request is live exactly as long as the invocation has
    /// not ended, and nothing can arrive before the call is made.
    pub open spec fn wf(self) -> bool {
        &&& self.pending.live() <==> !self.state.terminal()
        &&& self.state is Created ==> self.pending.slot is Empty
    }

    /// After the call was sent.
    pub open spec fn issue(self) -> Self {
        if self.state is Created {
            InvocationView { state: RequestState::AwaitingCall, ..self }
        } else {
            self
        }
    }

    /// After a completion signal arrived on `path`.
    pub open spec fn signal(self, path: Seq<char>, status: u32, payload: P) -> Self {
        if self.state.under_way() {
            InvocationView { pending: self.pending.deliver(path, status, payload), ..self }
        } else {
            self
        }
    }

    /// After the call returned the path `actual`.
    pub open spec fn call_returned(self, actual: Seq<char>) -> Self {
        if self.state is AwaitingCall {
            InvocationView {
                state: RequestState::AwaitingSignal,
                pending: self.pending.resubscribe(actual),
                ..self
            }
        } else {
            self
        }
    }

    /// After the call itself failed.
    pub open spec fn call_failed(self) -> Self {
        if self.state is AwaitingCall {
            InvocationView {
                state: RequestState::Resolved(Resolution::Error),
                pending: self.pending.abandon(),
                ..self
            }
        } else {
            self
        }
    }

    /// The result can be handed to the caller now.
    pub open spec fn can_resolve(self) -> bool {
        self.state is AwaitingSignal && self.pending.slot is Filled
    }

    /// After the result was handed to the caller.
    pub open spec fn resolve(self, resolution: Resolution) -> Self {
        if self.can_resolve() {
            InvocationView {
                state: RequestState::Resolved(resolution),
                pending: self.pending.take(),
                ..self
            }
        } else {
            self
        }
    }

    /// Where a `Close` is owed when the caller gives up now.
    pub open spec fn close_target(self) -> Option<Seq<char>> {
        if self.state.under_way() {
            self.pending.close_target()
        } else {
            None
        }
    }

    /// After the caller gave up.
    pub open spec fn abandon(self) -> Self {
        if self.state.under_way() {
            InvocationView {
                state: RequestState::Abandoned,
                pending: self.pending.abandon(),
                ..self
            }
        } else {
            self
        }
    }
}

/// One portal call and the request that it opens.
#[derive(Debug)]
pub struct Invocation<P> {
    state: RequestState,
    token: HandleToken,
    pending: PendingRequest<P>,
}

impl<P> View for Invocation<P> {
    type V = InvocationView<P>;

    closed spec fn view(&self) -> InvocationView<P> {
        InvocationView { state: self.state, token: self.token@, pending: self.pending@ }
    }
}

impl<P> Invocation<P> {
    /// Prepares a call under `token` on the connection `identity`: predicts
    /// the path of the request and arms the subscription on it. Fails only
    /// on a malformed identity.
    pub fn new(identity: &str, token: HandleToken) -> (r: Result<Self, Error>)
        ensures
            r is Ok <==> identity_ok(identity@),
            r is Ok ==> r->Ok_0@ == InvocationView::<P>::created(identity@, token@)
                && r->Ok_0@.wf(),
            r is Err ==> r->Err_0 == Error::ParseError("Invalid unique bus name"),
    {
        let predicted = predict_path(identity, &token);
        match predicted {
            Ok(path) => {
                Ok(
                    Invocation {
                        state: RequestState::Created,
                        token,
                        pending: PendingRequest::subscribe(path),
                    },
                )
            },
            Err(error) => Err(error),
        }
    }

    /// Prepares a call under a fresh token of `generator`.
    pub fn with_fresh_token(generator: &mut HandleTokenGenerator, identity: &str) -> (r: Result<
        Self,
        Error,
    >)
        ensures
            final(generator)@ == next_counter(old(generator)@),
            r is Ok <==> identity_ok(identity@),
            r is Ok ==> r->Ok_0@ == InvocationView::<P>::created(
                identity@,
                generated_text(old(generator)@),
            ) && r->Ok_0@.wf(),
            r is Err ==> r->Err_0 == Error::ParseError("Invalid unique bus name"),
    {
        let token = generator.generate();
        Invocation::new(identity, token)
    }

    /// Where the request stands.
    pub fn state(&self) -> (r: RequestState)
        ensures
            r == self@.state,
    {
        self.state
    }

    /// The token of the request, to be sent with the options of the call.
    pub fn token(&self) -> (r: &HandleToken)
        ensures
            r@ == self@.token,
    {
        &self.token
    }

    /// The path on which the completion signal is listened for.
    pub fn path(&self) -> (r: &RequestPath)
        ensures
            r@ == self@.pending.path,
    {
        self.pending.path()
    }

    /// Tells whether the result can be handed out now.
    pub fn is_ready(&self) -> (r: bool)
        ensures
            r == self@.can_resolve(),
    {
        let awaiting = match self.state {
            RequestState::AwaitingSignal => true,
            _ => false,
        };
        awaiting && self.pending.is_ready()
    }

    /// Notes that the call was sent. Returns whether the request had been
    /// `Created`; in any other state nothing changes.
    pub fn issue(&mut self) -> (issued: bool)
        ensures
            issued == (old(self)@.state is Created),
            final(self)@ == old(self)@.issue(),
    {
        match self.state {
            RequestState::Created => {
                self.state = RequestState::AwaitingCall;
                true
            },
            _ => false,
        }
    }

    /// Hands in a completion signal that arrived on `path`. A request under
    /// way keeps the first signal on its path, whether or not the call has
    /// returned yet. Returns whether the signal was kept.
    pub fn on_signal(&mut self, path: &RequestPath, status: u32, payload: P) -> (kept: bool)
        ensures
            kept == (old(self)@.state.under_way() && old(self)@.pending.accepts(path@)),
            final(self)@ == old(self)@.signal(path@, status, payload),
    {
        match self.state {
            RequestState::AwaitingCall | RequestState::AwaitingSignal => self.pending.deliver(
                path,
                status,
                payload,
            ),
            _ => false,
        }
    }

    /// Notes that the call returned the path `actual`, which decides where
    /// the signal will arrive. Where it differs from the path listened on,
    /// the subscription moves there before any result is awaited. Returns
    /// whether it moved, so that the listener on the bus can follow.
    pub fn call_returned(&mut self, actual: RequestPath) -> (moved: bool)
        ensures
            moved == (old(self)@.state is AwaitingCall && old(self)@.pending.live()
                && old(self)@.pending.path != actual@),
            final(self)@ == old(self)@.call_returned(actual@),
    {
        match self.state {
            RequestState::AwaitingCall => {
                self.state = RequestState::AwaitingSignal;
                if self.pending.path().same(&actual) {
                    assert(self@ =~= old(self)@.call_returned(actual@)) by {
                        assert(self.pending@ == old(self).pending@.resubscribe(actual@));
                    }
                    false
                } else {
                    self.pending.resubscribe(actual)
                }
            },
            _ => false,
        }
    }

    /// Notes that the call itself failed. The request ends at once, without
    /// waiting for a signal. Returns the error for the caller, or `None`
    /// where no call was awaited.
    pub fn call_failed(&mut self, message: String) -> (r: Option<Error>)
        ensures
            r is Some <==> old(self)@.state is AwaitingCall,
            r is Some ==> r->0 == Error::Transport(message),
            final(self)@ == old(self)@.call_failed(),
    {
        match self.state {
            RequestState::AwaitingCall => {
                self.state = RequestState::Resolved(Resolution::Error);
                let _ = self.pending.abandon();
                Some(Error::Transport(message))
            },
            _ => None,
        }
    }

    /// Hands out the result, if the request awaits its signal and the
    /// signal has arrived: the signal is mapped with `decode`, and the
    /// request is resolved accordingly. Otherwise nothing changes.
    pub fn poll<T, D: FnOnce(P) -> Option<T>>(&mut self, decode: D) -> (r: Option<Result<T, Error>>)
        requires
            old(self)@.can_resolve() ==> (old(self)@.pending.slot->Filled_0 == 0
                ==> decode.requires((old(self)@.pending.slot->Filled_1,))),
        ensures
            r is Some <==> old(self)@.can_resolve(),
            r is Some ==> is_mapped(
                old(self)@.pending.slot->Filled_0,
                old(self)@.pending.slot->Filled_1,
                decode,
                r->0,
            ),
            r is Some ==> final(self)@ == old(self)@.resolve(resolution_of(r->0)),
            r is None ==> final(self)@ == old(self)@,
    {
        if !self.is_ready() {
            return None;
        }
        match self.pending.take() {
            Some((status, payload)) => {
                let result = crate::desktop::response::map(status, payload, decode);
                self.state = RequestState::Resolved(resolution(&result));
                Some(result)
            },
            None => None,
        }
    }

    /// Gives up a request that is under way. Returns the path to which a
    /// `Close` is to be sent, once; in any other state nothing changes and
    /// nothing is to be sent.
    pub fn abandon(&mut self) -> (close: Option<RequestPath>)
        ensures
            close is Some <==> old(self)@.close_target() is Some,
            close is Some ==> close->0@ == old(self)@.pending.path,
            final(self)@ == old(self)@.abandon(),
    {
        match self.state {
            RequestState::AwaitingCall | RequestState::AwaitingSignal => {
                self.state = RequestState::Abandoned;
                self.pending.abandon()
            },
            _ => None,
        }
    }
}

/// Sorts the caller's result into the three ways in which a request ends.
pub fn resolution<T>(result: &Result<T, Error>) -> (r: Resolution)
    ensures
        r == resolution_of(*result),
{
    match result {
        Ok(_) => Resolution::Success,
        Err(Error::Cancelled) => Resolution::Cancelled,
        Err(_) => Resolution::Error,
    }
}

/// Whatever happens to a request, it stays where it is or takes one step
/// of the lifecycle, and its pending request stays in keeping with its
/// state.
pub proof fn lemma_lifecycle_is_followed<P>(
    invocation: InvocationView<P>,
    path: Seq<char>,
    status: u32,
    payload: P,
    resolution: Resolution,
)
    requires
        invocation.wf(),
    ensures
        invocation.state.steps_to(invocation.issue().state) || invocation.issue() == invocation,
        invocation.signal(path, status, payload).state == invocation.state,
        invocation.state.steps_to(invocation.call_returned(path).state) || invocation.call_returned(
            path,
        ) == invocation,
        invocation.state.steps_to(invocation.call_failed().state) || invocation.call_failed()
            == invocation,
        invocation.state.steps_to(invocation.resolve(resolution).state) || invocation.resolve(
            resolution,
        ) == invocation,
        invocation.state.steps_to(invocation.abandon().state) || invocation.abandon()
            == invocation,
        invocation.issue().wf(),
        invocation.signal(path, status, payload).wf(),
        invocation.call_returned(path).wf(),
        invocation.call_failed().wf(),
        invocation.resolve(resolution).wf(),
        invocation.abandon().wf(),
{
}

/// Once a request is resolved or abandoned, nothing changes it: later
/// signals and replies are dropped, no result is handed out again, and no
/// `Close` is owed.
pub proof fn lemma_ended_request_is_inert<P>(
    invocation: InvocationView<P>,
    path: Seq<char>,
    status: u32,
    payload: P,
    resolution: Resolution,
)
    requires
        invocation.wf(),
        invocation.state.terminal(),
    ensures
        invocation.issue() == invocation,
        invocation.signal(path, status, payload) == invocation,
        invocation.call_returned(path) == invocation,
        invocation.call_failed() == invocation,
        !invocation.can_resolve(),
        invocation.resolve(resolution) == invocation,
        invocation.close_target() is None,
        invocation.abandon() == invocation,
{
}

/// A signal that arrives while the call is still awaited is not lost: once
/// the call has returned, whatever path it names, the result can be handed
/// out and is that signal's.
pub proof fn lemma_early_signal_is_delivered<P>(
    invocation: InvocationView<P>,
    status: u32,
    payload: P,
    actual: Seq<char>,
)
    requires
        invocation.wf(),
        invocation.state is AwaitingCall,
        invocation.pending.slot is Empty,
    ensures
        invocation.signal(invocation.pending.path, status, payload).call_returned(
            actual,
        ).can_resolve(),
        invocation.signal(invocation.pending.path, status, payload).call_returned(
            actual,
        ).pending.taken() == Some((status, payload)),
{
}

/// No result is handed out before the call has returned, and once it has,
/// the request listens on the path that the call named: a signal sent there
/// is kept, and one sent to a different path that was predicted is not.
pub proof fn lemma_reply_decides_the_path<P>(
    invocation: InvocationView<P>,
    actual: Seq<char>,
    status: u32,
    payload: P,
)
    requires
        invocation.wf(),
        invocation.state is AwaitingCall,
        invocation.pending.slot is Empty,
    ensures
        !invocation.can_resolve(),
        invocation.call_returned(actual).state is AwaitingSignal,
        invocation.call_returned(actual).pending.path == actual,
        invocation.call_returned(actual).signal(actual, status, payload).pending.taken() == Some(
            (status, payload),
        ),
        invocation.pending.path != actual ==> invocation.call_returned(actual).signal(
            invocation.pending.path,
            status,
            payload,
        ) == invocation.call_returned(actual),
{
}

/// Giving up a request that is under way owes exactly one `Close`, to the
/// path held. After that none is owed, signals for the path are dropped and
/// no result is handed out.
pub proof fn lemma_abandon_sends_one_close<P>(
    invocation: InvocationView<P>,
    path: Seq<char>,
    status: u32,
    payload: P,
)
    requires
        invocation.wf(),
        invocation.state.under_way(),
    ensures
        invocation.close_target() == Some(invocation.pending.path),
        invocation.abandon().state is Abandoned,
        invocation.abandon().close_target() is None,
        invocation.abandon().abandon() == invocation.abandon(),
        invocation.abandon().signal(path, status, payload) == invocation.abandon(),
        !invocation.abandon().can_resolve(),
{
}

/// Calls that take their tokens from different counters of a generator
/// listen, on one connection, on different paths: no path has two requests.
pub proof fn lemma_fresh_calls_have_their_own_paths<P>(identity: Seq<char>, first: u64, second: u64)
    requires
        first != second,
    ensures
        InvocationView::<P>::created(identity, generated_text(first)).pending.path
            != InvocationView::<P>::created(identity, generated_text(second)).pending.path,
{
    if generated_text(first) == generated_text(second) {
        lemma_generated_injective(first, second);
    }
    lemma_distinct_tokens_distinct_paths(
        identity,
        generated_text(first),
        generated_text(second),
    );
}

/// Two requests on different paths do not touch each other: when the
/// signal of the second arrives before that of the first, each still
/// receives its own.
pub proof fn lemma_requests_resolve_independently<P>(
    first: InvocationView<P>,
    second: InvocationView<P>,
    first_status: u32,
    first_payload: P,
    second_status: u32,
    second_payload: P,
)
    requires
        first.wf(),
        second.wf(),
        first.state is AwaitingSignal,
        second.state is AwaitingSignal,
        first.pending.slot is Empty,
        second.pending.slot is Empty,
        first.pending.path != second.pending.path,
    ensures
        first.signal(second.pending.path, second_status, second_payload) == first,
        first.signal(second.pending.path, second_status, second_payload).signal(
            first.pending.path,
            first_status,
            first_payload,
        ).pending.taken() == Some((first_status, first_payload)),
        second.signal(second.pending.path, second_status, second_payload).signal(
            first.pending.path,
            first_status,
            first_payload,
        ).pending.taken() == Some((second_status, second_payload)),
{
}

} // verus!
