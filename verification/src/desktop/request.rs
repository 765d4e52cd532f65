//! Where a request lives on the bus, and the slot in which its one result
//! is kept until the caller takes it.

use vstd::prelude::*;
use vstd::string::*;

use crate::desktop::handle_token::{is_token, HandleToken};
use crate::error::Error;
use crate::text::{is_path_segment, is_segment_byte, is_segment_char};

verus! {

/// The object path under which the portal keeps its request objects.
pub const REQUEST_PREFIX: &'static str = "/org/freedesktop/portal/desktop/request";

/// A unique bus identity that a path can be derived from: a colon, then at
/// least one more character, each a segment character or a dot.
pub open spec fn identity_ok(identity: Seq<char>) -> bool {
    &&& identity.len() >= 2
    &&& identity[0] == ':'
    &&& forall|i: int|
        1 <= i < identity.len() ==> is_segment_char(#[trigger] identity[i]) || identity[i] == '.'
}

/// The identity without its leading colon and with an underscore for every
/// dot.
pub open spec fn sanitized(identity: Seq<char>) -> Seq<char> {
    Seq::new(
        (identity.len() - 1) as nat,
        |i: int|
            if identity[i + 1] == '.' {
                '_'
            } else {
                identity[i + 1]
            },
    )
}

/// The path at which the portal will announce the result of the request
/// that the connection `identity` makes under `token`.
pub open spec fn predicted_text(identity: Seq<char>, token: Seq<char>) -> Seq<char> {
    REQUEST_PREFIX@ + seq!['/'] + sanitized(identity) + seq!['/'] + token
}

/// A well-formed object path below the root: it begins with a slash, holds
/// slashes and segment characters only, and every slash is followed by a
/// segment character, so that no element is empty.
pub open spec fn is_object_path(path: Seq<char>) -> bool {
    &&& path.len() > 0
    &&& path[0] == '/'
    &&& forall|i: int|
        0 <= i < path.len() ==> #[trigger] path[i] == '/' || is_segment_char(path[i])
    &&& forall|i: int|
        0 <= i < path.len() && #[trigger] path[i] == '/' ==> i + 1 < path.len() && path[i + 1]
            != '/'
}

/// The object path of one request.
#[derive(Debug, PartialEq, Eq)]
pub struct RequestPath {
    text: String,
}

impl View for RequestPath {
    type V = Seq<char>;

    closed spec fn view(&self) -> Seq<char> {
        self.text@
    }
}

impl Clone for RequestPath {
    fn clone(&self) -> (r: Self)
        ensures
            r@ == self@,
    {
        RequestPath { text: self.text.clone() }
    }
}

impl RequestPath {
    /// Takes a path as the bus gave it.
    pub fn new(path: &str) -> (r: RequestPath)
        ensures
            r@ == path@,
    {
        RequestPath { text: String::from_str(path) }
    }

    /// The text of the path.
    pub fn as_str(&self) -> (r: &str)
        ensures
            r@ == self@,
    {
        self.text.as_str()
    }

    /// Tells whether both are the same path.
    pub fn same(&self, other: &RequestPath) -> (r: bool)
        ensures
            r == (self@ == other@),
    {
        self.text == other.text
    }
}

/// Works out, before the call is made, the path at which the portal will
/// announce the result: the request prefix, the identity without its colon
/// and with underscores for dots, and the token. A malformed identity is
/// refused.
pub fn predict_path(identity: &str, token: &HandleToken) -> (r: Result<RequestPath, Error>)
    ensures
        r is Ok <==> identity_ok(identity@),
        r is Ok ==> r->Ok_0@ == predicted_text(identity@, token@),
        r is Ok ==> is_object_path(r->Ok_0@),
        r is Err ==> r->Err_0 == Error::ParseError("Invalid unique bus name"),
{
    if !identity.is_ascii() {
        proof {
            let i = choose|i: int|
                0 <= i < identity@.len() && !('\0' <= #[trigger] identity@[i] <= '\u{7f}');
            assert(!is_segment_char(identity@[i]) && identity@[i] != '.' && identity@[i] != ':');
        }
        return Err(Error::ParseError("Invalid unique bus name"));
    }
    let bytes = identity.as_bytes();
    proof {
        is_ascii_spec_bytes(identity);
    }
    if bytes.len() < 2 || bytes[0] != 58 {
        proof {
            if bytes.len() >= 2 {
                assert(bytes@[0] == identity@[0] as u8);
            }
        }
        return Err(Error::ParseError("Invalid unique bus name"));
    }
    assert(bytes@[0] == identity@[0] as u8);
    let mut text = String::from_str(REQUEST_PREFIX);
    text.push('/');
    let ghost head = text@;
    let mut i: usize = 1;
    while i < bytes.len()
        invariant
            1 <= i <= bytes.len(),
            bytes@.len() == identity@.len(),
            is_ascii(identity),
            forall|j: int| 0 <= j < identity@.len() ==> bytes@[j] == #[trigger] identity@[j] as u8,
            forall|j: int|
                1 <= j < i ==> is_segment_char(#[trigger] identity@[j]) || identity@[j] == '.',
            head == REQUEST_PREFIX@ + seq!['/'],
            text@ == head + sanitized(identity@).take(i - 1),
        decreases bytes.len() - i,
    {
        let b = bytes[i];
        assert(b == identity@[i as int] as u8);
        let ghost before = text@;
        if b == 46 {
            text.push('_');
        } else if is_segment_byte(b) {
            text.push(b as char);
        } else {
            assert(!is_segment_char(identity@[i as int]) && identity@[i as int] != '.');
            return Err(Error::ParseError("Invalid unique bus name"));
        }
        proof {
            let clean = sanitized(identity@);
            assert(clean.take(i as int) =~= clean.take(i - 1).push(clean[i - 1]));
            assert(text@ =~= head + clean.take(i as int));
        }
        i += 1;
    }
    proof {
        let clean = sanitized(identity@);
        assert(clean.take(i - 1) =~= clean);
    }
    text.push('/');
    text.append(token.as_str());
    proof {
        assert(text@ =~= predicted_text(identity@, token@));
        lemma_predicted_is_object_path(identity@, token@);
    }
    Ok(RequestPath { text })
}

/// An identity of the form `:N.M` gives the prefix, then `N_M`, then the
/// token, each after a slash.
pub proof fn lemma_predicted_path_of_unique_name(n: Seq<char>, m: Seq<char>, token: Seq<char>)
    requires
        n.len() > 0,
        m.len() > 0,
        forall|i: int| 0 <= i < n.len() ==> is_segment_char(#[trigger] n[i]),
        forall|i: int| 0 <= i < m.len() ==> is_segment_char(#[trigger] m[i]),
    ensures
        identity_ok(seq![':'] + n + seq!['.'] + m),
        predicted_text(seq![':'] + n + seq!['.'] + m, token) == REQUEST_PREFIX@ + seq!['/'] + n
            + seq!['_'] + m + seq!['/'] + token,
{
    let identity = seq![':'] + n + seq!['.'] + m;
    assert forall|i: int| 1 <= i < identity.len() implies is_segment_char(#[trigger] identity[i])
        || identity[i] == '.' by {
        if i <= n.len() {
            assert(identity[i] == n[i - 1]);
        } else if i > n.len() + 1 {
            assert(identity[i] == m[i - n.len() - 2]);
        }
    }
    let clean = sanitized(identity);
    let expected = n + seq!['_'] + m;
    assert(clean.len() == expected.len());
    assert forall|i: int| 0 <= i < clean.len() implies clean[i] == expected[i] by {
        if i < n.len() {
            assert(identity[i + 1] == n[i]);
        } else if i > n.len() {
            assert(identity[i + 1] == m[i - n.len() - 1]);
        }
    }
    assert(clean =~= expected);
    assert(REQUEST_PREFIX@ + seq!['/'] + clean + seq!['/'] + token =~= REQUEST_PREFIX@ + seq!['/']
        + n + seq!['_'] + m + seq!['/'] + token);
}

/// The request prefix is a well-formed object path.
pub proof fn lemma_prefix_is_object_path()
    ensures
        is_object_path(REQUEST_PREFIX@),
{
    reveal_strlit("/org/freedesktop/portal/desktop/request");
}

/// An object path with one more element is an object path.
pub proof fn lemma_object_path_extends(path: Seq<char>, element: Seq<char>)
    requires
        is_object_path(path),
        is_path_segment(element),
    ensures
        is_object_path(path + seq!['/'] + element),
{
    let longer = path + seq!['/'] + element;
    assert forall|i: int| 0 <= i < longer.len() implies #[trigger] longer[i] == '/'
        || is_segment_char(longer[i]) by {
        if i < path.len() {
            assert(longer[i] == path[i]);
        } else if i > path.len() {
            assert(longer[i] == element[i - path.len() - 1]);
        }
    }
    assert forall|i: int| 0 <= i < longer.len() && #[trigger] longer[i] == '/' implies i + 1
        < longer.len() && longer[i + 1] != '/' by {
        if i < path.len() {
            assert(longer[i] == path[i]);
            assert(longer[i + 1] == path[i + 1]);
        } else if i == path.len() {
            assert(longer[i + 1] == element[0]);
        } else {
            assert(longer[i] == element[i - path.len() - 1]);
        }
    }
}

/// The path predicted for a well-formed identity and a token is a
/// well-formed object path.
pub proof fn lemma_predicted_is_object_path(identity: Seq<char>, token: Seq<char>)
    requires
        identity_ok(identity),
        is_token(token),
    ensures
        is_object_path(predicted_text(identity, token)),
{
    let clean = sanitized(identity);
    assert forall|i: int| 0 <= i < clean.len() implies is_segment_char(#[trigger] clean[i]) by {
        assert(is_segment_char(identity[i + 1]) || identity[i + 1] == '.');
    }
    lemma_prefix_is_object_path();
    lemma_object_path_extends(REQUEST_PREFIX@, clean);
    lemma_object_path_extends(REQUEST_PREFIX@ + seq!['/'] + clean, token);
}

/// On one connection, requests under different tokens live at different
/// paths.
pub proof fn lemma_distinct_tokens_distinct_paths(
    identity: Seq<char>,
    first: Seq<char>,
    second: Seq<char>,
)
    requires
        first != second,
    ensures
        predicted_text(identity, first) != predicted_text(identity, second),
{
    let head = REQUEST_PREFIX@ + seq!['/'] + sanitized(identity) + seq!['/'];
    let a = predicted_text(identity, first);
    let b = predicted_text(identity, second);
    assert(first =~= a.subrange(head.len() as int, a.len() as int));
    assert(second =~= b.subrange(head.len() as int, b.len() as int));
}

/// The single place in which the result of a request is kept.
#[derive(Debug, PartialEq, Eq)]
pub enum Slot<P> {
    /// No signal has arrived yet.
    Empty,
    /// The signal has arrived, with this status and payload, and waits for
    /// the caller.
    Filled(u32, P),
    /// The caller has taken the result.
    Consumed,
}

/// What a pending request is, as a value: the path that it listens on, its
/// slot, and whether the caller has given it up.
pub struct PendingView<P> {
    pub path: Seq<char>,
    pub slot: Slot<P>,
    pub abandoned: bool,
}

impl<P> PendingView<P> {
    /// A request that has just begun to listen on `path`.
    pub open spec fn armed(path: Seq<char>) -> Self {
        PendingView { path, slot: Slot::Empty, abandoned: false }
    }

    /// The request still waits for its result or holds it for the caller.
    pub open spec fn live(self) -> bool {
        !self.abandoned && !(self.slot is Consumed)
    }

    /// A signal that arrives on `path` now would be kept.
    pub open spec fn accepts(self, path: Seq<char>) -> bool {
        !self.abandoned && self.slot is Empty && path == self.path
    }

    /// The request after a signal has arrived on `path`.
    pub open spec fn deliver(self, path: Seq<char>, status: u32, payload: P) -> Self {
        if self.accepts(path) {
            PendingView { slot: Slot::Filled(status, payload), ..self }
        } else {
            self
        }
    }

    /// What the caller gets when it asks for the result now.
    pub open spec fn taken(self) -> Option<(u32, P)> {
        match self.slot {
            Slot::Filled(status, payload) => Some((status, payload)),
            _ => None,
        }
    }

    /// The request after the caller has asked for the result.
    pub open spec fn take(self) -> Self {
        if self.slot is Filled {
            PendingView { slot: Slot::Consumed, ..self }
        } else {
            self
        }
    }

    /// The request after it has been moved to listen on `path`. A result
    /// that has already arrived stays.
    pub open spec fn resubscribe(self, path: Seq<char>) -> Self {
        if self.live() {
            PendingView { path, ..self }
        } else {
            self
        }
    }

    /// Where a `Close` is owed when the caller gives the request up now.
    pub open spec fn close_target(self) -> Option<Seq<char>> {
        if self.live() {
            Some(self.path)
        } else {
            None
        }
    }

    /// The request after the caller has given it up. A result that waited
    /// in the slot is thrown away.
    pub open spec fn abandon(self) -> Self {
        if self.live() {
            PendingView { slot: Slot::Empty, abandoned: true, ..self }
        } else {
            self
        }
    }
}

/// One request in flight: it listens on one path and keeps at most one
/// result, which the caller takes at most once.
#[derive(Debug)]
pub struct PendingRequest<P> {
    path: RequestPath,
    slot: Slot<P>,
    abandoned: bool,
}

impl<P> View for PendingRequest<P> {
    type V = PendingView<P>;

    closed spec fn view(&self) -> PendingView<P> {
        PendingView { path: self.path@, slot: self.slot, abandoned: self.abandoned }
    }
}

impl<P> PendingRequest<P> {
    /// Begins to listen for the completion signal on `path`. This is done
    /// before the call is made, so that an early answer is not missed.
    pub fn subscribe(path: RequestPath) -> (r: Self)
        ensures
            r@ == PendingView::<P>::armed(path@),
    {
        PendingRequest { path, slot: Slot::Empty, abandoned: false }
    }

    /// The path that the request listens on.
    pub fn path(&self) -> (r: &RequestPath)
        ensures
            r@ == self@.path,
    {
        &self.path
    }

    /// Tells whether a result waits for the caller.
    pub fn is_ready(&self) -> (r: bool)
        ensures
            r == (self@.slot is Filled),
    {
        match &self.slot {
            Slot::Filled(_, _) => true,
            _ => false,
        }
    }

    /// Tells whether the request still waits for its result or holds it.
    pub fn is_live(&self) -> (r: bool)
        ensures
            r == self@.live(),
    {
        let consumed = match &self.slot {
            Slot::Consumed => true,
            _ => false,
        };
        !self.abandoned && !consumed
    }

    /// Hands in a completion signal that arrived on `path`. It is kept when
    /// the request listens on that path, has no result yet and was not
    /// given up; any other signal is dropped. Returns whether it was kept.
    pub fn deliver(&mut self, path: &RequestPath, status: u32, payload: P) -> (kept: bool)
        ensures
            kept == old(self)@.accepts(path@),
            final(self)@ == old(self)@.deliver(path@, status, payload),
    {
        let empty = match &self.slot {
            Slot::Empty => true,
            _ => false,
        };
        if !self.abandoned && empty && self.path.same(path) {
            self.slot = Slot::Filled(status, payload);
            true
        } else {
            false
        }
    }

    /// Takes the result out of the slot, if one waits there. A result is
    /// handed out once; after that the slot is consumed.
    pub fn take(&mut self) -> (r: Option<(u32, P)>)
        ensures
            r == old(self)@.taken(),
            final(self)@ == old(self)@.take(),
    {
        let mut slot = Slot::Consumed;
        core::mem::swap(&mut self.slot, &mut slot);
        match slot {
            Slot::Filled(status, payload) => Some((status, payload)),
            other => {
                self.slot = other;
                None
            },
        }
    }

    /// Moves a live request to `path`, in one step: a result that arrived
    /// on the old path before stays in the slot, one that arrives there
    /// later is dropped. Returns whether the request was live.
    pub fn resubscribe(&mut self, path: RequestPath) -> (moved: bool)
        ensures
            moved == old(self)@.live(),
            final(self)@ == old(self)@.resubscribe(path@),
    {
        if self.is_live() {
            self.path = path;
            true
        } else {
            false
        }
    }

    /// Gives a live request up. Returns the path to which a `Close` is to
    /// be sent; a request that was given up before, or whose result was
    /// taken, gives none. From now on signals are dropped.
    pub fn abandon(&mut self) -> (close: Option<RequestPath>)
        ensures
            close is Some <==> old(self)@.live(),
            close is Some ==> close->0@ == old(self)@.path,
            final(self)@ == old(self)@.abandon(),
    {
        if self.is_live() {
            self.slot = Slot::Empty;
            self.abandoned = true;
            Some(self.path.clone())
        } else {
            None
        }
    }
}

/// A signal that arrives before the caller waits is not lost: the caller
/// finds it when it asks, also when the request was moved in between.
pub proof fn lemma_no_lost_wakeup<P>(
    pending: PendingView<P>,
    status: u32,
    payload: P,
    moved_to: Seq<char>,
)
    requires
        pending.accepts(pending.path),
    ensures
        pending.deliver(pending.path, status, payload).taken() == Some((status, payload)),
        pending.deliver(pending.path, status, payload).resubscribe(moved_to).taken() == Some(
            (status, payload),
        ),
{
}

/// The slot holds one result: while it is filled and after it was taken,
/// every further signal is dropped, and a second take finds nothing.
pub proof fn lemma_single_result<P>(
    pending: PendingView<P>,
    path: Seq<char>,
    status: u32,
    payload: P,
)
    requires
        !(pending.slot is Empty),
    ensures
        pending.deliver(path, status, payload) == pending,
        pending.take().deliver(path, status, payload) == pending.take(),
        pending.take().taken() is None,
{
}

/// Giving up a live request yields exactly one `Close`, to the path held.
/// After that no further `Close` is owed, every signal is dropped and no
/// result is handed out.
pub proof fn lemma_abandon_closes_once<P>(
    pending: PendingView<P>,
    path: Seq<char>,
    status: u32,
    payload: P,
)
    requires
        pending.live(),
    ensures
        pending.close_target() == Some(pending.path),
        pending.abandon().close_target() is None,
        pending.abandon().abandon() == pending.abandon(),
        pending.abandon().deliver(path, status, payload) == pending.abandon(),
        pending.abandon().taken() is None,
{
}

/// A signal for another path leaves a request as it is.
pub proof fn lemma_other_path_ignored<P>(
    pending: PendingView<P>,
    path: Seq<char>,
    status: u32,
    payload: P,
)
    requires
        path != pending.path,
    ensures
        pending.deliver(path, status, payload) == pending,
{
}

} // verus!
