//! The protocol for one crossing of the foreign boundary.
//!
//! The native decompiler is reached through four calls: one that takes a
//! buffer and returns a result handle (or null), two that read the handle's
//! error message and result string (each possibly null), and one that frees
//! the handle. A [`Session`] decides, for one request, which of these calls is
//! due next and what the request returns; the code that owns the foreign
//! library performs each [`Action`] and reports what it saw as an [`Event`].
use vstd::prelude::*;
use vstd::utf8::{decode_utf8, valid_utf8};

use crate::error::{outcome_view, DecompileError, Failure};

verus! {

/// What the driver of a session must do next.
#[derive(Clone, Copy, Debug, PartialEq, Eq, Structural)]
pub enum Action {
    /// Hand the buffer's address and length to the foreign decompile call.
    CallDecompile,
    /// Ask the handle for its error message.
    ReadError,
    /// Ask the handle for its result string.
    ReadResult,
    /// Free the handle.
    Release,
    /// Nothing is left to do: take the outcome.
    Finish,
}

/// What the driver saw when it performed an [`Action`].
#[derive(Debug)]
pub enum Event {
    /// The decompile call returned; `true` when the handle is not null.
    Handle(bool),
    /// The error message, copied out of the handle (`None` for a null one).
    ErrorRead(Option<Vec<u8>>),
    /// The result string, copied out of the handle (`None` for a null one).
    ResultRead(Option<Vec<u8>>),
    /// The handle was freed.
    Released,
}

/// The state of one request: the action it waits on, and the outcome once one
/// is decided.
pub struct Session {
    next: Action,
    outcome: Option<Result<String, DecompileError>>,
}

/// The value of a [`Session`].
pub struct SessionModel {
    pub next: Action,
    pub outcome: Option<Result<Seq<char>, Failure>>,
}

/// Detail of the failure for an empty input.
pub open spec fn empty_input_detail() -> Seq<char> {
    "Empty bytecode"@
}

/// Detail of the failure for a null handle.
pub open spec fn null_handle_detail() -> Seq<char> {
    "Failed to get result"@
}

/// Detail of the failure for a handle that holds neither error nor result.
pub open spec fn null_result_detail() -> Seq<char> {
    "No result returned"@
}

/// The text that a lossy UTF-8 decoding makes of some bytes.
pub uninterp spec fn lossy_text(b: Seq<u8>) -> Seq<char>;

/// Relies on `String::from_utf8_lossy`: valid UTF-8 is decoded as it is, and
/// each invalid sequence becomes one U+FFFD; so the text is empty exactly when
/// the bytes are.
#[verifier::external_body]
fn owned_text(b: &[u8]) -> (r: String)
    ensures
        r@ == lossy_text(b@),
        valid_utf8(b@) ==> r@ == decode_utf8(b@),
        r@.len() == 0 <==> b@.len() == 0,
{
    String::from_utf8_lossy(b).into_owned()
}

/// The state in which a request on `bytecode` begins.
pub open spec fn start(bytecode: Seq<u8>) -> SessionModel {
    if bytecode.len() == 0 {
        SessionModel {
            next: Action::Finish,
            outcome: Some(Err(Failure::InvalidBytecode(empty_input_detail()))),
        }
    } else {
        SessionModel { next: Action::CallDecompile, outcome: None }
    }
}

/// Whether a session that waits on `next` can take `ev`: the event must answer
/// that action.
pub open spec fn accepts(next: Action, ev: Event) -> bool {
    match next {
        Action::CallDecompile => ev is Handle,
        Action::ReadError => ev is ErrorRead,
        Action::ReadResult => ev is ResultRead,
        Action::Release => ev is Released,
        Action::Finish => false,
    }
}

/// The state after `m` takes the event `ev` (which it accepts).
pub open spec fn step(m: SessionModel, ev: Event) -> SessionModel {
    match ev {
        Event::Handle(live) => if live {
            SessionModel { next: Action::ReadError, outcome: None }
        } else {
            SessionModel {
                next: Action::Finish,
                outcome: Some(Err(Failure::InternalError(null_handle_detail()))),
            }
        },
        Event::ErrorRead(msg) => match msg {
            Some(b) => SessionModel {
                next: Action::Release,
                outcome: Some(Err(Failure::DecompilationFailed(lossy_text(b@)))),
            },
            None => SessionModel { next: Action::ReadResult, outcome: None },
        },
        Event::ResultRead(text) => match text {
            Some(b) => SessionModel { next: Action::Release, outcome: Some(Ok(lossy_text(b@))) },
            None => SessionModel {
                next: Action::Release,
                outcome: Some(Err(Failure::InternalError(null_result_detail()))),
            },
        },
        Event::Released => SessionModel { next: Action::Finish, outcome: m.outcome },
    }
}

impl View for Session {
    type V = SessionModel;

    closed spec fn view(&self) -> SessionModel {
        SessionModel {
            next: self.next,
            outcome: match self.outcome {
                Some(r) => Some(outcome_view(r)),
                None => None,
            },
        }
    }
}

impl SessionModel {
    /// A session holds an outcome exactly when the handle is due for release
    /// or the request is over.
    pub open spec fn wf(self) -> bool {
        self.outcome is Some <==> (self.next == Action::Release || self.next == Action::Finish)
    }
}

impl Session {
    #[verifier::type_invariant]
    spec fn inv(self) -> bool {
        self@.wf()
    }

    /// Begins a request on `bytecode`. An empty buffer is refused at once,
    /// before anything foreign is asked.
    pub(crate) fn begin(bytecode: &[u8]) -> (r: Session)
        ensures
            r@.wf(),
            r@ == start(bytecode@),
    {
        if bytecode.len() == 0 {
            Session {
                next: Action::Finish,
                outcome: Some(Err(DecompileError::InvalidBytecode("Empty bytecode".to_owned()))),
            }
        } else {
            Session { next: Action::CallDecompile, outcome: None }
        }
    }

    /// A request that is over before it began: reading its input failed.
    pub(crate) fn read_failed(e: std::io::Error) -> (r: Session)
        ensures
            r@.wf(),
            r@ == (SessionModel { next: Action::Finish, outcome: Some(Err(Failure::Io(e))) }),
    {
        Session { next: Action::Finish, outcome: Some(Err(DecompileError::Io(e))) }
    }

    /// The action the session waits on.
    pub fn next_action(&self) -> (r: Action)
        ensures
            r == self@.next,
    {
        self.next
    }

    /// Whether the session can take `ev` now.
    pub fn accepts(&self, ev: &Event) -> (r: bool)
        ensures
            r == accepts(self@.next, *ev),
    {
        match self.next {
            Action::CallDecompile => matches!(ev, Event::Handle(_)),
            Action::ReadError => matches!(ev, Event::ErrorRead(_)),
            Action::ReadResult => matches!(ev, Event::ResultRead(_)),
            Action::Release => matches!(ev, Event::Released),
            Action::Finish => false,
        }
    }

    /// Takes the event that answers the pending action. The outcome is
    /// decided from the handle's error message before its result is ever
    /// read, and text is copied out of foreign memory into owned strings.
    pub fn advance(self, ev: Event) -> (r: Session)
        requires
            accepts(self@.next, ev),
        ensures
            r@.wf(),
            r@ == step(self@, ev),
            ev matches Event::ResultRead(Some(b)) && b@.len() > 0 ==> (r@.outcome matches Some(
                Ok(t),
            ) && t.len() > 0),
    {
        proof {
            use_type_invariant(&self);
        }
        match ev {
            Event::Handle(live) => if live {
                Session { next: Action::ReadError, outcome: None }
            } else {
                Session {
                    next: Action::Finish,
                    outcome: Some(
                        Err(DecompileError::InternalError("Failed to get result".to_owned())),
                    ),
                }
            },
            Event::ErrorRead(msg) => match msg {
                Some(b) => {
                    let detail = owned_text(b.as_slice());
                    Session {
                        next: Action::Release,
                        outcome: Some(Err(DecompileError::DecompilationFailed(detail))),
                    }
                },
                None => Session { next: Action::ReadResult, outcome: None },
            },
            Event::ResultRead(text) => match text {
                Some(b) => {
                    let source = owned_text(b.as_slice());
                    Session { next: Action::Release, outcome: Some(Ok(source)) }
                },
                None => Session {
                    next: Action::Release,
                    outcome: Some(
                        Err(DecompileError::InternalError("No result returned".to_owned())),
                    ),
                },
            },
            Event::Released => Session { next: Action::Finish, outcome: self.outcome },
        }
    }

    /// The outcome of the request once it is over; `None` while foreign work
    /// is still due.
    pub fn outcome(self) -> (r: Option<Result<String, DecompileError>>)
        ensures
            self@.next == Action::Finish ==> (r matches Some(o) && Some(outcome_view(o))
                == self@.outcome),
            self@.next != Action::Finish ==> r is None,
    {
        proof {
            use_type_invariant(&self);
        }
        if self.next == Action::Finish {
            self.outcome
        } else {
            None
        }
    }
}

/// The state after `m` takes each of `evs` in turn.
pub open spec fn run(m: SessionModel, evs: Seq<Event>) -> SessionModel
    decreases evs.len(),
{
    if evs.len() == 0 {
        m
    } else {
        run(step(m, evs[0]), evs.drop_first())
    }
}

/// Whether `evs`, taken in turn from `m`, each answer the action then due.
pub open spec fn driven(m: SessionModel, evs: Seq<Event>) -> bool
    decreases evs.len(),
{
    evs.len() == 0 || (accepts(m.next, evs[0]) && driven(step(m, evs[0]), evs.drop_first()))
}

/// Whether the session owns a live foreign handle.
pub open spec fn holds_handle(m: SessionModel) -> bool {
    m.next == Action::ReadError || m.next == Action::ReadResult || m.next == Action::Release
}

/// How many foreign decompile calls `evs` report.
pub open spec fn calls(evs: Seq<Event>) -> nat
    decreases evs.len(),
{
    if evs.len() == 0 {
        0
    } else {
        (if evs[0] is Handle { 1nat } else { 0nat }) + calls(evs.drop_first())
    }
}

/// How many live handles `evs` report.
pub open spec fn acquisitions(evs: Seq<Event>) -> nat
    decreases evs.len(),
{
    if evs.len() == 0 {
        0
    } else {
        (if evs[0] == Event::Handle(true) { 1nat } else { 0nat }) + acquisitions(evs.drop_first())
    }
}

/// How many releases of a handle `evs` report.
pub open spec fn releases(evs: Seq<Event>) -> nat
    decreases evs.len(),
{
    if evs.len() == 0 {
        0
    } else {
        (if evs[0] is Released { 1nat } else { 0nat }) + releases(evs.drop_first())
    }
}

/// Along any run, every handle that was acquired and is no longer held was
/// released, once.
pub proof fn lemma_handle_balance(m: SessionModel, evs: Seq<Event>)
    requires
        driven(m, evs),
    ensures
        acquisitions(evs) + (if holds_handle(m) { 1nat } else { 0nat }) == releases(evs) + (
        if holds_handle(run(m, evs)) {
            1nat
        } else {
            0nat
        }),
    decreases evs.len(),
{
    if evs.len() > 0 {
        lemma_handle_balance(step(m, evs[0]), evs.drop_first());
    }
}

/// Once past the decompile call, a session never asks for it again.
pub proof fn lemma_no_second_call(m: SessionModel, evs: Seq<Event>)
    requires
        driven(m, evs),
        m.next != Action::CallDecompile,
    ensures
        calls(evs) == 0,
    decreases evs.len(),
{
    if evs.len() > 0 {
        lemma_no_second_call(step(m, evs[0]), evs.drop_first());
    }
}

/// Each live handle comes from a decompile call.
pub proof fn lemma_acquisitions_from_calls(evs: Seq<Event>)
    ensures
        acquisitions(evs) <= calls(evs),
    decreases evs.len(),
{
    if evs.len() > 0 {
        lemma_acquisitions_from_calls(evs.drop_first());
    }
}

/// Every request on a buffer releases exactly as many handles as it acquires
/// once it is over, never releases one it does not hold, and calls the
/// foreign decompiler at most once, acquiring at most one handle.
pub proof fn release_once_per_acquisition(bytecode: Seq<u8>, evs: Seq<Event>)
    requires
        driven(start(bytecode), evs),
    ensures
        calls(evs) <= 1,
        acquisitions(evs) <= 1,
        releases(evs) <= acquisitions(evs),
        run(start(bytecode), evs).next == Action::Finish ==> releases(evs) == acquisitions(evs),
{
    lemma_handle_balance(start(bytecode), evs);
    lemma_acquisitions_from_calls(evs);
    if evs.len() > 0 {
        lemma_no_second_call(step(start(bytecode), evs[0]), evs.drop_first());
    }
}

/// A finished session asks for nothing more: no event, foreign or other, can
/// follow. So an empty buffer, or a file that could not be read, never
/// reaches the foreign decompiler.
pub proof fn finished_session_is_final(m: SessionModel, evs: Seq<Event>)
    requires
        m.next == Action::Finish,
        driven(m, evs),
    ensures
        evs.len() == 0,
        run(m, evs) == m,
{
}

/// A result is read only right after a read of the error message that found
/// none, or first thing from a session already waiting to read it.
pub proof fn lemma_result_after_error(m: SessionModel, evs: Seq<Event>, i: int)
    requires
        driven(m, evs),
        0 <= i < evs.len(),
        evs[i] is ResultRead,
    ensures
        (i == 0 && m.next == Action::ReadResult) || (i > 0 && evs[i - 1] matches Event::ErrorRead(
            None,
        )),
    decreases evs.len(),
{
    if i > 0 {
        lemma_result_after_error(step(m, evs[0]), evs.drop_first(), i - 1);
    }
}

/// A handle's result is read only after its error message was read and found
/// absent: the error is always inspected first.
pub proof fn error_read_before_result(bytecode: Seq<u8>, evs: Seq<Event>, i: int)
    requires
        driven(start(bytecode), evs),
        0 <= i < evs.len(),
        evs[i] is ResultRead,
    ensures
        i > 0,
        evs[i - 1] matches Event::ErrorRead(None),
{
    lemma_result_after_error(start(bytecode), evs, i);
}

/// Once decided, an outcome is what the session ends with.
pub proof fn lemma_outcome_settled(m: SessionModel, evs: Seq<Event>)
    requires
        driven(m, evs),
        m.next == Action::Release || m.next == Action::Finish,
    ensures
        run(m, evs).outcome == m.outcome,
    decreases evs.len(),
{
    if evs.len() > 0 {
        lemma_outcome_settled(step(m, evs[0]), evs.drop_first());
    }
}

/// Whenever the decompiler reports an error message, the request fails with
/// `DecompilationFailed`, carrying that message.
pub proof fn reported_error_is_the_outcome(m: SessionModel, evs: Seq<Event>, i: int)
    requires
        driven(m, evs),
        0 <= i < evs.len(),
        evs[i] matches Event::ErrorRead(Some(_)),
    ensures
        run(m, evs).outcome == Some(
            Err::<Seq<char>, Failure>(
                Failure::DecompilationFailed(lossy_text(evs[i]->ErrorRead_0->Some_0@)),
            ),
        ),
    decreases evs.len(),
{
    if i == 0 {
        lemma_outcome_settled(step(m, evs[0]), evs.drop_first());
    } else {
        reported_error_is_the_outcome(step(m, evs[0]), evs.drop_first(), i - 1);
    }
}

/// Whether `ev` handed over a result string whose text is the successful
/// outcome `o`.
pub open spec fn delivers(ev: Event, o: Option<Result<Seq<char>, Failure>>) -> bool {
    ev matches Event::ResultRead(Some(b)) && o == Some(Ok::<Seq<char>, Failure>(lossy_text(b@)))
}

/// A successful outcome is the text of a result string that the decompiler
/// handed over; a session that has not yet succeeded can succeed in no other
/// way.
pub proof fn lemma_success_from_result(m: SessionModel, evs: Seq<Event>)
    requires
        driven(m, evs),
        !(m.outcome matches Some(Ok(_))),
        run(m, evs).outcome matches Some(Ok(_)),
    ensures
        exists|i: int| 0 <= i < evs.len() && delivers(#[trigger] evs[i], run(m, evs).outcome),
    decreases evs.len(),
{
    let next = step(m, evs[0]);
    if next.outcome matches Some(Ok(_)) {
        lemma_outcome_settled(next, evs.drop_first());
        assert(delivers(evs[0], run(m, evs).outcome));
    } else {
        let rest = evs.drop_first();
        lemma_success_from_result(next, rest);
        let j = choose|j: int| 0 <= j < rest.len() && delivers(#[trigger] rest[j], run(next, rest).outcome);
        assert(evs[j + 1] == rest[j]);
    }
}

/// Whatever text a request returns is the decompiler's result string, copied
/// out as text; nothing else is ever returned as success.
pub proof fn success_is_the_result_text(bytecode: Seq<u8>, evs: Seq<Event>)
    requires
        driven(start(bytecode), evs),
        run(start(bytecode), evs).outcome matches Some(Ok(_)),
    ensures
        exists|i: int|
            0 <= i < evs.len() && delivers(#[trigger] evs[i], run(start(bytecode), evs).outcome),
{
    lemma_success_from_result(start(bytecode), evs);
}

} // verus!
