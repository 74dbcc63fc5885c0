//! The byte pump: copy a reader into a writer until end of stream.
//!
//! The decisions of the loop stand in [`pump_step`], a function from the last
//! action and the outcome of performing it to the next action;
//! [`pump`] runs it against the reader and writer of a [`Pipe`], which logs
//! every call made on them; the contract of [`pump`] relates that log to the
//! rule.

use std::io::Read;
use std::io::Write;
use vstd::prelude::*;
use vstd::slice::slice_subrange;

verus! {

#[verifier::external_type_specification]
#[verifier::external_body]
pub struct ExIoError(std::io::Error);

/// Size of the copy buffer: one read asks for at most this many bytes.
pub const BUF_SIZE: usize = 8192;

/// The kinds of I/O error that the pump tells apart.
#[derive(Debug, Clone, Copy, PartialEq, Eq, Structural)]
pub enum IoErrorKind {
    Interrupted,
    BrokenPipe,
    ConnectionReset,
    ConnectionAborted,
    Other,
}

/// Whether an error kind means that the peer went away mid-transfer.
pub open spec fn disconnect_kind(kind: IoErrorKind) -> bool {
    kind == IoErrorKind::BrokenPipe || kind == IoErrorKind::ConnectionReset || kind
        == IoErrorKind::ConnectionAborted
}

/// Whether an error represents the peer going away mid-transfer.
pub fn is_disconnect(kind: IoErrorKind) -> (r: bool)
    ensures
        r == disconnect_kind(kind),
{
    match kind {
        IoErrorKind::BrokenPipe | IoErrorKind::ConnectionReset
        | IoErrorKind::ConnectionAborted => true,
        _ => false,
    }
}

/// What the pump does next.
#[derive(Debug, Clone, Copy, PartialEq, Eq, Structural)]
pub enum PumpAction {
    /// Read up to [`BUF_SIZE`] bytes from the reader.
    Read,
    /// Write the first `n` bytes of the buffer to the writer, all of them.
    Write(usize),
    /// Flush the writer.
    Flush,
    /// Stop: the session ended normally.
    Finish,
    /// Stop: return the error that the last outcome carried.
    Fail,
}

/// The outcome of performing an action.
#[derive(Debug, Clone, Copy, PartialEq, Eq, Structural)]
pub enum PumpEvent {
    /// The read delivered `n` bytes (0 means end of stream).
    Read(usize),
    ReadFailed(IoErrorKind),
    Written,
    WriteFailed(IoErrorKind),
    Flushed,
    FlushFailed(IoErrorKind),
}

/// Whether `event` is a possible outcome of performing `action`.
pub open spec fn answers(action: PumpAction, event: PumpEvent) -> bool {
    match action {
        PumpAction::Read => event is Read || event is ReadFailed,
        PumpAction::Write(_) => event is Written || event is WriteFailed,
        PumpAction::Flush => event is Flushed || event is FlushFailed,
        PumpAction::Finish | PumpAction::Fail => false,
    }
}

/// The pump's rule: end of stream finishes; data is written in full, then
/// flushed, then the next read follows; an interrupted read is retried; an
/// error that means the peer went away (a broken pipe, a reset or an aborted
/// connection) ends the session normally, whether it came from a read, a
/// write or a flush; every other error fails.
pub open spec fn next_action(action: PumpAction, event: PumpEvent) -> PumpAction {
    match event {
        PumpEvent::Read(n) => if n == 0 {
            PumpAction::Finish
        } else {
            PumpAction::Write(n)
        },
        PumpEvent::ReadFailed(kind) => if kind == IoErrorKind::Interrupted {
            PumpAction::Read
        } else if disconnect_kind(kind) {
            PumpAction::Finish
        } else {
            PumpAction::Fail
        },
        PumpEvent::Written => PumpAction::Flush,
        PumpEvent::WriteFailed(kind) => if disconnect_kind(kind) {
            PumpAction::Finish
        } else {
            PumpAction::Fail
        },
        PumpEvent::Flushed => PumpAction::Read,
        PumpEvent::FlushFailed(kind) => if disconnect_kind(kind) {
            PumpAction::Finish
        } else {
            PumpAction::Fail
        },
    }
}

/// Decide the next action from the last one and its outcome.
pub fn pump_step(action: PumpAction, event: PumpEvent) -> (next: PumpAction)
    requires
        answers(action, event),
    ensures
        next == next_action(action, event),
{
    match event {
        PumpEvent::Read(n) => if n == 0 {
            PumpAction::Finish
        } else {
            PumpAction::Write(n)
        },
        PumpEvent::ReadFailed(kind) => if kind == IoErrorKind::Interrupted {
            PumpAction::Read
        } else if is_disconnect(kind) {
            PumpAction::Finish
        } else {
            PumpAction::Fail
        },
        PumpEvent::Written => PumpAction::Flush,
        PumpEvent::WriteFailed(kind) | PumpEvent::FlushFailed(kind) => if is_disconnect(kind) {
            PumpAction::Finish
        } else {
            PumpAction::Fail
        },
        PumpEvent::Flushed => PumpAction::Read,
    }
}

/// The actions issued along a sequence of outcomes; the pump starts with
/// [`PumpAction::Read`].
pub open spec fn actions(events: Seq<PumpEvent>) -> Seq<PumpAction>
    decreases events.len(),
{
    if events.len() == 0 {
        seq![PumpAction::Read]
    } else {
        let prev = actions(events.drop_last());
        prev.push(next_action(prev.last(), events.last()))
    }
}

/// Each outcome answers the action issued just before it.
pub open spec fn valid_trace(events: Seq<PumpEvent>) -> bool
    decreases events.len(),
{
    if events.len() == 0 {
        true
    } else {
        valid_trace(events.drop_last()) && answers(
            actions(events.drop_last()).last(),
            events.last(),
        )
    }
}

/// The byte counts of the non-empty reads, in order.
pub open spec fn chunks_read(events: Seq<PumpEvent>) -> Seq<usize>
    decreases events.len(),
{
    if events.len() == 0 {
        Seq::empty()
    } else {
        let prev = chunks_read(events.drop_last());
        match events.last() {
            PumpEvent::Read(n) => if n > 0 {
                prev.push(n)
            } else {
                prev
            },
            _ => prev,
        }
    }
}

/// The byte counts of the writes issued, in order.
pub open spec fn chunks_written(acts: Seq<PumpAction>) -> Seq<usize>
    decreases acts.len(),
{
    if acts.len() == 0 {
        Seq::empty()
    } else {
        let prev = chunks_written(acts.drop_last());
        match acts.last() {
            PumpAction::Write(n) => prev.push(n),
            _ => prev,
        }
    }
}

/// Law: along any run, the pump writes every non-empty chunk it reads, each
/// in full, in the order read, and writes nothing else.
pub proof fn lemma_pump_writes_what_it_reads(events: Seq<PumpEvent>)
    requires
        valid_trace(events),
    ensures
        chunks_written(actions(events)) == chunks_read(events),
    decreases events.len(),
{
    if events.len() == 0 {
        assert(actions(events) =~= seq![PumpAction::Read]);
        assert(actions(events).drop_last() =~= Seq::<PumpAction>::empty());
        assert(chunks_written(Seq::<PumpAction>::empty()) =~= Seq::<usize>::empty());
    } else {
        lemma_pump_writes_what_it_reads(events.drop_last());
        let prev = actions(events.drop_last());
        assert(actions(events).drop_last() =~= prev);
    }
}

/// The error kind that an outcome carries, if it is a failure.
pub open spec fn failure(event: PumpEvent) -> Option<IoErrorKind> {
    match event {
        PumpEvent::ReadFailed(k) | PumpEvent::WriteFailed(k) | PumpEvent::FlushFailed(k) => Some(
            k,
        ),
        _ => None,
    }
}

/// Law: a run stops normally exactly on end of stream or on an error of any
/// step that means the peer went away, and stops with an error exactly on any
/// other error but an interrupted read.
pub proof fn lemma_pump_stops(events: Seq<PumpEvent>)
    requires
        events.len() > 0,
        valid_trace(events),
    ensures
        actions(events).last() == PumpAction::Finish <==> (events.last() == PumpEvent::Read(0)
            || (failure(events.last()) matches Some(k) && disconnect_kind(k))),
        actions(events).last() == PumpAction::Fail <==> (failure(events.last()) matches Some(k)
            && !disconnect_kind(k) && events.last() != PumpEvent::ReadFailed(
            IoErrorKind::Interrupted,
        )),
{
}

/// An I/O error, with its kind as the pump tells kinds apart.
pub struct IoFailure {
    pub error: std::io::Error,
    pub kind: IoErrorKind,
}

/// One call that the pump made on its reader or writer, with its argument
/// and its outcome.
pub enum IoCall {
    /// `Read::read` on a buffer of `asked` bytes: the bytes it delivered
    /// (the first `n` of the buffer after an `Ok(n)`), or the kind of the
    /// error it failed with.
    Read { asked: nat, got: Result<Seq<u8>, IoErrorKind> },
    /// `Write::write_all` of `data`, and the kind of the error if it failed.
    Write { data: Seq<u8>, failed: Option<IoErrorKind> },
    /// `Write::flush`, and the kind of the error if it failed.
    Flush { failed: Option<IoErrorKind> },
}

/// The log entry of a read on a buffer of `asked` bytes that returned `r` and
/// left the buffer holding `after`.
pub open spec fn read_call(asked: nat, r: Result<usize, IoFailure>, after: Seq<u8>) -> IoCall {
    IoCall::Read {
        asked,
        got: match r {
            Ok(n) => Ok(after.subrange(0, n as int)),
            Err(f) => Err(f.kind),
        },
    }
}

/// The error kind of a failed call, if it failed.
pub open spec fn failure_of<T>(r: Result<T, IoFailure>) -> Option<IoErrorKind> {
    match r {
        Ok(_) => None,
        Err(f) => Some(f.kind),
    }
}

/// A reader and a writer for the pump, with the log of every call made on
/// them through [`Pipe::read_chunk`], [`Pipe::write_chunk`] and
/// [`Pipe::flush`], the only ways in.
pub struct Pipe<R, W> {
    reader: R,
    writer: W,
    calls: Ghost<Seq<IoCall>>,
}

impl<R, W> Pipe<R, W> {
    /// The calls made through this pipe so far, in order.
    pub closed spec fn log(&self) -> Seq<IoCall> {
        self.calls@
    }

    /// A pipe from `reader` to `writer` through which no call was made yet.
    pub fn new(reader: R, writer: W) -> (p: Pipe<R, W>)
        ensures
            p.log() == Seq::<IoCall>::empty(),
    {
        Pipe { reader, writer, calls: Ghost(Seq::empty()) }
    }

    /// The reader and the writer back.
    pub fn into_parts(self) -> (R, W) {
        (self.reader, self.writer)
    }
}

impl<R: Read, W: Write> Pipe<R, W> {
    /// Read once from the reader into `buf` with `Read::read`, and log the
    /// call.
    ///
    /// The contract states the trait's documented obligation on
    /// implementations, that an `Ok(n)` has `n <= buf.len()` and that the
    /// data read is the first `n` bytes of `buf`, and that the call is logged
    /// with the buffer's length and that outcome. An error comes back with
    /// the kind that [`error_kind`] gives for it, and the log holds that same
    /// kind. Which bytes are delivered, and whether and how the call fails,
    /// is not stated: that depends on the reader.
    #[verifier::external_body]
    pub fn read_chunk(&mut self, buf: &mut [u8]) -> (r: Result<usize, IoFailure>)
        ensures
            final(buf)@.len() == old(buf)@.len(),
            r matches Ok(n) ==> n <= old(buf)@.len(),
            final(self).log() == old(self).log().push(read_call(old(buf)@.len(), r, final(buf)@)),
    {
        match self.reader.read(buf) {
            Ok(n) => Ok(n),
            Err(error) => Err(IoFailure { kind: error_kind(&error), error }),
        }
    }

    /// Write all of `data` to the writer with `Write::write_all`, and log the
    /// call with `data` and, if it failed, the kind that [`error_kind`] gives
    /// for the error, which comes back with it. Whether and how it fails is
    /// not stated: it depends on the writer.
    #[verifier::external_body]
    pub fn write_chunk(&mut self, data: &[u8]) -> (r: Result<(), IoFailure>)
        ensures
            final(self).log() == old(self).log().push(
                (IoCall::Write { data: data@, failed: failure_of(r) }),
            ),
    {
        match self.writer.write_all(data) {
            Ok(()) => Ok(()),
            Err(error) => Err(IoFailure { kind: error_kind(&error), error }),
        }
    }

    /// Flush the writer with `Write::flush`, and log the call with, if it
    /// failed, the kind that [`error_kind`] gives for the error, which comes
    /// back with it. Whether and how it fails is not stated.
    #[verifier::external_body]
    pub fn flush(&mut self) -> (r: Result<(), IoFailure>)
        ensures
            final(self).log() == old(self).log().push((IoCall::Flush { failed: failure_of(r) })),
    {
        match self.writer.flush() {
            Ok(()) => Ok(()),
            Err(error) => Err(IoFailure { kind: error_kind(&error), error }),
        }
    }
}

/// The kind of an I/O error, by `std::io::Error::kind`, for the kinds the
/// pump tells apart; every other kind is `Other`. Nothing is stated of which
/// kind comes back.
#[verifier::external_body]
fn error_kind(e: &std::io::Error) -> IoErrorKind {
    match e.kind() {
        std::io::ErrorKind::Interrupted => IoErrorKind::Interrupted,
        std::io::ErrorKind::BrokenPipe => IoErrorKind::BrokenPipe,
        std::io::ErrorKind::ConnectionReset => IoErrorKind::ConnectionReset,
        std::io::ErrorKind::ConnectionAborted => IoErrorKind::ConnectionAborted,
        _ => IoErrorKind::Other,
    }
}

/// Whether an action ends the run.
pub open spec fn stopped(action: PumpAction) -> bool {
    action is Finish || action is Fail
}

/// Whether `event` is what the logged `call` came back with.
pub open spec fn answered_by(event: PumpEvent, call: IoCall) -> bool {
    match (event, call) {
        (PumpEvent::Read(n), IoCall::Read { got: Ok(d), .. }) => d.len() == n,
        (PumpEvent::ReadFailed(k), IoCall::Read { got: Err(j), .. }) => k == j,
        (PumpEvent::Written, IoCall::Write { failed: None, .. }) => true,
        (PumpEvent::WriteFailed(k), IoCall::Write { failed: Some(j), .. }) => k == j,
        (PumpEvent::Flushed, IoCall::Flush { failed: None }) => true,
        (PumpEvent::FlushFailed(k), IoCall::Flush { failed: Some(j) }) => k == j,
        _ => false,
    }
}

/// The bytes of the non-empty reads among `calls`, in order.
pub open spec fn read_data(calls: Seq<IoCall>) -> Seq<Seq<u8>>
    decreases calls.len(),
{
    if calls.len() == 0 {
        Seq::empty()
    } else {
        let prev = read_data(calls.drop_last());
        match calls.last() {
            IoCall::Read { got: Ok(d), .. } => if d.len() > 0 {
                prev.push(d)
            } else {
                prev
            },
            _ => prev,
        }
    }
}

/// The data of the writes among `calls`, in order.
pub open spec fn written_data(calls: Seq<IoCall>) -> Seq<Seq<u8>>
    decreases calls.len(),
{
    if calls.len() == 0 {
        Seq::empty()
    } else {
        let prev = written_data(calls.drop_last());
        match calls.last() {
            IoCall::Write { data, .. } => prev.push(data),
            _ => prev,
        }
    }
}

/// The bytes a logged read delivered, if it was a read that succeeded.
pub open spec fn delivered(call: IoCall) -> Option<Seq<u8>> {
    match call {
        IoCall::Read { got: Ok(d), .. } => Some(d),
        _ => None,
    }
}

/// The bytes a logged `write_all` was given, if it was a write.
pub open spec fn written_bytes(call: IoCall) -> Option<Seq<u8>> {
    match call {
        IoCall::Write { data, .. } => Some(data),
        _ => None,
    }
}

/// Whether `events` read `calls` step by step: one outcome per call, each
/// what its call came back with, each answering the action before it; every
/// read was given a buffer of [`BUF_SIZE`] bytes; and every write passed the
/// bytes that the read just before it delivered.
pub open spec fn follows(events: Seq<PumpEvent>, calls: Seq<IoCall>) -> bool {
    &&& valid_trace(events)
    &&& events.len() == calls.len()
    &&& forall|i: int| 0 <= i < events.len() ==> #[trigger] answered_by(events[i], calls[i])
    &&& forall|i: int|
        0 <= i < calls.len() ==> (#[trigger] calls[i] matches IoCall::Read { asked, .. } ==> asked
            == BUF_SIZE)
    &&& forall|i: int|
        0 <= i < calls.len() && (#[trigger] written_bytes(calls[i])) is Some ==> i > 0
            && delivered(calls[i - 1]) == written_bytes(calls[i])
}

/// Whether the pump's rule, run along `events` read from `calls`, accounts
/// for a run that ended with an error exactly when `failed`: the calls follow
/// the rule; the run failed exactly when the rule said [`PumpAction::Fail`];
/// a run that stopped wrote the bytes of every non-empty read, in order, and
/// nothing else; a run that did not stop made `u64::MAX` calls.
pub open spec fn explains(events: Seq<PumpEvent>, calls: Seq<IoCall>, failed: bool) -> bool {
    &&& follows(events, calls)
    &&& (failed <==> actions(events).last() == PumpAction::Fail)
    &&& (stopped(actions(events).last()) ==> written_data(calls) == read_data(calls))
    &&& (!stopped(actions(events).last()) ==> calls.len() == u64::MAX)
}

/// Whether `calls` are those of a pump run that ended with an error exactly
/// when `failed`.
pub open spec fn pump_run(calls: Seq<IoCall>, failed: bool) -> bool {
    exists|events: Seq<PumpEvent>| #[trigger] explains(events, calls, failed)
}

/// Copy bytes from the pipe's reader to its writer until end of stream.
///
/// Returns `Ok(())` on a clean end of stream. A broken pipe or a connection
/// reset or abort, met while reading, writing or flushing, is treated as a
/// normal end of session, not an error; an interrupted read is retried; any
/// other error is returned at once.
///
/// The contract speaks of the calls that this run logged on the pipe, with
/// the kind of each error as the pipe's methods gave it: each read was given
/// [`BUF_SIZE`] bytes; each non-empty read was written in full with one
/// `write_all`, then flushed, before the next read; the run ended, with `Ok`
/// or `Err`, as [`next_action`] says for what the calls came back with
/// ([`lemma_pump_run_outcomes`] spells this out).
pub fn pump<R: Read, W: Write>(pipe: &mut Pipe<R, W>) -> (r: std::io::Result<()>)
    ensures
        final(pipe).log().len() >= old(pipe).log().len(),
        final(pipe).log().take(old(pipe).log().len() as int) == old(pipe).log(),
        pump_run(final(pipe).log().skip(old(pipe).log().len() as int), r is Err),
{
    let ghost start = pipe.log();
    let mut buf: Vec<u8> = vec![0u8; BUF_SIZE];
    let mut action = PumpAction::Read;
    let ghost mut events: Seq<PumpEvent> = Seq::empty();
    let ghost mut calls: Seq<IoCall> = Seq::empty();
    let mut rounds: u64 = 0;
    while rounds < u64::MAX
        invariant
            buf@.len() == BUF_SIZE,
            start == old(pipe).log(),
            pipe.log() == start + calls,
            events.len() == rounds,
            follows(events, calls),
            action == actions(events).last(),
            !stopped(action),
            match action {
                PumpAction::Write(n) => {
                    &&& n <= BUF_SIZE
                    &&& calls.len() > 0
                    &&& delivered(calls.last()) == Some(buf@.subrange(0, n as int))
                    &&& read_data(calls).len() > 0
                    &&& read_data(calls).last() == buf@.subrange(0, n as int)
                    &&& written_data(calls) == read_data(calls).drop_last()
                },
                _ => written_data(calls) == read_data(calls),
            },
        decreases u64::MAX - rounds,
    {
        rounds = rounds + 1;
        let ghost before = events;
        let ghost before_calls = calls;
        match action {
            PumpAction::Read => {
                let outcome = pipe.read_chunk(buf.as_mut_slice());
                let event = match &outcome {
                    Ok(n) => PumpEvent::Read(*n),
                    Err(f) => PumpEvent::ReadFailed(f.kind),
                };
                proof {
                    calls = calls.push(read_call(BUF_SIZE as nat, outcome, buf@));
                    events = events.push(event);
                    assert(events.drop_last() =~= before);
                    assert(calls.drop_last() =~= before_calls);
                }
                action = pump_step(action, event);
                if let Err(f) = outcome {
                    if action == PumpAction::Fail {
                        proof {
                            lemma_log_tail(start, calls);
                            assert(explains(events, calls, true));
                        }
                        return Err(f.error);
                    }
                }
            },
            PumpAction::Write(n) => {
                let data = slice_subrange(buf.as_slice(), 0, n);
                let outcome = pipe.write_chunk(data);
                let event = match &outcome {
                    Ok(()) => PumpEvent::Written,
                    Err(f) => PumpEvent::WriteFailed(f.kind),
                };
                proof {
                    calls = calls.push((IoCall::Write { data: data@, failed: failure_of(outcome) }));
                    events = events.push(event);
                    assert(events.drop_last() =~= before);
                    assert(calls.drop_last() =~= before_calls);
                    assert(written_data(calls) =~= read_data(calls));
                }
                action = pump_step(action, event);
                if let Err(f) = outcome {
                    if action == PumpAction::Fail {
                        proof {
                            lemma_log_tail(start, calls);
                            assert(explains(events, calls, true));
                        }
                        return Err(f.error);
                    }
                }
            },
            _ => {
                let outcome = pipe.flush();
                let event = match &outcome {
                    Ok(()) => PumpEvent::Flushed,
                    Err(f) => PumpEvent::FlushFailed(f.kind),
                };
                proof {
                    calls = calls.push((IoCall::Flush { failed: failure_of(outcome) }));
                    events = events.push(event);
                    assert(events.drop_last() =~= before);
                    assert(calls.drop_last() =~= before_calls);
                }
                action = pump_step(action, event);
                if let Err(f) = outcome {
                    if action == PumpAction::Fail {
                        proof {
                            lemma_log_tail(start, calls);
                            assert(explains(events, calls, true));
                        }
                        return Err(f.error);
                    }
                }
            },
        }
        if action == PumpAction::Finish {
            proof {
                lemma_log_tail(start, calls);
                assert(explains(events, calls, false));
            }
            return Ok(());
        }
    }
    proof {
        lemma_log_tail(start, calls);
        assert(explains(events, calls, false));
    }
    Ok(())
}

/// The kind of the error a logged call failed with, if it failed.
pub open spec fn call_error(call: IoCall) -> Option<IoErrorKind> {
    match call {
        IoCall::Read { got: Err(k), .. } => Some(k),
        IoCall::Read { got: Ok(_), .. } => None,
        IoCall::Write { failed, .. } => failed,
        IoCall::Flush { failed } => failed,
    }
}

/// Whether a logged call failed.
pub open spec fn call_failed(call: IoCall) -> bool {
    call_error(call) is Some
}

/// Law: a pump run that stopped wrote exactly the bytes of its non-empty
/// reads, in order; it failed only right after a failed call; and it ended
/// normally only on a read that reported end of stream or right after a
/// failed call (a peer that went away).
pub proof fn lemma_pump_run_ends(calls: Seq<IoCall>, failed: bool)
    requires
        pump_run(calls, failed),
        calls.len() < u64::MAX,
    ensures
        calls.len() > 0,
        written_data(calls) == read_data(calls),
        forall|i: int|
            0 <= i < calls.len() ==> (#[trigger] calls[i] matches IoCall::Read { asked, .. }
                ==> asked == BUF_SIZE),
        failed ==> call_failed(calls.last()),
        !failed ==> (call_failed(calls.last()) || calls.last() == (IoCall::Read {
            asked: BUF_SIZE as nat,
            got: Ok(Seq::<u8>::empty()),
        })),
{
    let events = choose|events: Seq<PumpEvent>| #[trigger] explains(events, calls, failed);
    assert(calls.len() > 0);
    lemma_pump_stops(events);
    let last = events.len() - 1;
    assert(answered_by(events[last], calls[last]));
    if let IoCall::Read { got: Ok(d), .. } = calls.last() {
        if d.len() == 0 {
            assert(d =~= Seq::<u8>::empty());
        }
    }
}

/// Each action of a run, position by position: the run starts with a read,
/// each next action is the rule's answer to the outcome before it, and along
/// a valid run each outcome answers the action before it.
proof fn lemma_actions_index(events: Seq<PumpEvent>)
    ensures
        actions(events).len() == events.len() + 1,
        actions(events)[0] == PumpAction::Read,
        actions(events).last() == actions(events)[events.len() as int],
        forall|j: int|
            0 <= j < events.len() ==> actions(events)[j + 1] == next_action(
                #[trigger] actions(events)[j],
                events[j],
            ),
        valid_trace(events) ==> forall|j: int|
            0 <= j < events.len() ==> answers(#[trigger] actions(events)[j], events[j]),
    decreases events.len(),
{
    if events.len() > 0 {
        let prev = events.drop_last();
        lemma_actions_index(prev);
        let a = actions(events);
        let ap = actions(prev);
        assert forall|j: int| 0 <= j < events.len() implies a[j + 1] == next_action(
            #[trigger] a[j],
            events[j],
        ) by {
            assert(a[j] == ap[j]);
            if j < prev.len() {
                assert(events[j] == prev[j]);
                assert(a[j + 1] == ap[j + 1]);
            }
        }
        if valid_trace(events) {
            assert forall|j: int| 0 <= j < events.len() implies answers(
                #[trigger] a[j],
                events[j],
            ) by {
                assert(a[j] == ap[j]);
                if j < prev.len() {
                    assert(events[j] == prev[j]);
                }
            }
        }
    }
}

/// Whether a logged call failed because the peer went away: a broken pipe, a
/// reset or an aborted connection.
pub open spec fn peer_went_away(call: IoCall) -> bool {
    call_error(call) == Some(IoErrorKind::BrokenPipe) || call_error(call) == Some(
        IoErrorKind::ConnectionReset,
    ) || call_error(call) == Some(IoErrorKind::ConnectionAborted)
}

/// Whether a logged call failed with an error that the pump passes on: any
/// failure but the peer going away or an interrupted read.
pub open spec fn fatal(call: IoCall) -> bool {
    &&& call_error(call) is Some
    &&& !peer_went_away(call)
    &&& !(call is Read && call_error(call) == Some(IoErrorKind::Interrupted))
}

/// What one call of a run, not the last, says of the next one: a non-empty
/// read is followed by a `write_all` of exactly the bytes it delivered; a
/// successful write by a flush; a successful flush or an interrupted read by
/// a read; and the call is no end of stream and no failure but an
/// interrupted read.
pub open spec fn step_facts(call: IoCall, next: IoCall) -> bool {
    &&& (delivered(call) is Some && delivered(call).unwrap().len() > 0 ==> written_bytes(next)
        == delivered(call))
    &&& (call is Write && call_error(call) is None ==> next is Flush)
    &&& ((call is Flush && call_error(call) is None) || (call is Read && call_error(call) == Some(
        IoErrorKind::Interrupted,
    )) ==> next is Read)
    &&& delivered(call) != Some(Seq::<u8>::empty())
    &&& (call_error(call) is Some ==> call is Read && call_error(call) == Some(
        IoErrorKind::Interrupted,
    ))
}

/// One step of a run that goes on: what its call says of the next call.
proof fn lemma_step(
    event: PumpEvent,
    next_event: PumpEvent,
    action: PumpAction,
    next: PumpAction,
    call: IoCall,
    next_call: IoCall,
)
    requires
        answered_by(event, call),
        answered_by(next_event, next_call),
        answers(action, event),
        answers(next, next_event),
        next == next_action(action, event),
        written_bytes(next_call) is Some ==> delivered(call) == written_bytes(next_call),
    ensures
        step_facts(call, next_call),
{
    if let IoCall::Read { got: Ok(d), .. } = call {
        if d.len() == 0 {
            assert(d =~= Seq::<u8>::empty());
        }
    }
}

/// Law: what a pump run did, told by its calls alone.
///
/// - Every read was given [`BUF_SIZE`] bytes.
/// - A non-empty read that is not the last call is followed by a
///   `write_all` of exactly the bytes it delivered; a successful write that
///   is not the last call is followed by a flush; a successful flush or an
///   interrupted read that is not the last call is followed by a read.
/// - Before the last call there is no end of stream and no failure but an
///   interrupted read.
/// - A last call that failed because the peer went away (a broken pipe, a
///   reset or an aborted connection), in a read, a write or a flush, ends the
///   run with `Ok`.
/// - The run ends with an error exactly when its last call failed with any
///   other kind, short of an interrupted read.
/// - A run of fewer than `u64::MAX` calls ended on an end of stream or on a
///   failure other than an interrupted read, and wrote the bytes of all its
///   non-empty reads, in order, and nothing else.
pub proof fn lemma_pump_run_outcomes(calls: Seq<IoCall>, failed: bool)
    requires
        pump_run(calls, failed),
    ensures
        forall|i: int|
            0 <= i < calls.len() ==> (#[trigger] calls[i] matches IoCall::Read { asked, .. }
                ==> asked == BUF_SIZE),
        forall|i: int| 0 <= i < calls.len() - 1 ==> #[trigger] step_facts(calls[i], calls[i + 1]),
        calls.len() > 0 && peer_went_away(calls.last()) ==> !failed,
        failed <==> (calls.len() > 0 && fatal(calls.last())),
        calls.len() < u64::MAX ==> calls.len() > 0 && (delivered(calls.last()) == Some(
            Seq::<u8>::empty(),
        ) || peer_went_away(calls.last()) || fatal(calls.last())),
        calls.len() < u64::MAX ==> written_data(calls) == read_data(calls),
{
    let events = choose|events: Seq<PumpEvent>| #[trigger] explains(events, calls, failed);
    lemma_actions_index(events);
    let a = actions(events);
    let len = calls.len();
    assert forall|i: int| 0 <= i < len - 1 implies #[trigger] step_facts(calls[i], calls[i + 1]) by {
        assert(answered_by(events[i], calls[i]));
        assert(answered_by(events[i + 1], calls[i + 1]));
        assert(answers(a[i], events[i]));
        assert(answers(a[i + 1], events[i + 1]));
        assert(written_bytes(calls[i + 1]) is Some ==> delivered(calls[i]) == written_bytes(
            calls[i + 1],
        ));
        lemma_step(events[i], events[i + 1], a[i], a[i + 1], calls[i], calls[i + 1]);
    }
    if len > 0 {
        let l = len - 1;
        assert(answered_by(events[l], calls[l]));
        assert(a[l + 1] == next_action(a[l], events[l]));
        assert(calls.last() == calls[l]);
        if let IoCall::Read { got: Ok(d), .. } = calls.last() {
            if d.len() == 0 {
                assert(d =~= Seq::<u8>::empty());
            }
        }
    }
}

/// The calls logged after `start` are `calls`.
proof fn lemma_log_tail(start: Seq<IoCall>, calls: Seq<IoCall>)
    ensures
        (start + calls).take(start.len() as int) == start,
        (start + calls).skip(start.len() as int) == calls,
{
    assert((start + calls).take(start.len() as int) =~= start);
    assert((start + calls).skip(start.len() as int) =~= calls);
}

} // verus!
