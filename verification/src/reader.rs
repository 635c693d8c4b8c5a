//! The bounded reader: a decorator that counts the bytes a wrapped stream
//! produces and fails the read as soon as a length limit is violated.
//!
//! The decorator itself holds no stream: it is a poll-driven state machine.
//! Whatever drives the wrapped stream reports each delegate outcome as a
//! [`ReadEvent`]; [`BoundedReader::observe`] does the accounting and the limit
//! checks and answers with a [`ReadOutcome`] that says what the read call must
//! return. Payload bytes are never touched, only counted.

use vstd::prelude::*;
use vstd::string::StringExecFns;

use crate::digits::decimal_string;
use crate::digits::spec_decimal;

verus! {

/// A limit violation detected while observing a stream.
///
/// All three kinds are terminal: once one has been reported, the stream has
/// either delivered more bytes than allowed or ended short of its declared
/// size, and no retry can mend that.
#[derive(Clone, Copy, Debug, PartialEq, Eq, Structural)]
pub enum Error {
    /// The accumulated byte count exceeded the hard ceiling.
    MaxLengthExceeded { max_length: usize },
    /// The accumulated byte count exceeded the declared exact size.
    ExceedsExpectedLength { expected_length: usize },
    /// The stream ended before reaching the declared exact size.
    ShorterThanExpectedLength { bytes_read: usize, expected_length: usize },
}

/// One delegate outcome of the wrapped stream, as the decorator sees it.
#[derive(Clone, Copy, Debug, PartialEq, Eq, Structural)]
pub enum ReadEvent {
    /// The stream has no data yet and cannot complete synchronously.
    NotReady,
    /// The stream produced `count` bytes; `count == 0` is clean end-of-stream.
    Data { count: usize },
    /// The stream failed with an error of its own.
    Failed,
}

/// What a read call must return after the decorator has observed one event.
#[derive(Clone, Copy, Debug, PartialEq, Eq, Structural)]
pub enum ReadOutcome {
    /// Propagate "not ready" unchanged; no accounting happened.
    NotReady,
    /// Success: pass `count` bytes through untouched; `count == 0` reports
    /// clean end-of-stream upward.
    Data { count: usize },
    /// Propagate the stream's own error unchanged; no accounting happened.
    Failed,
    /// A limit violation: the read call fails with this error.
    Violated { error: Error },
}

/// The human-readable form of each violation.
pub open spec fn spec_message(e: Error) -> Seq<char> {
    match e {
        Error::MaxLengthExceeded { max_length } => "payload is larger than configured maximum (>"@
            + spec_decimal(max_length as nat) + " bytes)"@,
        Error::ExceedsExpectedLength { expected_length } => "payload is larger than expected (>"@
            + spec_decimal(expected_length as nat) + " bytes)"@,
        Error::ShorterThanExpectedLength { bytes_read, expected_length } => "payload is smaller than expected ("@
            + spec_decimal(bytes_read as nat) + " < "@ + spec_decimal(expected_length as nat)
            + ")"@,
    }
}

impl Error {
    /// Render the violation as its human-readable message.
    pub fn message(&self) -> (r: String)
        ensures
            r@ == spec_message(*self),
    {
        match self {
            Error::MaxLengthExceeded { max_length } => {
                let mut s = String::from_str("payload is larger than configured maximum (>");
                s.append(decimal_string(*max_length).as_str());
                s.append(" bytes)");
                s
            },
            Error::ExceedsExpectedLength { expected_length } => {
                let mut s = String::from_str("payload is larger than expected (>");
                s.append(decimal_string(*expected_length).as_str());
                s.append(" bytes)");
                s
            },
            Error::ShorterThanExpectedLength { bytes_read, expected_length } => {
                let mut s = String::from_str("payload is smaller than expected (");
                s.append(decimal_string(*bytes_read).as_str());
                s.append(" < ");
                s.append(decimal_string(*expected_length).as_str());
                s.append(")");
                s
            },
        }
    }
}

/// What `check_under_maximum` decides: a count within the ceiling passes,
/// anything above it is a `MaxLengthExceeded` violation.
pub open spec fn spec_check_under_maximum(current_length: usize, max_length: usize) -> Result<
    (),
    Error,
> {
    if current_length > max_length {
        Err(Error::MaxLengthExceeded { max_length })
    } else {
        Ok(())
    }
}

/// Check the accumulated byte count against the hard ceiling.
pub fn check_under_maximum(current_length: usize, max_length: usize) -> (r: Result<(), Error>)
    ensures
        r == spec_check_under_maximum(current_length, max_length),
{
    if current_length > max_length {
        Err(Error::MaxLengthExceeded { max_length })
    } else {
        Ok(())
    }
}

/// What `check_under_expected` decides: with no declared size every count
/// passes; with one, a count above it is an `ExceedsExpectedLength` violation.
pub open spec fn spec_check_under_expected(
    current_length: usize,
    expected_length: Option<usize>,
) -> Result<(), Error> {
    match expected_length {
        Some(expected) => if current_length > expected {
            Err(Error::ExceedsExpectedLength { expected_length: expected })
        } else {
            Ok(())
        },
        None => Ok(()),
    }
}

/// Check the accumulated byte count against the declared exact size, if any.
pub fn check_under_expected(current_length: usize, expected_length: Option<usize>) -> (r: Result<
    (),
    Error,
>)
    ensures
        r == spec_check_under_expected(current_length, expected_length),
{
    match expected_length {
        Some(expected) => if current_length > expected {
            Err(Error::ExceedsExpectedLength { expected_length: expected })
        } else {
            Ok(())
        },
        None => Ok(()),
    }
}

/// What `handle_eof` decides: clean end-of-stream succeeds with 0 bytes,
/// unless a declared exact size has not been reached.
pub open spec fn spec_handle_eof(current_length: usize, expected_length: Option<usize>) -> Result<
    usize,
    Error,
> {
    match expected_length {
        Some(expected) => if current_length < expected {
            Err(
                Error::ShorterThanExpectedLength {
                    bytes_read: current_length,
                    expected_length: expected,
                },
            )
        } else {
            Ok(0usize)
        },
        None => Ok(0usize),
    }
}

/// Decide what a clean end-of-stream means for the accumulated byte count.
pub fn handle_eof(current_length: usize, expected_length: Option<usize>) -> (r: Result<usize, Error>)
    ensures
        r == spec_handle_eof(current_length, expected_length),
{
    match expected_length {
        Some(expected) => if current_length < expected {
            Err(
                Error::ShorterThanExpectedLength {
                    bytes_read: current_length,
                    expected_length: expected,
                },
            )
        } else {
            Ok(0)
        },
        None => Ok(0),
    }
}

/// What `handle_ok` decides after adding `bytes` to the count: the hard
/// ceiling is checked first, then the declared exact size; if both pass, the
/// read succeeds with `bytes` unchanged.
pub open spec fn spec_handle_ok(
    current_length: usize,
    max_length: usize,
    expected_length: Option<usize>,
    bytes: usize,
) -> Result<usize, Error> {
    if current_length + bytes > max_length {
        Err(Error::MaxLengthExceeded { max_length })
    } else {
        match expected_length {
            Some(expected) => if current_length + bytes > expected {
                Err(Error::ExceedsExpectedLength { expected_length: expected })
            } else {
                Ok(bytes)
            },
            None => Ok(bytes),
        }
    }
}

/// Account for `bytes` freshly produced bytes, then apply the limit checks in
/// order: the hard ceiling first, then the declared exact size.
///
/// On failure the count keeps the bytes actually consumed from the stream;
/// nothing is rolled back.
pub fn handle_ok(
    current_length: &mut usize,
    max_length: usize,
    expected_length: Option<usize>,
    bytes: usize,
) -> (r: Result<usize, Error>)
    requires
        *old(current_length) + bytes <= usize::MAX,
    ensures
        *final(current_length) == *old(current_length) + bytes,
        r == spec_handle_ok(*old(current_length), max_length, expected_length, bytes),
{
    *current_length += bytes;

    let checked = match check_under_maximum(*current_length, max_length) {
        Ok(()) => check_under_expected(*current_length, expected_length),
        Err(e) => Err(e),
    };

    match checked {
        Ok(()) => Ok(bytes),
        Err(e) => Err(e),
    }
}

/// The byte count after one event: `Data { count }` adds `count` (whether the
/// checks then pass or not — the count keeps the bytes actually consumed);
/// every other event leaves the count unchanged.
pub open spec fn spec_next_count(current_length: usize, event: ReadEvent) -> int {
    match event {
        ReadEvent::Data { count } => current_length + count,
        _ => current_length as int,
    }
}

/// The whole state machine for one event: "not ready" and the stream's own
/// errors pass through with no accounting; `count == 0` is handled as clean
/// end-of-stream; `count > 0` is accounted and checked against the limits.
pub open spec fn spec_observe(
    max_length: usize,
    expected_length: Option<usize>,
    current_length: usize,
    event: ReadEvent,
) -> ReadOutcome {
    match event {
        ReadEvent::NotReady => ReadOutcome::NotReady,
        ReadEvent::Failed => ReadOutcome::Failed,
        ReadEvent::Data { count } => if count == 0 {
            match spec_handle_eof(current_length, expected_length) {
                Ok(_) => ReadOutcome::Data { count: 0usize },
                Err(error) => ReadOutcome::Violated { error },
            }
        } else {
            match spec_handle_ok(current_length, max_length, expected_length, count) {
                Ok(_) => ReadOutcome::Data { count },
                Err(error) => ReadOutcome::Violated { error },
            }
        },
    }
}

/// When the completion notifier fires, and with what: exactly on the two
/// terminal outcomes — success on clean end-of-stream under the limits,
/// the violation reason on any limit failure. Passed-through bytes,
/// "not ready" and the stream's own errors notify nothing.
pub open spec fn spec_notification(outcome: ReadOutcome) -> Option<Result<(), Error>> {
    match outcome {
        ReadOutcome::Data { count } => if count == 0 {
            Some(Ok(()))
        } else {
            None
        },
        ReadOutcome::Violated { error } => Some(Err(error)),
        _ => None,
    }
}

/// The total number of bytes in a sequence of chunks.
pub open spec fn spec_sum(chunks: Seq<usize>) -> int
    decreases chunks.len(),
{
    if chunks.len() == 0 {
        0
    } else {
        chunks[0] + spec_sum(chunks.skip(1))
    }
}

/// A payload of `len` bytes as the stream delivers it: full chunks of
/// `chunk_size` bytes, then whatever remains.
pub open spec fn spec_chunking(len: nat, chunk_size: nat) -> Seq<usize>
    recommends
        chunk_size > 0,
        len <= usize::MAX,
    decreases len,
{
    if len == 0 || chunk_size == 0 {
        Seq::empty()
    } else if len <= chunk_size {
        seq![len as usize]
    } else {
        seq![chunk_size as usize].add(spec_chunking((len - chunk_size) as nat, chunk_size))
    }
}

/// How one whole run of the state machine ends.
pub struct DriveOutcome {
    /// `Ok(())` if every read and the final end-of-stream passed the limit
    /// checks, otherwise the first violation.
    pub result: Result<(), Error>,
    /// How many chunk reads succeeded before the run ended: on success the
    /// number of chunks, on a violation the index of the failing read.
    pub consumed: int,
    /// The byte count when the run ended.
    pub count: int,
    /// The callback notifications of the run, in order, as they would be
    /// observed by a configured callback.
    pub notices: Seq<Result<(), Error>>,
}

/// One whole run of the state machine: the stream delivers `chunks` one read
/// at a time (each chunk non-empty) and then reports clean end-of-stream.
/// The run stops at the first violation.
pub open spec fn spec_drive(
    max_length: usize,
    expected_length: Option<usize>,
    current_length: usize,
    chunks: Seq<usize>,
) -> DriveOutcome
    recommends
        current_length + spec_sum(chunks) <= usize::MAX,
        forall|i: int| 0 <= i < chunks.len() ==> chunks[i] > 0,
    decreases chunks.len(),
{
    if chunks.len() == 0 {
        match spec_handle_eof(current_length, expected_length) {
            Ok(_) => DriveOutcome {
                result: Ok(()),
                consumed: 0,
                count: current_length as int,
                notices: seq![Ok(())],
            },
            Err(error) => DriveOutcome {
                result: Err(error),
                consumed: 0,
                count: current_length as int,
                notices: seq![Err(error)],
            },
        }
    } else {
        let first = chunks[0];
        match spec_handle_ok(current_length, max_length, expected_length, first) {
            Err(error) => DriveOutcome {
                result: Err(error),
                consumed: 0,
                count: current_length + first,
                notices: seq![Err(error)],
            },
            Ok(_) => {
                let rest = spec_drive(
                    max_length,
                    expected_length,
                    (current_length + first) as usize,
                    chunks.skip(1),
                );
                DriveOutcome {
                    result: rest.result,
                    consumed: 1 + rest.consumed,
                    count: rest.count,
                    notices: rest.notices,
                }
            },
        }
    }
}

/// A completion observer: a fire-and-forget hook the reader invokes once per
/// logical stream lifetime, with `Ok(())` on clean completion under the
/// limits or with the violation reason otherwise.
pub trait Callback {
    /// Observe the terminal outcome of the stream.
    fn call(&self, outcome: Result<(), Error>);
}

/// The absent observer: a reader built without a callback carries this type
/// and never invokes it.
pub struct NoopCallback;

impl Callback for NoopCallback {
    fn call(&self, _outcome: Result<(), Error>) {
    }
}

/// The mathematical state of a bounded reader: the accumulated byte count,
/// the immutable configuration, and the log of callback invocations so far.
pub struct ReaderView {
    pub bytes_read: usize,
    pub max_length: usize,
    pub expected_length: Option<usize>,
    pub has_callback: bool,
    pub notices: Seq<Result<(), Error>>,
}

/// The bounded reader decorator: counts the bytes a wrapped stream produces
/// and enforces a hard ceiling and, optionally, a declared exact size.
///
/// The ghost `notices` field logs every invocation of the completion
/// callback, so contracts can state that the callback fires exactly once per
/// logical stream lifetime.
pub struct BoundedReader<C: Callback> {
    bytes_read: usize,
    max_length: usize,
    expected_length: Option<usize>,
    callback: Option<C>,
    notices: Ghost<Seq<Result<(), Error>>>,
}

impl<C: Callback> View for BoundedReader<C> {
    type V = ReaderView;

    closed spec fn view(&self) -> ReaderView {
        ReaderView {
            bytes_read: self.bytes_read,
            max_length: self.max_length,
            expected_length: self.expected_length,
            has_callback: self.callback is Some,
            notices: self.notices@,
        }
    }
}

impl BoundedReader<NoopCallback> {
    /// A reader with a hard ceiling only: no declared size, no callback.
    pub fn new(max_length: usize) -> (r: Self)
        ensures
            r@ == (ReaderView {
                bytes_read: 0,
                max_length,
                expected_length: None,
                has_callback: false,
                notices: Seq::empty(),
            }),
    {
        BoundedReader {
            bytes_read: 0,
            max_length,
            expected_length: None,
            callback: None,
            notices: Ghost(Seq::empty()),
        }
    }
}

impl<C: Callback> BoundedReader<C> {
    /// The bytes the wrapped stream has produced so far.
    pub fn bytes_read(&self) -> (r: usize)
        ensures
            r == self@.bytes_read,
    {
        self.bytes_read
    }

    /// The hard ceiling, immutable after construction.
    pub fn max_length(&self) -> (r: usize)
        ensures
            r == self@.max_length,
    {
        self.max_length
    }

    /// The declared exact size, if one was configured.
    pub fn expected_length(&self) -> (r: Option<usize>)
        ensures
            r == self@.expected_length,
    {
        self.expected_length
    }

    /// Declare the exact size the stream must yield in total.
    pub fn with_expected_length(self, expected_length: usize) -> (r: Self)
        ensures
            r@ == (ReaderView { expected_length: Some(expected_length), ..self@ }),
    {
        BoundedReader { expected_length: Some(expected_length), ..self }
    }

    /// Set a callback which fires once when the stream is fully read: with
    /// `Ok(())` on clean completion under the limits, with the violation
    /// reason otherwise.
    pub fn with_callback<D: Callback>(self, callback: D) -> (r: BoundedReader<D>)
        ensures
            r@ == (ReaderView { has_callback: true, ..self@ }),
    {
        BoundedReader {
            bytes_read: self.bytes_read,
            max_length: self.max_length,
            expected_length: self.expected_length,
            callback: Some(callback),
            notices: self.notices,
        }
    }

    /// Invoke the configured callback, if any, and log the invocation.
    fn notify(&mut self, outcome: Result<(), Error>)
        ensures
            final(self)@ == (ReaderView {
                notices: if old(self)@.has_callback {
                    old(self)@.notices.push(outcome)
                } else {
                    old(self)@.notices
                },
                ..old(self)@
            }),
    {
        match &self.callback {
            Some(cb) => {
                cb.call(outcome);
                self.notices = Ghost(self.notices@.push(outcome));
            },
            None => (),
        }
    }

    /// Observe one delegate outcome of the wrapped stream: account for the
    /// bytes it produced, apply the limit checks, and fire the callback on a
    /// terminal outcome.
    pub fn observe(&mut self, event: ReadEvent) -> (r: ReadOutcome)
        requires
            event matches ReadEvent::Data { count } ==> old(self)@.bytes_read + count
                <= usize::MAX,
        ensures
            r == spec_observe(
                old(self)@.max_length,
                old(self)@.expected_length,
                old(self)@.bytes_read,
                event,
            ),
            final(self)@ == (ReaderView {
                bytes_read: spec_next_count(old(self)@.bytes_read, event) as usize,
                notices: if old(self)@.has_callback {
                    match spec_notification(r) {
                        Some(notice) => old(self)@.notices.push(notice),
                        None => old(self)@.notices,
                    }
                } else {
                    old(self)@.notices
                },
                ..old(self)@
            }),
    {
        match event {
            ReadEvent::NotReady => ReadOutcome::NotReady,
            ReadEvent::Failed => ReadOutcome::Failed,
            ReadEvent::Data { count } => {
                if count == 0 {
                    match handle_eof(self.bytes_read, self.expected_length) {
                        Ok(_) => {
                            self.notify(Ok(()));
                            ReadOutcome::Data { count: 0 }
                        },
                        Err(error) => {
                            self.notify(Err(error));
                            ReadOutcome::Violated { error }
                        },
                    }
                } else {
                    match handle_ok(
                        &mut self.bytes_read,
                        self.max_length,
                        self.expected_length,
                        count,
                    ) {
                        Ok(_) => ReadOutcome::Data { count },
                        Err(error) => {
                            self.notify(Err(error));
                            ReadOutcome::Violated { error }
                        },
                    }
                }
            },
        }
    }

    /// Read a whole in-memory payload through the decorator, as a stream
    /// would deliver it: `chunk_size` bytes per read, then clean
    /// end-of-stream. On success the payload comes back byte-for-byte
    /// untouched; on a violation the read stops with the first error.
    pub fn read_to_end(&mut self, payload: &[u8], chunk_size: usize) -> (r: Result<Vec<u8>, Error>)
        requires
            old(self)@.bytes_read == 0,
            chunk_size > 0,
        ensures
            ({
                let d = spec_drive(
                    old(self)@.max_length,
                    old(self)@.expected_length,
                    0,
                    spec_chunking(payload@.len(), chunk_size as nat),
                );
                &&& (r is Ok <==> d.result is Ok)
                &&& (r matches Ok(bytes) ==> bytes@ == payload@)
                &&& (r matches Err(error) ==> d.result == Err::<(), Error>(error))
                &&& final(self)@.bytes_read == d.count
                &&& final(self)@.max_length == old(self)@.max_length
                &&& final(self)@.expected_length == old(self)@.expected_length
                &&& final(self)@.has_callback == old(self)@.has_callback
                &&& final(self)@.notices == if old(self)@.has_callback {
                    old(self)@.notices + d.notices
                } else {
                    old(self)@.notices
                }
            }),
    {
        let total = payload.len();
        let ghost m = old(self)@.max_length;
        let ghost e = old(self)@.expected_length;
        let ghost full = spec_drive(m, e, 0, spec_chunking(payload@.len(), chunk_size as nat));

        let mut out: Vec<u8> = Vec::new();
        let mut pos: usize = 0;

        while pos < total
            invariant
                chunk_size > 0,
                pos <= payload@.len(),
                total == payload@.len(),
                m == old(self)@.max_length,
                e == old(self)@.expected_length,
                full == spec_drive(m, e, 0, spec_chunking(payload@.len(), chunk_size as nat)),
                self@.bytes_read == pos,
                self@.max_length == m,
                self@.expected_length == e,
                self@.has_callback == old(self)@.has_callback,
                self@.notices == old(self)@.notices,
                out@ == payload@.subrange(0, pos as int),
                ({
                    let rest = spec_drive(
                        m,
                        e,
                        pos,
                        spec_chunking((payload@.len() - pos) as nat, chunk_size as nat),
                    );
                    rest.result == full.result && rest.count == full.count && rest.notices
                        == full.notices
                }),
            decreases payload@.len() - pos,
        {
            let remaining = total - pos;
            let n = if remaining < chunk_size {
                remaining
            } else {
                chunk_size
            };

            proof {
                let rem_chunks = spec_chunking((payload@.len() - pos) as nat, chunk_size as nat);
                assert(rem_chunks[0] == n);
                assert(rem_chunks.skip(1) =~= spec_chunking(
                    (payload@.len() - pos - n) as nat,
                    chunk_size as nat,
                ));
            }

            let outcome = self.observe(ReadEvent::Data { count: n });
            match outcome {
                ReadOutcome::Data { .. } => {
                    let chunk = vstd::slice::slice_subrange(payload, pos, pos + n);
                    out.extend_from_slice(chunk);
                    pos = pos + n;
                    proof {
                        assert(out@ =~= payload@.subrange(0, pos as int));
                    }
                },
                ReadOutcome::Violated { error } => {
                    proof {
                        if old(self)@.has_callback {
                            assert(old(self)@.notices.push(Err(error)) =~= old(self)@.notices
                                + seq![Err::<(), Error>(error)]);
                        }
                    }
                    return Err(error);
                },
                _ => {
                    return unreached();
                },
            }
        }

        let outcome = self.observe(ReadEvent::Data { count: 0 });
        match outcome {
            ReadOutcome::Data { .. } => {
                proof {
                    assert(out@ =~= payload@);
                    if old(self)@.has_callback {
                        assert(old(self)@.notices.push(Ok(())) =~= old(self)@.notices + seq![
                            Ok::<(), Error>(()),
                        ]);
                    }
                }
                Ok(out)
            },
            ReadOutcome::Violated { error } => {
                proof {
                    if old(self)@.has_callback {
                        assert(old(self)@.notices.push(Err(error)) =~= old(self)@.notices + seq![
                            Err::<(), Error>(error),
                        ]);
                    }
                }
                Err(error)
            },
            _ => unreached(),
        }
    }
}

} // verus!
