//! Reading from a source into a cursor.
//!
//! The source is outside this library: a call that is handed a slice of
//! bytes and says how many it wrote, or fails. What is decided before and
//! after such a call is decided here.

use crate::guard::ReadBufRef;
use crate::model::ReadBufView;
use crate::read_buf::ReadBuf;
use crate::storage::Bytes;
use vstd::prelude::*;

verus! {

/// `std::io::Error`, carried through as it is. Nothing is known of what is
/// inside one but its class.
#[verifier::external_type_specification]
#[verifier::external_body]
pub struct ExIoError(std::io::Error);

/// What the read loop tells apart in an error.
#[derive(Clone, Copy, Debug, PartialEq, Eq)]
pub enum ErrorClass {
    /// The call was interrupted before it could do anything; it may be made again.
    Interrupted,
    /// The source ended before the cursor was full.
    UnexpectedEof,
    /// Anything else.
    Other,
}

/// The class of the kind that `std::io::Error::kind` gives for `e`.
pub uninterp spec fn io_error_class(e: std::io::Error) -> ErrorClass;

/// `std::io::Error::kind`, told apart as far as the loop needs it: the
/// result depends on the error alone.
#[verifier::external_body]
fn error_class(e: &std::io::Error) -> (c: ErrorClass)
    ensures
        c == io_error_class(*e),
{
    match e.kind() {
        std::io::ErrorKind::Interrupted => ErrorClass::Interrupted,
        std::io::ErrorKind::UnexpectedEof => ErrorClass::UnexpectedEof,
        _ => ErrorClass::Other,
    }
}

/// `std::io::Error::new` with the kind `UnexpectedEof`: the error has the
/// kind that it was made with.
#[verifier::external_body]
fn unexpected_eof() -> (e: std::io::Error)
    ensures
        io_error_class(e) == ErrorClass::UnexpectedEof,
{
    std::io::Error::new(std::io::ErrorKind::UnexpectedEof, "failed to fill buffer")
}

/// The cursor after a source has answered: on `Ok(n)` the first `n` of the
/// bytes that it was handed are filled, on an error nothing is.
pub open spec fn spec_finish_read(v: ReadBufView, outcome: Result<usize, std::io::Error>)
    -> ReadBufView {
    match outcome {
        Ok(n) => v.add_filled(n as nat),
        Err(_) => v,
    }
}

/// What is returned after a source has answered: its error, if it gave one.
pub open spec fn spec_read_result(outcome: Result<usize, std::io::Error>) -> Result<
    (),
    std::io::Error,
> {
    match outcome {
        Ok(_) => Ok(()),
        Err(e) => Err(e),
    }
}

/// Takes the answer of a source that was handed the unfilled part of the
/// cursor: counts the bytes that it wrote as filled, or hands its error on.
pub fn finish_read<S: Bytes>(mut buf: ReadBufRef<'_, S>, outcome: Result<usize, std::io::Error>)
    -> (r: Result<(), std::io::Error>)
    requires
        buf.cursor().wf(),
        outcome matches Ok(n) ==> buf.cursor()@.can_add_filled(n as nat),
    ensures
        final(buf.cursor()).wf(),
        final(buf.cursor())@ == spec_finish_read(buf.cursor()@, outcome),
        r == spec_read_result(outcome),
{
    match outcome {
        Ok(n) => {
            buf.add_filled(n);
            proof {
                buf.lemma_resolved();
            }
            Ok(())
        },
        Err(e) => {
            proof {
                buf.lemma_resolved();
            }
            Err(e)
        },
    }
}

/// Pulls some bytes from a source into the cursor.
///
/// `read` is the source. It is handed the whole unfilled part of the
/// cursor, made defined first, and answers with the number of bytes that it
/// wrote at the start of it, which are then counted as filled. Its error is
/// handed on as it is, and nothing is counted then.
///
/// The source must not claim more bytes than it was handed. What it does
/// is its own affair: the last clause says that the cursor and the result
/// are those of `finish_read` on some answer that the source may give.
pub fn default_read_buf<F, S>(read: F, mut buf: ReadBufRef<'_, S>) -> (r: Result<
    (),
    std::io::Error,
>) where F: FnOnce(&mut [u8]) -> Result<usize, std::io::Error>, S: Bytes
    requires
        buf.cursor().wf(),
        forall|s: &mut [u8]|
            s@ == buf.cursor()@.initialize_unfilled().unfilled(buf.cursor()@.remaining())
                ==> call_requires(read, (s,)),
        forall|s: &mut [u8], outcome: Result<usize, std::io::Error>|
            s@ == buf.cursor()@.initialize_unfilled().unfilled(buf.cursor()@.remaining())
                && #[trigger] call_ensures(read, (s,), outcome) ==> final(s)@.len() == s@.len() && (
            outcome matches Ok(n) ==> n <= s@.len()),
    ensures
        final(buf.cursor()).wf(),
        final(buf.cursor())@.capacity == buf.cursor()@.capacity,
        final(buf.cursor())@.initialized.len() == buf.cursor()@.capacity,
        final(buf.cursor())@.filled >= buf.cursor()@.filled,
        final(buf.cursor())@.filled_bytes().take(buf.cursor()@.filled as int)
            == buf.cursor()@.filled_bytes(),
        r is Err ==> final(buf.cursor())@.filled == buf.cursor()@.filled,
        exists|s: &mut [u8], outcome: Result<usize, std::io::Error>|
            #![trigger call_ensures(read, (s,), outcome)]
            {
                &&& s@ == buf.cursor()@.initialize_unfilled().unfilled(buf.cursor()@.remaining())
                &&& call_ensures(read, (s,), outcome)
                &&& final(buf.cursor())@ == spec_finish_read(
                    buf.cursor()@.initialize_unfilled().write_unfilled(final(s)@),
                    outcome,
                )
                &&& r == spec_read_result(outcome)
            },
{
    let ghost before = buf.cursor()@;
    let slice: &mut [u8] = buf.initialize_unfilled();
    let outcome = read(slice);
    proof {
        assert(buf.cursor()@.filled_bytes() =~= before.filled_bytes());
    }
    let r = finish_read(buf, outcome);
    proof {
        assert(final(buf.cursor())@.filled_bytes().take(before.filled as int)
            =~= before.filled_bytes());
    }
    r
}

/// Where a run that fills a cursor to its capacity stands.
#[derive(Debug)]
pub enum ExactState {
    /// The cursor is not full: the source is to be asked again.
    Looping,
    /// The cursor is full.
    Done,
    /// The run has failed with this error.
    Failed(std::io::Error),
}

/// The state of a run on a cursor that the source has no quarrel with: done
/// when nothing remains, looping otherwise.
pub open spec fn spec_exact_start(v: ReadBufView) -> ExactState {
    if v.remaining() == 0 {
        ExactState::Done
    } else {
        ExactState::Looping
    }
}

/// The state in which a run begins.
pub fn exact_start<S: Bytes>(buf: &ReadBuf<S>) -> (s: ExactState)
    requires
        buf.wf(),
    ensures
        s == spec_exact_start(buf@),
{
    if buf.remaining() > 0 {
        ExactState::Looping
    } else {
        ExactState::Done
    }
}

/// The state of a run after one more answer of the source.
///
/// `prev_filled` is the number of filled bytes before the source was asked,
/// `buf` the cursor after it. An interrupted call counts for nothing. Any
/// other error ends the run and is handed on as it is. A call that
/// succeeded and filled nothing ends the run with an error of the kind
/// `UnexpectedEof`.
pub fn exact_step<S: Bytes>(
    buf: &ReadBuf<S>,
    prev_filled: usize,
    outcome: Result<(), std::io::Error>,
) -> (s: ExactState)
    requires
        buf.wf(),
    ensures
        match outcome {
            Err(e) => if io_error_class(e) == ErrorClass::Interrupted {
                s == spec_exact_start(buf@)
            } else {
                s == ExactState::Failed(e)
            },
            Ok(()) => if buf@.filled == prev_filled {
                s matches ExactState::Failed(e) && io_error_class(e) == ErrorClass::UnexpectedEof
            } else {
                s == spec_exact_start(buf@)
            },
        },
{
    match outcome {
        Ok(()) => {
            if buf.filled_len() == prev_filled {
                ExactState::Failed(unexpected_eof())
            } else {
                exact_start(buf)
            }
        },
        Err(e) => {
            match error_class(&e) {
                ErrorClass::Interrupted => exact_start(buf),
                _ => ExactState::Failed(e),
            }
        },
    }
}

/// Fills the cursor from a source until it is full, as far as that can be
/// done without waiting: the run stops when the cursor is full, when it has
/// failed, and when the source was interrupted.
///
/// `read` is the source, asked as `default_read_buf` asks it, once for each
/// step of the run. After an interruption the state is `Looping`, and the
/// run is taken up by calling again: nothing is lost by it. What was filled
/// before the run, or in it before an error, stays filled.
#[verifier::loop_isolation(false)]
pub fn default_read_buf_exact<F, S>(mut read: F, mut buf: ReadBufRef<'_, S>) -> (s: ExactState)
    where F: FnMut(&mut [u8]) -> Result<usize, std::io::Error>, S: Bytes
    requires
        buf.cursor().wf(),
        forall|s: &mut [u8]| call_requires(read, (s,)),
        forall|s: &mut [u8], outcome: Result<usize, std::io::Error>|
            #[trigger] call_ensures(read, (s,), outcome) ==> final(s)@.len() == s@.len() && (
            outcome matches Ok(n) ==> n <= s@.len()),
    ensures
        final(buf.cursor()).wf(),
        final(buf.cursor())@.capacity == buf.cursor()@.capacity,
        final(buf.cursor())@.filled >= buf.cursor()@.filled,
        final(buf.cursor())@.filled_bytes().take(buf.cursor()@.filled as int)
            == buf.cursor()@.filled_bytes(),
        s is Done <==> final(buf.cursor())@.remaining() == 0,
        buf.cursor()@.remaining() == 0 ==> final(buf.cursor())@ == buf.cursor()@,
        final(buf.cursor())@.filled > buf.cursor()@.filled ==> exists|
            s: &mut [u8],
            outcome: Result<usize, std::io::Error>,
        |
            #[trigger] call_ensures(read, (s,), outcome) && (outcome matches Ok(n) && n > 0),
        s is Looping ==> exists|s: &mut [u8], outcome: Result<usize, std::io::Error>|
            {
                &&& #[trigger] call_ensures(read, (s,), outcome)
                &&& s@.len() == final(buf.cursor())@.remaining()
                &&& final(s)@ == final(buf.cursor())@.unfilled(final(buf.cursor())@.remaining())
                &&& outcome matches Err(e) && io_error_class(e) == ErrorClass::Interrupted
            },
        s matches ExactState::Failed(e) ==> io_error_class(e) != ErrorClass::Interrupted && exists|
            s: &mut [u8],
            outcome: Result<usize, std::io::Error>,
        |
            {
                &&& #[trigger] call_ensures(read, (s,), outcome)
                &&& s@.len() == final(buf.cursor())@.remaining()
                &&& final(s)@ == final(buf.cursor())@.unfilled(final(buf.cursor())@.remaining())
                &&& match outcome {
                    Ok(n) => n == 0 && io_error_class(e) == ErrorClass::UnexpectedEof,
                    Err(source) => source == e,
                }
            },
{
    let ghost before = buf.cursor()@;
    let ghost at_end = *final(buf.cursor());
    let ghost source = read;
    proof {
        assert(before.filled_bytes().take(before.filled as int) =~= before.filled_bytes());
    }
    let mut state = exact_start(&buf);
    while matches!(state, ExactState::Looping)
        invariant
            buf.cursor().wf(),
            *final(buf.cursor()) == at_end,
            read == source,
            buf.cursor()@.capacity == before.capacity,
            buf.cursor()@.filled >= before.filled,
            buf.cursor()@.filled_bytes().take(before.filled as int) == before.filled_bytes(),
            state == spec_exact_start(buf.cursor()@),
            before.remaining() == 0 ==> buf.cursor()@ == before,
            buf.cursor()@.filled > before.filled ==> exists|
                s: &mut [u8],
                outcome: Result<usize, std::io::Error>,
            |
                #[trigger] call_ensures(source, (s,), outcome) && (outcome matches Ok(n) && n > 0),
        decreases buf.cursor()@.remaining(),
    {
        let ghost entry = buf.cursor()@;
        let prev_filled: usize = buf.filled_len();
        let slice: &mut [u8] = buf.initialize_unfilled();
        let outcome = read(slice);
        proof {
            assert(buf.cursor()@.filled_bytes() =~= entry.filled_bytes());
        }
        let answer = finish_read(buf.reborrow(), outcome);
        proof {
            assert(buf.cursor()@.filled_bytes().take(before.filled as int)
                =~= before.filled_bytes());
        }
        state = exact_step(&buf, prev_filled, answer);
        if buf.filled_len() == prev_filled {
            // Nothing was filled: the run has failed, or the source was
            // interrupted.
            break ;
        }
    }
    proof {
        buf.lemma_resolved();
    }
    state
}

} // verus!
