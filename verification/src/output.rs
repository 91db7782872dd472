//! Output-flush classification.
//!
//! Rendering and flushing write to a shared sink: the terminal, or the pipe
//! of a pager. A failure whose underlying condition is a broken pipe means
//! the consumer closed the output early; that is a graceful stop, not an
//! error. Every other write failure is the file's failure and carries its
//! original cause.

use vstd::prelude::*;

verus! {

/// A write failure at the output sink, as the binary reports it: either the
/// broken-pipe condition, or any other failure with its cause.
#[derive(Debug)]
pub enum SinkError<E> {
    /// The consumer of the output closed it early.
    BrokenPipe,
    /// Any other write failure, with its original cause.
    Other(E),
}

/// How processing one file ended.
#[derive(Debug)]
pub enum RenderOutcome<E> {
    /// Output was fully produced and flushed.
    Completed,
    /// The consumer stopped reading early; the file still counts as a
    /// success.
    TruncatedByConsumer,
    /// A genuine failure, carrying the original cause.
    Failed(E),
}

/// Classify the result of rendering and flushing one file: a broken pipe is
/// swallowed and treated as success, every other failure is surfaced with
/// its cause.
pub fn classify_render_result<E>(result: Result<(), SinkError<E>>) -> (outcome: RenderOutcome<E>)
    ensures
        match result {
            Ok(u) => outcome is Completed,
            Err(e) => match e {
                SinkError::BrokenPipe => outcome is TruncatedByConsumer,
                SinkError::Other(cause) => outcome == RenderOutcome::Failed(cause),
            },
        },
{
    match result {
        Ok(()) => RenderOutcome::Completed,
        Err(SinkError::BrokenPipe) => RenderOutcome::TruncatedByConsumer,
        Err(SinkError::Other(cause)) => RenderOutcome::Failed(cause),
    }
}

/// Whether an outcome counts as the file's success. Only a genuine failure
/// does not; early truncation by the consumer does.
pub fn outcome_is_success<E>(outcome: &RenderOutcome<E>) -> (r: bool)
    ensures
        r == !(*outcome is Failed),
{
    match outcome {
        RenderOutcome::Failed(_) => false,
        _ => true,
    }
}

/// Broken-pipe classification: a write failure whose underlying condition is
/// a broken pipe yields a successful outcome, and any other write failure
/// yields a failed outcome carrying the original cause.
pub proof fn lemma_broken_pipe_is_benign<E>(
    result: Result<(), SinkError<E>>,
    outcome: RenderOutcome<E>,
)
    requires
        match result {
            Ok(u) => outcome is Completed,
            Err(e) => match e {
                SinkError::BrokenPipe => outcome is TruncatedByConsumer,
                SinkError::Other(cause) => outcome == RenderOutcome::Failed(cause),
            },
        },
    ensures
        result matches Err(SinkError::BrokenPipe) ==> !(outcome is Failed),
        result matches Err(SinkError::Other(cause)) ==> outcome == RenderOutcome::Failed(cause),
{
}

} // verus!
