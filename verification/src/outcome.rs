use vstd::prelude::*;
use crate::exception::CxxAsyncException;

verus! {

/// The code reported while the channel is unresolved.
pub const RECV_RESULT_PENDING: i32 = 0;

/// The code reported with a value.
pub const RECV_RESULT_READY: i32 = 1;

/// The code reported with the message of a failure that the producer
/// reported.
pub const RECV_RESULT_ERROR: i32 = 2;

/// The code reported when the producer went away without resolving: a broken
/// producer, which is no reported failure and has a code of its own.
pub const RECV_RESULT_CANCELLED: i32 = 3;

/// The text reported when the producer went away without resolving.
pub const CANCELLED_MESSAGE: &'static str = "Cancelled (sender dropped)";

/// What one observation of a channel yields.
#[derive(Debug)]
pub enum Received<T> {
    /// Nothing has been sent yet.
    Pending,
    /// The producer completed with this value.
    Ready(T),
    /// The producer completed with this failure.
    Errored(CxxAsyncException),
    /// The producer went away before completing.
    Cancelled,
}

impl<T> Received<T> {
    /// Whether this outcome ends the channel: every outcome but `Pending`.
    pub open spec fn is_terminal(&self) -> bool {
        !(self is Pending)
    }

    /// The result code that stands for this outcome across the boundary: one
    /// code for each of the four kinds of outcome.
    pub open spec fn code_of(&self) -> i32 {
        match self {
            Received::Pending => RECV_RESULT_PENDING,
            Received::Ready(_) => RECV_RESULT_READY,
            Received::Errored(_) => RECV_RESULT_ERROR,
            Received::Cancelled => RECV_RESULT_CANCELLED,
        }
    }

    /// The text that this outcome adds to the error buffer: the failure's
    /// message, the fixed cancellation text, or nothing.
    pub open spec fn error_text(&self) -> Seq<char> {
        match self {
            Received::Errored(exception) => exception@,
            Received::Cancelled => CANCELLED_MESSAGE@,
            _ => Seq::empty(),
        }
    }

    /// Whether `code`, the result slot and the error buffer are what handing
    /// this outcome over leaves behind: the outcome's code; its value in the
    /// slot, or else the slot as it was; and the buffer as it was, followed
    /// by the outcome's error text.
    pub open spec fn is_reported_as(
        &self,
        code: i32,
        slot_before: T,
        slot_after: T,
        error_before: Seq<char>,
        error_after: Seq<char>,
    ) -> bool {
        &&& code == self.code_of()
        &&& slot_after == (match self {
            Received::Ready(value) => *value,
            _ => slot_before,
        })
        &&& error_after == error_before + self.error_text()
    }

    /// Whether this outcome ends the channel.
    pub fn terminal(&self) -> (terminal: bool)
        ensures
            terminal == self.is_terminal(),
    {
        match self {
            Received::Pending => false,
            _ => true,
        }
    }

    /// The result code that stands for this outcome across the boundary.
    pub fn code(&self) -> (code: i32)
        ensures
            code == self.code_of(),
    {
        match self {
            Received::Pending => RECV_RESULT_PENDING,
            Received::Ready(_) => RECV_RESULT_READY,
            Received::Errored(_) => RECV_RESULT_ERROR,
            Received::Cancelled => RECV_RESULT_CANCELLED,
        }
    }

    /// Hands the outcome over in the boundary's convention: a value goes into
    /// the result slot, an error text is appended to the buffer, and the code
    /// says which kind of outcome it was. A failure and a cancellation both
    /// leave a text, but under different codes.
    pub fn report(self, maybe_result: &mut T, error: &mut String) -> (code: i32)
        ensures
            code == self.code_of(),
            *final(maybe_result) == (match self {
                Received::Ready(value) => value,
                _ => *old(maybe_result),
            }),
            final(error)@ == old(error)@ + self.error_text(),
            self.is_reported_as(
                code,
                *old(maybe_result),
                *final(maybe_result),
                old(error)@,
                final(error)@,
            ),
    {
        match self {
            Received::Pending => {
                assert(error@ + Seq::<char>::empty() =~= error@);
                RECV_RESULT_PENDING
            },
            Received::Ready(value) => {
                *maybe_result = value;
                assert(error@ + Seq::<char>::empty() =~= error@);
                RECV_RESULT_READY
            },
            Received::Errored(exception) => {
                error.append(exception.what());
                RECV_RESULT_ERROR
            },
            Received::Cancelled => {
                error.append(CANCELLED_MESSAGE);
                RECV_RESULT_CANCELLED
            },
        }
    }
}

/// The code alone tells the four kinds of outcome apart: a cancellation is
/// never taken for a reported failure, whatever text the failure carries, nor
/// for a value or a pending channel.
pub proof fn law_code_tells_outcomes_apart<T>(outcome: Received<T>)
    ensures
        outcome.code_of() == RECV_RESULT_PENDING <==> outcome is Pending,
        outcome.code_of() == RECV_RESULT_READY <==> outcome is Ready,
        outcome.code_of() == RECV_RESULT_ERROR <==> outcome is Errored,
        outcome.code_of() == RECV_RESULT_CANCELLED <==> outcome is Cancelled,
{
}

} // verus!
