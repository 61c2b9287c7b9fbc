//! The termination supervisor: the tri-state outcome of one supervised run
//! and its mapping to diagnostic output and an exit disposition.

use crate::error::{bug_message, error_chain, Error, SourceError};
use vstd::prelude::*;

verus! {

/// The outcome of one supervised run of the top-level entry point. Created
/// once per process invocation and consumed once to decide how the process
/// ends.
pub enum Exit<B> {
    /// The entry point returned success.
    Success,
    /// The entry point returned a handled failure.
    Error(Error<B>),
    /// The entry point triggered an unexpected defect instead of returning;
    /// the payload is whatever the defect mechanism carried.
    Bug(B),
}

/// How the process is to end after its report is printed.
#[derive(Clone, Copy, PartialEq, Eq, Structural, Debug)]
pub enum Disposition {
    /// A clean success exit.
    Success,
    /// A clean handled-failure exit.
    Failure,
    /// Re-trigger the defect, ending through abnormal termination.
    Abort,
}

impl Disposition {
    /// The process exit code: 0 for success, 1 for a handled failure, and
    /// none for abnormal termination, which yields no ordinary exit code.
    pub fn exit_code(&self) -> (r: Option<u8>)
        ensures
            r == (match *self {
                Disposition::Success => Some(0u8),
                Disposition::Failure => Some(1u8),
                Disposition::Abort => None,
            }),
    {
        match self {
            Disposition::Success => Some(0),
            Disposition::Failure => Some(1),
            Disposition::Abort => None,
        }
    }
}

/// What one outcome asks of the process boundary: the lines to print to the
/// diagnostic stream, in order, before anything else happens; then the exit
/// disposition; and, for a defect, the payload to re-trigger.
pub struct Report<B> {
    /// The lines to print to the diagnostic stream, in order.
    pub lines: Vec<String>,
    /// How the process is to end once the lines are printed.
    pub disposition: Disposition,
    /// The defect payload to re-trigger when the disposition is
    /// [`Disposition::Abort`].
    pub payload: Option<B>,
}

impl<B> Exit<B> {
    /// Classifies what running the entry point under a panic boundary
    /// produced: the caller passes `Ok` with the entry point's own result
    /// when it returned, and `Err` with the defect's payload when it did
    /// not.
    pub fn from_outcome(outcome: Result<Result<(), Error<B>>, B>) -> (r: Exit<B>)
        ensures
            r == (match outcome {
                Ok(Ok(())) => Exit::<B>::Success,
                Ok(Err(e)) => Exit::<B>::Error(e),
                Err(b) => Exit::<B>::Bug(b),
            }),
    {
        match outcome {
            Ok(Ok(())) => Exit::Success,
            Ok(Err(e)) => Exit::Error(e),
            Err(b) => Exit::Bug(b),
        }
    }

    /// Maps this outcome to the report the process boundary executes:
    /// success prints nothing and exits cleanly; a handled error prints its
    /// rendered cause chain, one line per link, and exits with the failure
    /// code; a defect prints the fixed bug-report message and is then
    /// re-triggered.
    pub fn report(self) -> (r: Report<B>)
        ensures
            self is Success ==> r.lines@.len() == 0 && r.disposition is Success && r.payload is None,
            self matches Exit::Error(e) ==> r.lines.deep_view() == error_chain(e)
                && r.lines@.len() == error_chain(e).len() && r.disposition is Failure
                && r.payload is None,
            self matches Exit::Bug(b) ==> r.lines.deep_view() == seq![bug_message()]
                && r.lines@.len() == 1 && r.disposition is Abort && r.payload == Some(b),
    {
        match self {
            Exit::Success => Report { lines: Vec::new(), disposition: Disposition::Success, payload: None },
            Exit::Error(e) => {
                let mut lines: Vec<String> = Vec::new();
                let first = e.display();
                lines.push(first);
                proof {
                    assert(lines.deep_view() =~= seq![error_chain(e)[0]]);
                }
                match &e {
                    Error::IoOperation { source, .. } => {
                        let mut cur: &SourceError = &**source;
                        loop
                            invariant_except_break
                                lines.deep_view() + cur.chain() == error_chain(e),
                            ensures
                                lines.deep_view() == error_chain(e),
                            decreases cur.chain().len(),
                        {
                            let ghost pre = lines.deep_view();
                            let line = cur.display();
                            lines.push(line);
                            proof {
                                assert(lines.deep_view() =~= pre + seq![cur.message@]);
                            }
                            match &cur.cause {
                                Some(c) => {
                                    proof {
                                        assert(pre + cur.chain() =~= (pre + seq![cur.message@])
                                            + c.chain());
                                    }
                                    cur = &**c;
                                },
                                None => {
                                    proof {
                                        assert(pre + cur.chain() =~= pre + seq![cur.message@]);
                                    }
                                    break;
                                },
                            }
                        }
                    },
                    _ => {
                        proof {
                            assert(lines.deep_view() =~= error_chain(e));
                        }
                    },
                }
                Report { lines, disposition: Disposition::Failure, payload: None }
            },
            Exit::Bug(b) => {
                let mut lines: Vec<String> = Vec::new();
                lines.push(
                    "Unhandled termination. We would appreciate a bug report for this".to_owned(),
                );
                proof {
                    assert(lines.deep_view() =~= seq![bug_message()]);
                }
                Report { lines, disposition: Disposition::Abort, payload: Some(b) }
            },
        }
    }
}

/// The top-level fallible entry point, run once per process invocation
/// under the termination supervisor. The business-logic modules that would
/// act here sit outside this crate and surface their failures as [`Error`]
/// values; with none wired in, the run succeeds.
pub fn _do<B>() -> (r: Result<(), Error<B>>)
    ensures
        r is Ok,
{
    Ok(())
}

} // verus!
