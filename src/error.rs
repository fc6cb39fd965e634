//! Error types, and the rules for reporting error chains.
use vstd::prelude::*;

use eyre::Report;

use crate::fields::{cause_key, message_key};
use crate::text::text_eq;

verus! {

/// Failures of the data-directory helpers.
#[derive(Debug)]
pub enum FileError {
    /// An I/O failure, with its description.
    Io(String),
    /// A failure from another library, with its description.
    External(String),
    AppDirectoryCreationFailed,
    AppNameAlreadySet,
    DataDirAlreadySet,
}

/// Failures of logging setup.
#[derive(Debug)]
pub enum ConfigError {
    /// A failure from another library, with its description.
    External(String),
    LoggingInitFailed,
}

/// The messages of an error chain that are reported: the error's own, then
/// each cause that differs from the one before it.
pub open spec fn reported_chain(chain: Seq<Seq<char>>) -> Seq<Seq<char>>
    decreases chain.len(),
{
    if chain.len() <= 1 {
        chain
    } else if chain.last() == chain[chain.len() - 2] {
        reported_chain(chain.drop_last())
    } else {
        reported_chain(chain.drop_last()).push(chain.last())
    }
}

/// Reports error chains as log events, one per message.
#[derive(Debug)]
pub struct TracingHandler;

impl TracingHandler {
    /// A handler.
    pub fn new() -> (r: Self) {
        TracingHandler
    }

    /// Of the messages of an error chain (the error first, then its causes),
    /// those to report, in order.
    pub fn chain_messages(&self, chain: &Vec<String>) -> (r: Vec<String>)
        ensures
            r@.map_values(|s: String| s@) == reported_chain(chain@.map_values(|s: String| s@)),
    {
        let ghost cv = chain@.map_values(|s: String| s@);
        let mut out: Vec<String> = Vec::new();
        let mut i: usize = 0;
        while i < chain.len()
            invariant
                cv == chain@.map_values(|s: String| s@),
                i <= chain.len(),
                out@.map_values(|s: String| s@) == reported_chain(cv.take(i as int)),
            decreases chain.len() - i,
        {
            proof {
                assert(cv.take(i + 1).drop_last() =~= cv.take(i as int));
                assert(cv.take(i + 1).last() == cv[i as int]);
            }
            if i == 0 || chain[i] != chain[i - 1] {
                let ghost before = out@.map_values(|s: String| s@);
                out.push(chain[i].clone());
                proof {
                    if i == 0 {
                        assert(cv.take(1) =~= seq![cv[0]]);
                    } else {
                        assert(cv.take(i + 1)[i - 1] == cv[i - 1]);
                    }
                    assert(out@.map_values(|s: String| s@) =~= before.push(cv[i as int]));
                }
            } else {
                assert(cv.take(i + 1)[i - 1] == cv[i - 1]);
            }
            i = i + 1;
        }
        assert(cv.take(i as int) =~= cv);
        out
    }
}

/// The name of the field that holds a recovery action.
pub open spec fn recovery_key() -> Seq<char> {
    seq!['r', 'e', 'c', 'o', 'v', 'e', 'r', 'y']
}

/// The message logged for a recoverable error.
pub open spec fn recoverable_message(error: Seq<char>) -> Seq<char> {
    "Recoverable error, continuing: "@ + error
}

/// The fields of the warning for a recoverable error: the message, the cause
/// where there is one whose text differs from the error's, and the recovery
/// action.
pub open spec fn recoverable_fields(
    error: Seq<char>,
    cause: Option<Seq<char>>,
    recovery: Seq<char>,
) -> Seq<(Seq<char>, Seq<char>)> {
    match cause {
        Some(c) => if c != error {
            seq![
                (message_key(), recoverable_message(error)),
                (cause_key(), c),
                (recovery_key(), recovery),
            ]
        } else {
            seq![(message_key(), recoverable_message(error)), (recovery_key(), recovery)]
        },
        None => seq![(message_key(), recoverable_message(error)), (recovery_key(), recovery)],
    }
}

#[verifier::external_type_specification]
#[verifier::external_body]
pub struct ExReport(Report);

/// The cause to report beside an error: the cause's text, where the error
/// has a cause whose text differs from the error's own.
pub fn reported_cause<'a>(error_text: &str, cause_text: Option<&'a str>) -> (r: Option<&'a str>)
    ensures
        match cause_text {
            Some(c) => if c@ != error_text@ {
                r == Some(c)
            } else {
                r is None
            },
            None => r is None,
        },
{
    match cause_text {
        Some(c) => if text_eq(c, error_text) {
            None
        } else {
            Some(c)
        },
        None => None,
    }
}

/// Relies on `Report`'s `Display`: the error's own message.
#[verifier::external_body]
pub(crate) fn report_text(error: &Report) -> (r: String) {
    error.to_string()
}

/// Relies on `Error::source` through `Report`'s `Deref`: the message of the
/// error's first cause, if it has one.
#[verifier::external_body]
pub(crate) fn report_cause_text(error: &Report) -> (r: Option<String>) {
    error.source().map(|c| c.to_string())
}

} // verus!
