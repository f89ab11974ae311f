//! The calling convention seen by a host process: coarse result codes, the
//! checks made on a request before any work, and the hand-over of output.
use crate::transpile::{
    classify, has_source_extension, outcome_of, pipeline_outcome, stage_at, stage_diagnostics,
    texts, Error, Stage, Transpiler,
};
use vstd::prelude::*;
use vstd::utf8::{decode_utf8, valid_utf8};

verus! {

/// The code handed back across the boundary for every transpile request.
#[derive(Clone, Copy, Debug, PartialEq, Eq, Structural)]
pub enum Result {
    /// Success
    Success,
    /// Provided arguments are not valid
    Invalid,
    /// An error occurred with I/O
    Io,
    /// Unable to parse the source
    Parse,
    /// Semantic issue with the source
    Semantic,
    /// Unable to transpile the source
    Transformer,
}

/// Relies on `std::str::from_utf8`: it accepts exactly the well-formed UTF-8
/// byte sequences, and then holds the characters they encode.
#[verifier::external_body]
fn utf8_text(bytes: &[u8]) -> (r: core::result::Result<String, String>)
    ensures
        r is Ok <==> valid_utf8(bytes@),
        r matches Ok(s) ==> s@ == decode_utf8(bytes@),
{
    match std::str::from_utf8(bytes) {
        Ok(s) => Ok(s.to_string()),
        Err(e) => Err(e.to_string()),
    }
}

/// The path named by a request, or the code that refuses the request before
/// anything is read, with a message that says why.
///
/// A request without a path or without a slot for the output is `Invalid`;
/// a path that is not UTF-8, or whose extension is not recognized, is an
/// `Io` failure. Only a path that passes all of these is worth reading.
pub fn request_path(path: Option<&[u8]>, has_output_slot: bool) -> (r: core::result::Result<
    String,
    (Result, String),
>)
    ensures
        (path is None || !has_output_slot) ==> r is Err && r->Err_0.0 == Result::Invalid,
        (path is Some && has_output_slot) ==> (
            if valid_utf8(path->Some_0@) && has_source_extension(decode_utf8(path->Some_0@)) {
                r matches Ok(s) && s@ == decode_utf8(path->Some_0@)
            } else {
                r is Err && r->Err_0.0 == Result::Io
            }
        ),
{
    match path {
        None => Err((Result::Invalid, String::new())),
        Some(bytes) => {
            if !has_output_slot {
                Err((Result::Invalid, String::new()))
            } else {
                match utf8_text(bytes) {
                    Ok(s) => match classify(&s) {
                        Ok(()) => Ok(s),
                        Err(e) => Err((Result::Io, e.into_messages().remove(0))),
                    },
                    Err(message) => Err((Result::Io, message)),
                }
            }
        },
    }
}

/// The code that reports `e` across the boundary.
pub open spec fn error_code(e: Error) -> Result {
    match e {
        Error::Io(_) => Result::Io,
        Error::Parse(_) => Result::Parse,
        Error::Semantic(_) => Result::Semantic,
        Error::Transformer(_) => Result::Transformer,
    }
}

/// The code that reports `e` across the boundary.
pub fn failure_code(e: &Error) -> (r: Result)
    ensures
        r == error_code(*e),
{
    match e {
        Error::Io(_) => Result::Io,
        Error::Parse(_) => Result::Parse,
        Error::Semantic(_) => Result::Semantic,
        Error::Transformer(_) => Result::Transformer,
    }
}

/// Whether `s` holds a NUL character, which a NUL-terminated buffer cannot.
pub open spec fn has_nul(s: Seq<char>) -> bool {
    exists|i: int| 0 <= i < s.len() && s[i] == '\0'
}

/// Whether the text `s` holds a NUL character.
pub fn contains_nul(s: &str) -> (r: bool)
    ensures
        r == has_nul(s@),
{
    let n = s.unicode_len();
    let mut i: usize = 0;
    while i < n
        invariant
            n == s@.len(),
            0 <= i <= n,
            forall|j: int| 0 <= j < i ==> s@[j] != '\0',
        decreases n - i,
    {
        if s.get_char(i) == '\0' {
            return true;
        }
        i = i + 1;
    }
    false
}

/// The code and the output buffer handed back for a pipeline outcome.
///
/// Output goes back only on success; output holding a NUL cannot be framed
/// as a NUL-terminated buffer and is reported as an `Io` failure.
pub fn deliver(outcome: core::result::Result<String, Error>) -> (r: (Result, Option<String>))
    ensures
        outcome is Ok ==> r == (if has_nul(outcome->Ok_0@) {
            (Result::Io, None::<String>)
        } else {
            (Result::Success, Some(outcome->Ok_0))
        }),
        outcome is Err ==> r == (error_code(outcome->Err_0), None::<String>),
{
    match outcome {
        Ok(code) => {
            if contains_nul(&code) {
                (Result::Io, None)
            } else {
                (Result::Success, Some(code))
            }
        },
        Err(e) => (failure_code(&e), None),
    }
}

/// Whether `r` is the answer owed for the pipeline outcome `o`.
pub open spec fn answers(
    o: core::result::Result<Seq<char>, (Option<Stage>, Seq<Seq<char>>)>,
    r: (Result, Option<String>, Vec<String>),
) -> bool {
    match o {
        Ok(s) => if has_nul(s) {
            r.0 == Result::Io && r.1 is None && r.2@.len() == 1
        } else {
            r.0 == Result::Success && r.1 is Some && r.1->Some_0@ == s && r.2@.len() == 0
        },
        Err((None, _)) => r.0 == Result::Io && r.1 is None && r.2@.len() == 1,
        Err((Some(stage), d)) => r.0 == stage_code(stage) && r.1 is None && texts(r.2@) == d,
    }
}

/// The answer to an accepted request for `path`, given what reading the
/// file gave: its text, or the message of the read's failure.
///
/// A failed read is an `Io` failure and runs no stage. Otherwise the text
/// goes through `transpiler`: the first stage with diagnostics gives its
/// code, with those diagnostics to report on the side; when all are clean
/// the output comes back with `Success`, unless it holds a NUL (`Io`, with
/// one message saying so).
pub fn answer(
    transpiler: &mut Transpiler,
    path: &str,
    source: core::result::Result<String, String>,
) -> (r: (Result, Option<String>, Vec<String>))
    ensures
        r.1 is Some <==> r.0 == Result::Success,
        source is Err ==> r.0 == Result::Io && r.1 is None && r.2@ == seq![source->Err_0],
        source is Ok ==> answers(pipeline_outcome(path@, source->Ok_0@), r),
{
    match source {
        Err(message) => (Result::Io, None, vec![message]),
        Ok(text) => match transpiler.transpile(path, &text) {
            Ok(code) => {
                let (c, output) = deliver(Ok(code));
                if output.is_some() {
                    (c, output, Vec::new())
                } else {
                    (c, output, vec![String::from_str("the output holds a NUL character")])
                }
            },
            Err(e) => {
                let c = failure_code(&e);
                (c, None, e.into_messages())
            },
        },
    }
}

/// The code that reports a failure of `stage`.
pub open spec fn stage_code(stage: Stage) -> Result {
    match stage {
        Stage::Parse => Result::Parse,
        Stage::Semantic => Result::Semantic,
        Stage::Transform => Result::Transformer,
    }
}

/// A call on `text` from a recognized `path` fails with the code of the
/// first stage, in pipeline order, that reported diagnostics, carrying
/// exactly those diagnostics: never a later stage's code, and never success.
pub proof fn lemma_first_failing_stage_reported(
    path: Seq<char>,
    text: Seq<char>,
    r: core::result::Result<String, Error>,
    i: int,
)
    requires
        outcome_of(r) == pipeline_outcome(path, text),
        has_source_extension(path),
        0 <= i < 3,
        stage_diagnostics(path, text, i).len() > 0,
        forall|j: int| 0 <= j < i ==> stage_diagnostics(path, text, j).len() == 0,
    ensures
        r is Err,
        r->Err_0.stage() == Some(stage_at(i)),
        texts(r->Err_0.messages()) == stage_diagnostics(path, text, i),
        error_code(r->Err_0) == stage_code(stage_at(i)),
{
    if i > 0 {
        assert(stage_diagnostics(path, text, 0).len() == 0);
    }
    if i > 1 {
        assert(stage_diagnostics(path, text, 1).len() == 0);
    }
}

} // verus!
