//! Script execution.
//!
//! The runner executes discovered scripts strictly in the order given, one
//! after the other, against a single shared interpreter, so that state a
//! script defines is visible to every later script. The first failing script
//! aborts the rest of the sequence, and the failure names that script's path,
//! its position, and the phase — label encoding, compilation, or execution —
//! that failed.

use std::io::Write;
use vstd::prelude::*;

use crate::ScriptUnit;
use crate::paths::display_label;
use crate::paths::label_spec;

verus! {

use vstd::utf8::valid_utf8;

#[verifier::external_type_specification]
#[verifier::external_body]
/// The embedded interpreter, opaque here: scripts run in its one shared
/// global state.
pub struct ExLua(rlua::Lua);

/// What submitting one script to the interpreter yielded.
pub enum ExecOutcome {
    /// The script compiled and ran to completion.
    Completed,
    /// The display label could not be encoded for the interpreter boundary.
    LabelInvalid(String),
    /// The interpreter rejected the source as malformed.
    CompileRejected(String),
    /// The compiled script raised a failure while running.
    RunFailed(String),
}

/// The phase of the run at which a script failed.
#[derive(Clone, Copy, Debug, PartialEq, Eq, Structural)]
pub enum Phase {
    /// The display label could not be encoded.
    Label,
    /// The interpreter rejected the source.
    Compile,
    /// The script failed while executing.
    Run,
}

/// Why a run stopped: the failing script's position and path, the phase that
/// failed, and the interpreter's own diagnostic.
#[derive(Debug)]
pub struct RunError {
    pub index: usize,
    pub path: Vec<u8>,
    pub phase: Phase,
    pub detail: String,
}

/// The view of a [`RunError`].
pub struct RunErrorView {
    pub index: int,
    pub path: Seq<u8>,
    pub phase: Phase,
    pub detail: Seq<char>,
}

impl View for RunError {
    type V = RunErrorView;

    open spec fn view(&self) -> RunErrorView {
        RunErrorView {
            index: self.index as int,
            path: self.path@,
            phase: self.phase,
            detail: self.detail@,
        }
    }
}

/// Whether the embedded interpreter finds no syntax error in this source
/// text. The interpreter's parser answers from the source text alone, so
/// the answer is the same in every process and on every machine running
/// this build. Rejections of another kind — a label the boundary cannot
/// encode, a refusal that is not a syntax error, a failure while running —
/// are not covered by this name.
pub uninterp spec fn lua_accepts(source: Seq<char>) -> bool;

/// Relies on `Lua::load`, `Chunk::set_name` and `Chunk::exec` of the
/// interpreter crate: compiles `source` under the display label `label` and
/// runs it at once in `lua`'s shared global state, and on failure reports the
/// interpreter's own diagnostic, a syntax error apart from every other kind.
/// Relies on `std::str::from_utf8` accepting exactly the valid UTF-8 byte
/// strings, so the label is rejected as unencodable precisely when it is not
/// valid UTF-8. Whether the parser finds a syntax error in `source` is a
/// function of the text alone, named `lua_accepts`; with a label that is
/// valid UTF-8 and free of the interior `0` byte that the boundary's C
/// string cannot carry, a source with a syntax error is reported exactly as
/// the compile rejection. What running a well-formed script yields depends
/// on the interpreter's accumulated state, and the call lasts as long as the
/// script runs; nothing more is assumed of it.
#[verifier::external_body]
fn exec_source(lua: &rlua::Lua, source: &String, label: &Vec<u8>) -> (outcome: ExecOutcome)
    ensures
        outcome is LabelInvalid <==> !valid_utf8(label@),
        outcome is Completed ==> lua_accepts(source@),
        outcome is CompileRejected ==> !lua_accepts(source@),
        valid_utf8(label@) && !label@.contains(0u8) && !lua_accepts(source@)
            ==> outcome is CompileRejected,
{
    let name = match std::str::from_utf8(label) {
        Ok(name) => name,
        Err(err) => return ExecOutcome::LabelInvalid(format!("{}", err)),
    };
    match lua.load(source.as_str()).set_name(name).exec() {
        Ok(()) => ExecOutcome::Completed,
        Err(rlua::Error::SyntaxError { message, .. }) => ExecOutcome::CompileRejected(message),
        Err(err) => ExecOutcome::RunFailed(format!("{}", err)),
    }
}

/// Relies on `std::io::stderr`: emits the progress notice for one script on
/// the diagnostic stream. The notice is a side effect only, no part of the
/// functional contract.
#[verifier::external_body]
fn emit_notice(path: &Vec<u8>) {
    let shown = String::from_utf8_lossy(path);
    let _ = writeln!(std::io::stderr(), ">>> Running {:?}", shown);
}

/// Turn the outcome of one script into the run's verdict on it: completion
/// lets the run continue, and each kind of failure stops it with an error
/// naming the script's position, its path, the phase that failed, and the
/// interpreter's diagnostic.
pub fn unit_failure(outcome: ExecOutcome, path: &Vec<u8>, index: usize) -> (failure: Option<
    RunError,
>)
    ensures
        match outcome {
            ExecOutcome::Completed => failure is None,
            ExecOutcome::LabelInvalid(detail) => failure matches Some(e) && e@ == (RunErrorView {
                index: index as int,
                path: path@,
                phase: Phase::Label,
                detail: detail@,
            }),
            ExecOutcome::CompileRejected(detail) => failure matches Some(e) && e@ == (RunErrorView {
                index: index as int,
                path: path@,
                phase: Phase::Compile,
                detail: detail@,
            }),
            ExecOutcome::RunFailed(detail) => failure matches Some(e) && e@ == (RunErrorView {
                index: index as int,
                path: path@,
                phase: Phase::Run,
                detail: detail@,
            }),
        },
{
    let path = crate::discover::clone_bytes(path);
    match outcome {
        ExecOutcome::Completed => None,
        ExecOutcome::LabelInvalid(detail) => Some(
            RunError { index, path, phase: Phase::Label, detail },
        ),
        ExecOutcome::CompileRejected(detail) => Some(
            RunError { index, path, phase: Phase::Compile, detail },
        ),
        ExecOutcome::RunFailed(detail) => Some(
            RunError { index, path, phase: Phase::Run, detail },
        ),
    }
}

/// Whether a label can be encoded for the interpreter boundary: it must be
/// valid UTF-8 and free of interior `0` bytes, which the boundary's C
/// string cannot carry.
pub open spec fn label_encodable(label: Seq<u8>) -> bool {
    valid_utf8(label) && !label.contains(0u8)
}

/// The first script of a run is certain to be rejected at the compile
/// phase: its display label is encodable, and the interpreter finds a
/// syntax error in its text. (Nothing of the kind can be said of a later
/// script, whose turn depends on how its predecessors ran.)
pub open spec fn leading_unit_rejected(units: Seq<ScriptUnit>) -> bool {
    &&& units.len() > 0
    &&& label_encodable(label_spec(units[0].path@))
    &&& !lua_accepts(units[0].content@)
}

/// Whether the label holds an interior `0` byte.
fn contains_nul(label: &Vec<u8>) -> (found: bool)
    ensures
        found == label@.contains(0u8),
{
    let mut i: usize = 0;
    while i < label.len()
        invariant
            i <= label@.len(),
            forall|j: int| 0 <= j < i ==> label@[j] != 0u8,
        decreases label@.len() - i,
    {
        if label[i] == 0u8 {
            proof {
                assert(label@[i as int] == 0u8);
            }
            return true;
        }
        i = i + 1;
    }
    false
}

/// Execute every script in `units`, in order, against the one shared
/// interpreter `lua`, stopping at the first failure.
///
/// On failure the error names the failing script: its position in the given
/// order, its path, the phase — label, compile, or run — and the
/// diagnostic. The failure carries the label phase exactly when the failing
/// script's display label cannot be encoded for the interpreter boundary
/// (it is not valid UTF-8, or holds an interior `0` byte); a label with an
/// interior `0` is refused here, before the interpreter is asked anything.
/// A compile-phase failure only arises from a script whose text the
/// interpreter does not accept; and where the very first script has an
/// encodable label and unacceptable text, the run is certain to stop at it
/// with a compile-phase failure. An empty sequence always succeeds.
pub fn execute_all(lua: &rlua::Lua, units: &Vec<ScriptUnit>) -> (outcome: Result<(), RunError>)
    ensures
        units@.len() == 0 ==> outcome is Ok,
        outcome matches Err(e) ==> {
            &&& 0 <= e@.index < units@.len()
            &&& e@.path == units@[e@.index].path@
            &&& (e@.phase == Phase::Label <==> !label_encodable(
                label_spec(units@[e@.index].path@),
            ))
            &&& (e@.phase == Phase::Compile ==> !lua_accepts(units@[e@.index].content@))
        },
        leading_unit_rejected(units@) ==> (outcome matches Err(e) && e@.index == 0 && e@.phase
            == Phase::Compile),
{
    let mut i: usize = 0;
    while i < units.len()
        invariant
            i <= units@.len(),
            0 < i ==> !leading_unit_rejected(units@),
        decreases units@.len() - i,
    {
        let unit = &units[i];
        emit_notice(&unit.path);
        let label = display_label(&unit.path);
        let outcome = if contains_nul(&label) {
            ExecOutcome::LabelInvalid("the display label holds an interior nul byte".to_owned())
        } else {
            exec_source(lua, &unit.content, &label)
        };
        match unit_failure(outcome, &unit.path, i) {
            None => {},
            Some(failure) => {
                return Err(failure);
            },
        }
        proof {
            if i == 0 {
                assert(!leading_unit_rejected(units@));
            }
        }
        i = i + 1;
    }
    Ok(())
}

} // verus!
