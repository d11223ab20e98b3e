//! The per-connection session step: what the loop does with one line it
//! has read.
//!
//! The loop itself (prompting, reading, writing, spawning one worker per
//! connection) is plain I/O and lives outside the library; everything it
//! decides is here. For each line the step says one of: stay silent and
//! re-prompt, terminate the session, hand a structured command to the
//! executor, or write back one diagnostic line. A malformed command never
//! terminates the session.

use vstd::prelude::*;

use crate::command::boss_shape;
use crate::command::key_message_spec;
use crate::command::lemma_key_message_names_token;
use crate::command::lemma_unknown_subsystem_message_names_token;
use crate::command::message_spec;
use crate::command::parse;
use crate::command::parse_spec;
use crate::command::BossCommand;
use crate::command::CommandShape;
use crate::command::OutcomeShape;
use crate::command::ParsedCommand;
use crate::text::is_space_char;
use crate::text::lemma_trim_blank;
use crate::text::str_eq;
use crate::text::trim_spec;
use crate::text::trim_str;
use crate::tokenize::shell_split;

verus! {

/// What the session loop does after reading one line.
#[derive(Debug, Clone, PartialEq, Eq)]
pub enum LineOutcome {
    /// Write nothing; prompt again.
    Silent,
    /// End the session; write nothing.
    Terminate,
    /// Hand this command to the executor, write its display line, then
    /// prompt again.
    Dispatch(BossCommand),
    /// Write this one diagnostic line, then prompt again.
    Reply(String),
}

/// The mathematical shape of a session step.
pub enum StepShape {
    Silent,
    Terminate,
    Dispatch(CommandShape),
    Reply(Seq<char>),
}

/// The shape of a step value.
pub open spec fn step_shape(o: LineOutcome) -> StepShape {
    match o {
        LineOutcome::Silent => StepShape::Silent,
        LineOutcome::Terminate => StepShape::Terminate,
        LineOutcome::Dispatch(b) => StepShape::Dispatch(boss_shape(b)),
        LineOutcome::Reply(m) => StepShape::Reply(m@),
    }
}

/// The end-of-transmission sentinel: a client-side interrupt control
/// character arrives as this four-character token.
pub open spec fn sentinel_spec() -> Seq<char> {
    "\\x04"@
}

/// What the session loop must do with one line: a blank line re-prompts
/// silently, the sentinel and the `exit` verb terminate without a
/// response, a parsed command goes to the executor, and everything else
/// is answered with its one diagnostic line.
pub open spec fn line_step_spec(line: Seq<char>) -> StepShape {
    let t = trim_spec(line);
    if t.len() == 0 {
        StepShape::Silent
    } else if t == sentinel_spec() {
        StepShape::Terminate
    } else {
        match parse_spec(line) {
            OutcomeShape::Command(CommandShape::Exit) => StepShape::Terminate,
            OutcomeShape::Command(cs) => StepShape::Dispatch(cs),
            o => StepShape::Reply(message_spec(o)),
        }
    }
}

/// Decides one turn of the session loop.
pub fn session_step(line: &str) -> (o: LineOutcome)
    ensures
        step_shape(o) == line_step_spec(line@),
{
    let t = trim_str(line);
    if t.unicode_len() == 0 {
        return LineOutcome::Silent;
    }
    if str_eq(t, "\\x04") {
        return LineOutcome::Terminate;
    }
    match parse(line) {
        Ok(ParsedCommand::Exit) => LineOutcome::Terminate,
        Ok(ParsedCommand::Boss(b)) => LineOutcome::Dispatch(b),
        Err(e) => LineOutcome::Reply(e.message()),
    }
}

// ---------------------------------------------------------------------------
// Laws of the session loop
// ---------------------------------------------------------------------------

/// Law: a line that is empty or all blank space re-prompts silently; no
/// diagnostic is written and nothing reaches the tokenizer or the grammar
/// (the step is fixed before the line is ever split).
pub proof fn lemma_blank_line_reprompts(line: Seq<char>)
    requires
        forall|i: int| 0 <= i < line.len() ==> is_space_char(line[i]),
    ensures
        line_step_spec(line) == StepShape::Silent,
{
    lemma_trim_blank(line);
}

/// Law: a line whose trimmed form is the end-of-transmission sentinel
/// terminates the session without a response line.
pub proof fn lemma_sentinel_terminates(line: Seq<char>)
    requires
        trim_spec(line) == sentinel_spec(),
    ensures
        line_step_spec(line) == StepShape::Terminate,
{
    reveal_strlit("\\x04");
    assert(sentinel_spec().len() == 4);
}

/// Law: a line carrying exactly the `exit` verb terminates the session
/// without a response line.
pub proof fn lemma_exit_terminates(line: Seq<char>)
    requires
        shell_split(line) == Some(seq!["exit"@]),
        trim_spec(line).len() > 0,
        trim_spec(line) != sentinel_spec(),
    ensures
        line_step_spec(line) == StepShape::Terminate,
{
    let toks = seq!["exit"@];
    assert(toks.len() == 1 && toks[0] == "exit"@);
}

/// Law: a line that parses to no command — malformed quoting, an unknown
/// subsystem or verb, a wrong argument count, a rejected argument, or a
/// help request — is answered with exactly its one diagnostic line, and
/// the session goes on.
pub proof fn lemma_malformed_line_keeps_session(line: Seq<char>)
    requires
        trim_spec(line).len() > 0,
        trim_spec(line) != sentinel_spec(),
        !(parse_spec(line) is Command),
    ensures
        line_step_spec(line) == StepShape::Reply(message_spec(parse_spec(line))),
        line_step_spec(line) != StepShape::Terminate,
{
}

/// Law: a line whose key argument fails the alphanumeric validator is
/// answered with the one diagnostic line that names the offending token
/// and the constraint, and the session goes on.
pub proof fn lemma_rejected_key_replies(line: Seq<char>, t: Seq<char>)
    requires
        trim_spec(line).len() > 0,
        trim_spec(line) != sentinel_spec(),
        parse_spec(line) == OutcomeShape::InvalidKey(t),
    ensures
        line_step_spec(line) == StepShape::Reply(key_message_spec(t)),
        line_step_spec(line) != StepShape::Terminate,
        exists|i: int|
            0 <= i && i + t.len() <= key_message_spec(t).len() && #[trigger] key_message_spec(
                t,
            ).subrange(i, i + t.len()) == t,
{
    lemma_key_message_names_token(t);
}

/// Law: a line whose first token names no subsystem is answered with one
/// diagnostic line that names that token, and the session goes on.
pub proof fn lemma_unknown_subsystem_replies(line: Seq<char>, toks: Seq<Seq<char>>)
    requires
        shell_split(line) == Some(toks),
        toks.len() > 0,
        toks[0] != "exit"@,
        toks[0] != "help"@,
        toks[0] != "--help"@,
        toks[0] != "network"@,
        toks[0] != "configuration"@,
        trim_spec(line).len() > 0,
        trim_spec(line) != sentinel_spec(),
    ensures
        line_step_spec(line) == StepShape::Reply(
            message_spec(OutcomeShape::UnknownSubsystem(toks[0])),
        ),
        line_step_spec(line) != StepShape::Terminate,
        exists|i: int|
            0 <= i && i + toks[0].len() <= message_spec(
                OutcomeShape::UnknownSubsystem(toks[0]),
            ).len() && #[trigger] message_spec(OutcomeShape::UnknownSubsystem(toks[0])).subrange(
                i,
                i + toks[0].len(),
            ) == toks[0],
{
    lemma_unknown_subsystem_message_names_token(toks[0]);
}

} // verus!
