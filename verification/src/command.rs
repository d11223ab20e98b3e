//! The command grammar: a closed two-level hierarchy of subsystems and
//! verbs with typed, validated arguments.
//!
//! `parse` takes one raw line, splits it into words under shell quoting
//! rules, and maps the words onto the grammar. The result is either a
//! structured command, a session-termination signal, or a failure that
//! renders as a single diagnostic line (help requests are carried the same
//! way, though they are informational rather than errors).

use vstd::prelude::*;

use crate::text::join_spec;
use crate::text::join_tokens;
use crate::text::str_eq;
use crate::tokenize::shell_split;
use crate::tokenize::split_words;
use crate::tokenize::TokenizeError;

verus! {

// ---------------------------------------------------------------------------
// Argument validation
// ---------------------------------------------------------------------------

/// Whether a character may appear in a configuration key: an ASCII letter
/// or digit.
pub open spec fn is_key_char(c: char) -> bool {
    (('0' as u32) <= (c as u32) && (c as u32) <= ('9' as u32))
    || (('a' as u32) <= (c as u32) && (c as u32) <= ('z' as u32))
    || (('A' as u32) <= (c as u32) && (c as u32) <= ('Z' as u32))
}

/// Whether a token is acceptable as a configuration key: non-empty and
/// made of ASCII letters and digits alone.
pub open spec fn valid_key(s: Seq<char>) -> bool {
    s.len() > 0 && (forall|i: int| 0 <= i < s.len() ==> is_key_char(s[i]))
}

fn is_key_char_exec(c: char) -> (r: bool)
    ensures
        r == is_key_char(c),
{
    let u = c as u32;
    (('0' as u32) <= u && u <= ('9' as u32)) || (('a' as u32) <= u && u <= ('z' as u32)) || ((
    'A' as u32) <= u && u <= ('Z' as u32))
}

/// A token was rejected by an argument validator; it carries the offending
/// token, and its view is that token's characters.
#[derive(Debug, Clone, PartialEq, Eq)]
pub struct ValidationError {
    token: String,
}

impl View for ValidationError {
    type V = Seq<char>;

    closed spec fn view(&self) -> Seq<char> {
        self.token@
    }
}

/// The diagnostic line for a rejected configuration key, naming the token
/// and the constraint it broke.
pub open spec fn key_message_spec(t: Seq<char>) -> Seq<char> {
    "config key \""@ + t + "\" must be alphanumeric"@
}

impl ValidationError {
    /// Renders the diagnostic line for this rejected key.
    pub fn message(&self) -> (r: String)
        ensures
            r@ == key_message_spec(self@),
    {
        let mut m = String::from_str("config key \"");
        m.append(self.token.as_str());
        m.append("\" must be alphanumeric");
        proof {
            assert(m@ =~= key_message_spec(self@));
        }
        m
    }
}

/// A configuration key that passed validation: the only way to obtain one
/// is `from_raw`, so every value satisfies `valid_key`.
#[derive(Debug, Clone, PartialEq, Eq)]
pub struct ConfigKey {
    raw: String,
}

impl View for ConfigKey {
    type V = Seq<char>;

    closed spec fn view(&self) -> Seq<char> {
        self.raw@
    }
}

impl ConfigKey {
    /// The validator: accepts exactly the tokens made of ASCII letters and
    /// digits alone, and rejects the rest with an error naming the token.
    pub fn from_raw(token: &str) -> (r: Result<ConfigKey, ValidationError>)
        ensures
            match r {
                Ok(k) => valid_key(token@) && k@ == token@,
                Err(e) => !valid_key(token@) && e@ == token@,
            },
    {
        let n: usize = token.unicode_len();
        if n == 0 {
            return Err(ValidationError { token: String::from_str(token) });
        }
        let mut i: usize = 0;
        while i < n
            invariant
                0 <= i <= n,
                n == token@.len(),
                forall|m: int| 0 <= m < i ==> is_key_char(token@[m]),
            decreases n - i,
        {
            if !is_key_char_exec(token.get_char(i)) {
                return Err(ValidationError { token: String::from_str(token) });
            }
            i = i + 1;
        }
        Ok(ConfigKey { raw: String::from_str(token) })
    }

    /// Hands the validated key back out as a plain string.
    pub fn into_string(self) -> (r: String)
        ensures
            r@ == self@,
    {
        self.raw
    }
}

// ---------------------------------------------------------------------------
// The structured command and its outcomes
// ---------------------------------------------------------------------------

/// One fully parsed domain command, carrying its validated arguments; the
/// executor receives exactly this value.
#[derive(Debug, Clone, PartialEq, Eq)]
pub enum BossCommand {
    WifiAdd { ssid: String, password: Option<String> },
    WifiDelete(String),
    WifiScan,
    Configure(String, String),
    GetConfig(String),
}

/// A successful parse: either a domain command for the executor, or the
/// `exit` verb, which terminates the session.
#[derive(Debug, Clone, PartialEq, Eq)]
pub enum ParsedCommand {
    Boss(BossCommand),
    Exit,
}

/// The part of the grammar a help request asks about.
#[derive(Debug, Clone, Copy, PartialEq, Eq, Structural)]
pub enum HelpTopic {
    General,
    Network,
    Configuration,
}

/// A token sequence that does not denote a command: an unknown subsystem or
/// verb, a wrong argument count, or a rejected argument.
#[derive(Debug, Clone, PartialEq, Eq)]
pub enum GrammarError {
    /// The first token names no subsystem (and is not `exit`).
    UnknownSubsystem(String),
    /// The subsystem (first field) has no verb named by the second field.
    UnknownVerb(String, String),
    /// The verb exists but the argument count is wrong; carries the usage
    /// line to show.
    WrongArity(String),
    /// An argument validator rejected a token.
    InvalidKey(ValidationError),
}

/// Why `parse` did not return a command: the line could not be tokenized,
/// the tokens fit no grammar rule, or the line asked for help (an
/// informational outcome, rendered the same single-line way).
#[derive(Debug, Clone, PartialEq, Eq)]
pub enum ParseError {
    Tokenize(TokenizeError),
    Grammar(GrammarError),
    Help(HelpTopic),
}

// ---------------------------------------------------------------------------
// The mathematical model
// ---------------------------------------------------------------------------

/// The mathematical shape of a structured command: each variant of
/// `ParsedCommand` with its arguments as character sequences.
pub enum CommandShape {
    WifiAdd { ssid: Seq<char>, password: Option<Seq<char>> },
    WifiDelete { ssid: Seq<char> },
    WifiScan,
    Configure { key: Seq<char>, value: Seq<char> },
    GetConfig { key: Seq<char> },
    Exit,
}

/// The mathematical shape of everything `parse` can produce.
pub enum OutcomeShape {
    Command(CommandShape),
    Help(HelpTopic),
    Unterminated,
    UnknownSubsystem(Seq<char>),
    UnknownVerb { subsystem: Seq<char>, token: Seq<char> },
    WrongArity { usage: Seq<char> },
    InvalidKey(Seq<char>),
}

/// The shape of a domain command value.
pub open spec fn boss_shape(b: BossCommand) -> CommandShape {
    match b {
        BossCommand::WifiAdd { ssid, password } => CommandShape::WifiAdd {
            ssid: ssid@,
            password: password.deep_view(),
        },
        BossCommand::WifiDelete(ssid) => CommandShape::WifiDelete { ssid: ssid@ },
        BossCommand::WifiScan => CommandShape::WifiScan,
        BossCommand::Configure(key, value) => CommandShape::Configure {
            key: key@,
            value: value@,
        },
        BossCommand::GetConfig(key) => CommandShape::GetConfig { key: key@ },
    }
}

/// The shape of a successful parse.
pub open spec fn command_shape(c: ParsedCommand) -> CommandShape {
    match c {
        ParsedCommand::Boss(b) => boss_shape(b),
        ParsedCommand::Exit => CommandShape::Exit,
    }
}

/// The shape of a failed (or informational) parse.
pub open spec fn error_shape(e: ParseError) -> OutcomeShape {
    match e {
        ParseError::Tokenize(_) => OutcomeShape::Unterminated,
        ParseError::Grammar(g) => match g {
            GrammarError::UnknownSubsystem(t) => OutcomeShape::UnknownSubsystem(t@),
            GrammarError::UnknownVerb(s, v) => OutcomeShape::UnknownVerb {
                subsystem: s@,
                token: v@,
            },
            GrammarError::WrongArity(u) => OutcomeShape::WrongArity { usage: u@ },
            GrammarError::InvalidKey(e) => OutcomeShape::InvalidKey(e@),
        },
        ParseError::Help(t) => OutcomeShape::Help(t),
    }
}

/// The shape of a whole parse result. Two results with equal shapes hold
/// the same variant and the same argument characters.
pub open spec fn outcome_shape(r: Result<ParsedCommand, ParseError>) -> OutcomeShape {
    match r {
        Ok(c) => OutcomeShape::Command(command_shape(c)),
        Err(e) => error_shape(e),
    }
}

// ---------------------------------------------------------------------------
// The grammar itself
// ---------------------------------------------------------------------------

/// The `network` subsystem: verbs `add <name> [secret]`, `delete <name>`
/// and `scan`, selected by the second token. A bare subsystem, a help
/// flag in verb position and a trailing help flag all ask for this
/// subsystem's help.
pub open spec fn network_spec(toks: Seq<Seq<char>>) -> OutcomeShape
    recommends
        toks.len() >= 1,
{
    if toks.len() == 1 {
        OutcomeShape::Help(HelpTopic::Network)
    } else if toks.last() == "--help"@ {
        OutcomeShape::Help(HelpTopic::Network)
    } else if toks[1] == "--help"@ {
        OutcomeShape::Help(HelpTopic::Network)
    } else if toks[1] == "add"@ {
        if toks.len() == 3 {
            OutcomeShape::Command(CommandShape::WifiAdd { ssid: toks[2], password: None })
        } else if toks.len() == 4 {
            OutcomeShape::Command(
                CommandShape::WifiAdd { ssid: toks[2], password: Some(toks[3]) },
            )
        } else {
            OutcomeShape::WrongArity { usage: "network add <name> [secret]"@ }
        }
    } else if toks[1] == "delete"@ {
        if toks.len() == 3 {
            OutcomeShape::Command(CommandShape::WifiDelete { ssid: toks[2] })
        } else {
            OutcomeShape::WrongArity { usage: "network delete <name>"@ }
        }
    } else if toks[1] == "scan"@ {
        if toks.len() == 2 {
            OutcomeShape::Command(CommandShape::WifiScan)
        } else {
            OutcomeShape::WrongArity { usage: "network scan"@ }
        }
    } else {
        OutcomeShape::UnknownVerb { subsystem: "network"@, token: toks[1] }
    }
}

/// The `configuration` subsystem: verbs `set <key> <value>` and
/// `get <key>`; the key must be alphanumeric, and with `set` every token
/// after the key is consumed into the value, joined by single spaces. A
/// bare subsystem, a help flag in verb position and a trailing help flag
/// all ask for this subsystem's help.
pub open spec fn configuration_spec(toks: Seq<Seq<char>>) -> OutcomeShape
    recommends
        toks.len() >= 1,
{
    if toks.len() == 1 {
        OutcomeShape::Help(HelpTopic::Configuration)
    } else if toks.last() == "--help"@ {
        OutcomeShape::Help(HelpTopic::Configuration)
    } else if toks[1] == "--help"@ {
        OutcomeShape::Help(HelpTopic::Configuration)
    } else if toks[1] == "set"@ {
        if toks.len() >= 4 {
            if valid_key(toks[2]) {
                OutcomeShape::Command(
                    CommandShape::Configure { key: toks[2], value: join_spec(toks.skip(3)) },
                )
            } else {
                OutcomeShape::InvalidKey(toks[2])
            }
        } else {
            OutcomeShape::WrongArity { usage: "configuration set <key> <value>"@ }
        }
    } else if toks[1] == "get"@ {
        if toks.len() == 3 {
            if valid_key(toks[2]) {
                OutcomeShape::Command(CommandShape::GetConfig { key: toks[2] })
            } else {
                OutcomeShape::InvalidKey(toks[2])
            }
        } else {
            OutcomeShape::WrongArity { usage: "configuration get <key>"@ }
        }
    } else {
        OutcomeShape::UnknownVerb { subsystem: "configuration"@, token: toks[1] }
    }
}

/// The whole grammar on a token sequence: the first token selects the
/// subsystem (or the top-level `exit` verb, or a help request), the rest
/// belongs to that subsystem.
pub open spec fn grammar_spec(toks: Seq<Seq<char>>) -> OutcomeShape {
    if toks.len() == 0 {
        OutcomeShape::Help(HelpTopic::General)
    } else if toks[0] == "exit"@ {
        if toks.len() == 1 {
            OutcomeShape::Command(CommandShape::Exit)
        } else {
            OutcomeShape::WrongArity { usage: "exit"@ }
        }
    } else if toks[0] == "help"@ || toks[0] == "--help"@ {
        OutcomeShape::Help(HelpTopic::General)
    } else if toks[0] == "network"@ {
        network_spec(toks)
    } else if toks[0] == "configuration"@ {
        configuration_spec(toks)
    } else {
        OutcomeShape::UnknownSubsystem(toks[0])
    }
}

/// What `parse` must produce on a raw line: split the line, then apply the
/// grammar; a line that cannot be split reports its unterminated quote.
pub open spec fn parse_spec(line: Seq<char>) -> OutcomeShape {
    match shell_split(line) {
        Some(toks) => grammar_spec(toks),
        None => OutcomeShape::Unterminated,
    }
}

// ---------------------------------------------------------------------------
// Rendering failures and help as one diagnostic line
// ---------------------------------------------------------------------------

/// The grammar's self-description for each help topic.
pub open spec fn help_text_spec(t: HelpTopic) -> Seq<char> {
    match t {
        HelpTopic::General => "commands: network add <name> [secret] | network delete <name> | network scan | configuration set <key> <value> | configuration get <key> | exit"@,
        HelpTopic::Network => "network commands: add <name> [secret] | delete <name> | scan"@,
        HelpTopic::Configuration => "configuration commands: set <key> <value> | get <key>"@,
    }
}

/// The single diagnostic line shown for an outcome that is not a command.
/// For a command it is empty (nothing is ever shown through this path).
pub open spec fn message_spec(o: OutcomeShape) -> Seq<char> {
    match o {
        OutcomeShape::Command(_) => Seq::empty(),
        OutcomeShape::Help(t) => help_text_spec(t),
        OutcomeShape::Unterminated => "missing closing quote"@,
        OutcomeShape::UnknownSubsystem(t) => "unknown subsystem \""@ + t
            + "\": expected network, configuration, or exit"@,
        OutcomeShape::UnknownVerb { subsystem, token } => "unknown verb \""@ + token
            + "\" for subsystem "@ + subsystem,
        OutcomeShape::WrongArity { usage } => "wrong number of arguments: usage: "@ + usage,
        OutcomeShape::InvalidKey(t) => key_message_spec(t),
    }
}

impl ParseError {
    /// Renders this outcome as the one line written back to the client.
    pub fn message(&self) -> (r: String)
        ensures
            r@ == message_spec(error_shape(*self)),
    {
        match self {
            ParseError::Tokenize(e) => e.message(),
            ParseError::Grammar(g) => match g {
                GrammarError::UnknownSubsystem(t) => {
                    let mut m = String::from_str("unknown subsystem \"");
                    m.append(t.as_str());
                    m.append("\": expected network, configuration, or exit");
                    proof {
                        assert(m@ =~= message_spec(error_shape(*self)));
                    }
                    m
                },
                GrammarError::UnknownVerb(s, v) => {
                    let mut m = String::from_str("unknown verb \"");
                    m.append(v.as_str());
                    m.append("\" for subsystem ");
                    m.append(s.as_str());
                    proof {
                        assert(m@ =~= message_spec(error_shape(*self)));
                    }
                    m
                },
                GrammarError::WrongArity(u) => {
                    let mut m = String::from_str("wrong number of arguments: usage: ");
                    m.append(u.as_str());
                    proof {
                        assert(m@ =~= message_spec(error_shape(*self)));
                    }
                    m
                },
                GrammarError::InvalidKey(e) => e.message(),
            },
            ParseError::Help(t) => match t {
                HelpTopic::General => String::from_str(
                    "commands: network add <name> [secret] | network delete <name> | network scan | configuration set <key> <value> | configuration get <key> | exit",
                ),
                HelpTopic::Network => String::from_str(
                    "network commands: add <name> [secret] | delete <name> | scan",
                ),
                HelpTopic::Configuration => String::from_str(
                    "configuration commands: set <key> <value> | get <key>",
                ),
            },
        }
    }
}

// ---------------------------------------------------------------------------
// The parser
// ---------------------------------------------------------------------------

fn parse_network(tokens: &Vec<String>) -> (r: Result<ParsedCommand, ParseError>)
    requires
        tokens@.len() >= 1,
    ensures
        outcome_shape(r) == network_spec(tokens.deep_view()),
{
    let n: usize = tokens.len();
    let ghost toks = tokens.deep_view();
    if n == 1 {
        return Err(ParseError::Help(HelpTopic::Network));
    }
    proof {
        assert(toks[1] == tokens@[1]@);
        assert(toks[n - 1] == tokens@[n - 1]@);
    }
    if str_eq(tokens[n - 1].as_str(), "--help") {
        return Err(ParseError::Help(HelpTopic::Network));
    }
    let verb = &tokens[1];
    if str_eq(verb.as_str(), "--help") {
        Err(ParseError::Help(HelpTopic::Network))
    } else if str_eq(verb.as_str(), "add") {
        if n == 3 {
            proof {
                assert(toks[2] == tokens@[2]@);
            }
            Ok(
                ParsedCommand::Boss(
                    BossCommand::WifiAdd { ssid: tokens[2].clone(), password: None },
                ),
            )
        } else if n == 4 {
            proof {
                assert(toks[2] == tokens@[2]@);
                assert(toks[3] == tokens@[3]@);
            }
            Ok(
                ParsedCommand::Boss(
                    BossCommand::WifiAdd {
                        ssid: tokens[2].clone(),
                        password: Some(tokens[3].clone()),
                    },
                ),
            )
        } else {
            Err(
                ParseError::Grammar(
                    GrammarError::WrongArity(String::from_str("network add <name> [secret]")),
                ),
            )
        }
    } else if str_eq(verb.as_str(), "delete") {
        if n == 3 {
            proof {
                assert(toks[2] == tokens@[2]@);
            }
            Ok(ParsedCommand::Boss(BossCommand::WifiDelete(tokens[2].clone())))
        } else {
            Err(
                ParseError::Grammar(
                    GrammarError::WrongArity(String::from_str("network delete <name>")),
                ),
            )
        }
    } else if str_eq(verb.as_str(), "scan") {
        if n == 2 {
            Ok(ParsedCommand::Boss(BossCommand::WifiScan))
        } else {
            Err(ParseError::Grammar(GrammarError::WrongArity(String::from_str("network scan"))))
        }
    } else {
        Err(
            ParseError::Grammar(
                GrammarError::UnknownVerb(String::from_str("network"), verb.clone()),
            ),
        )
    }
}

fn parse_configuration(tokens: &Vec<String>) -> (r: Result<ParsedCommand, ParseError>)
    requires
        tokens@.len() >= 1,
    ensures
        outcome_shape(r) == configuration_spec(tokens.deep_view()),
{
    let n: usize = tokens.len();
    let ghost toks = tokens.deep_view();
    if n == 1 {
        return Err(ParseError::Help(HelpTopic::Configuration));
    }
    proof {
        assert(toks[1] == tokens@[1]@);
        assert(toks[n - 1] == tokens@[n - 1]@);
    }
    if str_eq(tokens[n - 1].as_str(), "--help") {
        return Err(ParseError::Help(HelpTopic::Configuration));
    }
    let verb = &tokens[1];
    if str_eq(verb.as_str(), "--help") {
        Err(ParseError::Help(HelpTopic::Configuration))
    } else if str_eq(verb.as_str(), "set") {
        if n >= 4 {
            proof {
                assert(toks[2] == tokens@[2]@);
            }
            match ConfigKey::from_raw(tokens[2].as_str()) {
                Ok(key) => {
                    let value = join_tokens(tokens, 3);
                    Ok(ParsedCommand::Boss(BossCommand::Configure(key.into_string(), value)))
                },
                Err(e) => Err(ParseError::Grammar(GrammarError::InvalidKey(e))),
            }
        } else {
            Err(
                ParseError::Grammar(
                    GrammarError::WrongArity(String::from_str("configuration set <key> <value>")),
                ),
            )
        }
    } else if str_eq(verb.as_str(), "get") {
        if n == 3 {
            proof {
                assert(toks[2] == tokens@[2]@);
            }
            match ConfigKey::from_raw(tokens[2].as_str()) {
                Ok(key) => Ok(ParsedCommand::Boss(BossCommand::GetConfig(key.into_string()))),
                Err(e) => Err(ParseError::Grammar(GrammarError::InvalidKey(e))),
            }
        } else {
            Err(
                ParseError::Grammar(
                    GrammarError::WrongArity(String::from_str("configuration get <key>")),
                ),
            )
        }
    } else {
        Err(
            ParseError::Grammar(
                GrammarError::UnknownVerb(String::from_str("configuration"), verb.clone()),
            ),
        )
    }
}

/// Maps one token sequence onto the grammar.
pub fn parse_tokens(tokens: &Vec<String>) -> (r: Result<ParsedCommand, ParseError>)
    ensures
        outcome_shape(r) == grammar_spec(tokens.deep_view()),
{
    let n: usize = tokens.len();
    let ghost toks = tokens.deep_view();
    if n == 0 {
        return Err(ParseError::Help(HelpTopic::General));
    }
    proof {
        assert(toks[0] == tokens@[0]@);
    }
    let head = &tokens[0];
    if str_eq(head.as_str(), "exit") {
        if n == 1 {
            Ok(ParsedCommand::Exit)
        } else {
            Err(ParseError::Grammar(GrammarError::WrongArity(String::from_str("exit"))))
        }
    } else if str_eq(head.as_str(), "help") || str_eq(head.as_str(), "--help") {
        Err(ParseError::Help(HelpTopic::General))
    } else if str_eq(head.as_str(), "network") {
        parse_network(tokens)
    } else if str_eq(head.as_str(), "configuration") {
        parse_configuration(tokens)
    } else {
        Err(ParseError::Grammar(GrammarError::UnknownSubsystem(head.clone())))
    }
}

// ---------------------------------------------------------------------------
// Laws of the grammar
// ---------------------------------------------------------------------------

/// Whether a command shape can come out of the grammar at all: its keys
/// passed validation, and its last argument is not the help flag (a
/// rendering ending in the help flag reads as a help request instead).
pub open spec fn wf_command(c: CommandShape) -> bool {
    match c {
        CommandShape::WifiAdd { ssid, password: None } => ssid != "--help"@,
        CommandShape::WifiAdd { ssid, password: Some(p) } => p != "--help"@,
        CommandShape::WifiDelete { ssid } => ssid != "--help"@,
        CommandShape::WifiScan => true,
        CommandShape::Configure { key, value } => valid_key(key) && value != "--help"@,
        CommandShape::GetConfig { key } => valid_key(key),
        CommandShape::Exit => true,
    }
}

/// The canonical token sequence that denotes a command: the subsystem and
/// verb words followed by the arguments, each argument one token.
pub open spec fn render_tokens(c: CommandShape) -> Seq<Seq<char>> {
    match c {
        CommandShape::WifiAdd { ssid, password: None } => seq!["network"@, "add"@, ssid],
        CommandShape::WifiAdd { ssid, password: Some(p) } => seq!["network"@, "add"@, ssid, p],
        CommandShape::WifiDelete { ssid } => seq!["network"@, "delete"@, ssid],
        CommandShape::WifiScan => seq!["network"@, "scan"@],
        CommandShape::Configure { key, value } => seq!["configuration"@, "set"@, key, value],
        CommandShape::GetConfig { key } => seq!["configuration"@, "get"@, key],
        CommandShape::Exit => seq!["exit"@],
    }
}

/// Law: parsing is a left inverse of rendering. Every well-formed command,
/// rendered to its canonical token sequence and parsed again, comes back
/// as exactly the same command with exactly the same arguments.
pub proof fn lemma_parse_round_trip(c: CommandShape)
    requires
        wf_command(c),
    ensures
        grammar_spec(render_tokens(c)) == OutcomeShape::Command(c),
{
    reveal_strlit("network");
    reveal_strlit("configuration");
    reveal_strlit("exit");
    reveal_strlit("help");
    reveal_strlit("--help");
    reveal_strlit("add");
    reveal_strlit("delete");
    reveal_strlit("scan");
    reveal_strlit("set");
    reveal_strlit("get");
    assert("network"@.len() == 7);
    assert("configuration"@.len() == 13);
    assert("exit"@.len() == 4);
    assert("help"@.len() == 4);
    assert("--help"@.len() == 6);
    assert("add"@.len() == 3);
    assert("delete"@.len() == 6);
    assert("scan"@.len() == 4);
    assert("set"@.len() == 3);
    assert("get"@.len() == 3);
    assert("delete"@[0] == 'd' && "--help"@[0] == '-');
    assert("get"@[0] == 'g' && "set"@[0] == 's');
    match c {
        CommandShape::WifiAdd { ssid, password: None } => {
            let toks = render_tokens(c);
            assert(toks.len() == 3 && toks[0] == "network"@ && toks[1] == "add"@);
            assert(grammar_spec(toks) == OutcomeShape::Command(c));
        },
        CommandShape::WifiAdd { ssid, password: Some(p) } => {
            let toks = render_tokens(c);
            assert(toks.len() == 4 && toks[0] == "network"@ && toks[1] == "add"@);
            assert(grammar_spec(toks) == OutcomeShape::Command(c));
        },
        CommandShape::WifiDelete { ssid } => {
            let toks = render_tokens(c);
            assert(toks.len() == 3 && toks[0] == "network"@ && toks[1] == "delete"@);
            assert(grammar_spec(toks) == OutcomeShape::Command(c));
        },
        CommandShape::WifiScan => {
            let toks = render_tokens(c);
            assert(toks.len() == 2 && toks[0] == "network"@ && toks[1] == "scan"@);
            assert(grammar_spec(toks) == OutcomeShape::Command(c));
        },
        CommandShape::Configure { key, value } => {
            let toks = render_tokens(c);
            assert(toks.len() == 4 && toks[0] == "configuration"@ && toks[1] == "set"@);
            assert(toks.skip(3) =~= seq![value]);
            assert(join_spec(toks.skip(3)) == value);
            assert(grammar_spec(toks) == OutcomeShape::Command(c));
        },
        CommandShape::GetConfig { key } => {
            let toks = render_tokens(c);
            assert(toks.len() == 3 && toks[0] == "configuration"@ && toks[1] == "get"@);
            assert(!is_key_char('-'));
            assert(is_key_char(key[0]));
            if key == "--help"@ {
                assert(key[0] == '-');
            }
            assert(key != "--help"@);
            assert(grammar_spec(toks) == OutcomeShape::Command(c));
        },
        CommandShape::Exit => {
            let toks = render_tokens(c);
            assert(toks.len() == 1 && toks[0] == "exit"@);
            assert(grammar_spec(toks) == OutcomeShape::Command(c));
        },
    }
}

proof fn lemma_joined_value_is_not_help(parts: Seq<Seq<char>>)
    requires
        parts.len() >= 1,
        parts.last() != "--help"@,
    ensures
        join_spec(parts) != "--help"@,
{
    reveal_strlit("--help");
    assert("--help"@.len() == 6);
    if parts.len() == 1 {
        assert(join_spec(parts) == parts[0]);
        assert(parts.last() == parts[0]);
    } else {
        // the join carries a space, and the help flag holds none
        let v = join_spec(parts);
        let k: int = parts[0].len() as int;
        assert(v == parts[0] + seq![' '] + join_spec(parts.skip(1)));
        assert(v.len() == k + 1 + join_spec(parts.skip(1)).len());
        assert(v[k] == ' ');
        if v == "--help"@ {
            assert(k < 6);
            assert("--help"@[k] == ' ');
        }
    }
}

/// Every command the grammar yields is well-formed: its keys passed
/// validation on the way in, and no trailing argument is the help flag
/// (such a line reads as a help request and yields no command).
pub proof fn lemma_grammar_yields_wf(toks: Seq<Seq<char>>, c: CommandShape)
    requires
        grammar_spec(toks) == OutcomeShape::Command(c),
    ensures
        wf_command(c),
{
    match c {
        CommandShape::Configure { key, value } => {
            assert(toks.len() >= 4);
            assert(value == join_spec(toks.skip(3)));
            assert(toks.last() != "--help"@);
            assert(toks.skip(3).len() >= 1);
            assert(toks.skip(3).last() == toks.last());
            lemma_joined_value_is_not_help(toks.skip(3));
        },
        _ => {},
    }
}

/// Law: parsing is idempotent across a render. When a token sequence
/// parses to a command, the command's canonical rendering parses to the
/// very same command.
pub proof fn lemma_reparse_round_trip(toks: Seq<Seq<char>>, c: CommandShape)
    requires
        grammar_spec(toks) == OutcomeShape::Command(c),
    ensures
        grammar_spec(render_tokens(c)) == grammar_spec(toks),
{
    lemma_grammar_yields_wf(toks, c);
    lemma_parse_round_trip(c);
}

/// Law: the diagnostic for a rejected configuration key names the
/// offending token: the token's characters appear verbatim in the line.
pub proof fn lemma_key_message_names_token(t: Seq<char>)
    ensures
        exists|i: int|
            0 <= i && i + t.len() <= key_message_spec(t).len() && #[trigger] key_message_spec(
                t,
            ).subrange(i, i + t.len()) == t,
{
    reveal_strlit("config key \"");
    let m = key_message_spec(t);
    let p: int = "config key \""@.len() as int;
    assert(m.subrange(p, p + t.len()) =~= t);
    assert(0 <= p && p + t.len() <= m.len());
}

/// Law: the diagnostic for an unknown subsystem names the offending
/// token: the token's characters appear verbatim in the line.
pub proof fn lemma_unknown_subsystem_message_names_token(t: Seq<char>)
    ensures
        exists|i: int|
            0 <= i && i + t.len() <= message_spec(OutcomeShape::UnknownSubsystem(t)).len()
                && #[trigger] message_spec(OutcomeShape::UnknownSubsystem(t)).subrange(
                i,
                i + t.len(),
            ) == t,
{
    reveal_strlit("unknown subsystem \"");
    let m = message_spec(OutcomeShape::UnknownSubsystem(t));
    let p: int = "unknown subsystem \""@.len() as int;
    assert(m.subrange(p, p + t.len()) =~= t);
    assert(0 <= p && p + t.len() <= m.len());
}

/// Parses one raw command line: tokenizes it under shell quoting rules,
/// then maps the tokens onto the grammar.
pub fn parse(command: &str) -> (r: Result<ParsedCommand, ParseError>)
    ensures
        outcome_shape(r) == parse_spec(command@),
{
    match split_words(command) {
        Ok(tokens) => parse_tokens(&tokens),
        Err(e) => Err(ParseError::Tokenize(e)),
    }
}

} // verus!
