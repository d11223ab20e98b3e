//! The executor stub: the collaborator that would perform a command's
//! real effect. It reports the command it was handed, rendered the way
//! Rust's derived `Debug` formatting renders it, so the reply line is
//! `ran command: ` followed by the variant and its quoted, escaped
//! arguments.

use vstd::prelude::*;

use crate::command::boss_shape;
use crate::command::BossCommand;
use crate::command::CommandShape;

verus! {

/// The lower-case hex digit for a value below sixteen.
pub open spec fn hex_digit(d: int) -> char {
    if d == 0 {
        '0'
    } else if d == 1 {
        '1'
    } else if d == 2 {
        '2'
    } else if d == 3 {
        '3'
    } else if d == 4 {
        '4'
    } else if d == 5 {
        '5'
    } else if d == 6 {
        '6'
    } else if d == 7 {
        '7'
    } else if d == 8 {
        '8'
    } else if d == 9 {
        '9'
    } else if d == 10 {
        'a'
    } else if d == 11 {
        'b'
    } else if d == 12 {
        'c'
    } else if d == 13 {
        'd'
    } else if d == 14 {
        'e'
    } else {
        'f'
    }
}

/// How `Debug` formatting escapes one character inside a quoted string:
/// quote, backslash and the named control characters get a backslash
/// form, the other ASCII control characters and delete get a `\u{..}`
/// form, and everything else stands as itself.
pub open spec fn escape_char(c: char) -> Seq<char> {
    let u = c as u32;
    if c == '"' {
        seq!['\\', '"']
    } else if c == '\\' {
        seq!['\\', '\\']
    } else if c == '\n' {
        seq!['\\', 'n']
    } else if c == '\r' {
        seq!['\\', 'r']
    } else if c == '\t' {
        seq!['\\', 't']
    } else if u == 0 {
        seq!['\\', '0']
    } else if u < 0x10 {
        seq!['\\', 'u', '{', hex_digit(u as int), '}']
    } else if u < 0x20 {
        seq!['\\', 'u', '{', '1', hex_digit(u - 0x10), '}']
    } else if u == 0x7f {
        seq!['\\', 'u', '{', '7', 'f', '}']
    } else {
        seq![c]
    }
}

/// A whole character sequence escaped as `Debug` formatting escapes it.
pub open spec fn escape_seq(s: Seq<char>) -> Seq<char>
    decreases s.len(),
{
    if s.len() == 0 {
        Seq::empty()
    } else {
        escape_char(s[0]) + escape_seq(s.skip(1))
    }
}

/// A string as `Debug` formatting shows it: quoted and escaped.
pub open spec fn debug_str_spec(s: Seq<char>) -> Seq<char> {
    seq!['"'] + escape_seq(s) + seq!['"']
}

proof fn lemma_escape_push(s: Seq<char>, x: char)
    ensures
        escape_seq(s.push(x)) == escape_seq(s) + escape_char(x),
    decreases s.len(),
{
    if s.len() == 0 {
        assert(s.push(x) =~= seq![x]);
        assert(s.push(x)[0] == x);
        assert(s.push(x).skip(1) =~= Seq::<char>::empty());
        assert(escape_seq(Seq::<char>::empty()) == Seq::<char>::empty());
        assert(escape_seq(s) == Seq::<char>::empty());
        assert(escape_seq(s.push(x)) =~= escape_seq(s) + escape_char(x));
    } else {
        lemma_escape_push(s.skip(1), x);
        assert(s.push(x).skip(1) =~= s.skip(1).push(x));
        assert(s.push(x)[0] == s[0]);
        assert(escape_seq(s.push(x)) == escape_char(s[0]) + (escape_seq(s.skip(1))
            + escape_char(x)));
        assert(escape_seq(s.push(x)) =~= escape_seq(s) + escape_char(x));
    }
}

/// Appends the lower-case hex digit for `d`.
fn append_hex_digit(m: &mut String, d: usize)
    requires
        d < 16,
    ensures
        final(m)@ == old(m)@ + seq![hex_digit(d as int)],
{
    let table = "0123456789abcdef";
    proof {
        reveal_strlit("0123456789abcdef");
    }
    let piece = table.substring_char(d, d + 1);
    proof {
        assert(piece@ =~= seq![hex_digit(d as int)]);
    }
    m.append(piece);
}

/// Renders a string as `Debug` formatting renders it: wrapped in double
/// quotes, with quote, backslash, the control characters and delete
/// escaped.
fn debug_string(s: &str) -> (r: String)
    ensures
        r@ == debug_str_spec(s@),
{
    let n: usize = s.unicode_len();
    let mut m = String::from_str("\"");
    proof {
        reveal_strlit("\"");
        assert(m@ =~= seq!['"'] + escape_seq(s@.take(0)));
    }
    let mut i: usize = 0;
    while i < n
        invariant
            0 <= i <= n,
            n == s@.len(),
            m@ == seq!['"'] + escape_seq(s@.take(i as int)),
        decreases n - i,
    {
        let c = s.get_char(i);
        let u = c as u32;
        proof {
            lemma_escape_push(s@.take(i as int), c);
            assert(s@.take(i as int).push(c) =~= s@.take(i + 1));
        }
        if c == '"' {
            m.append("\\\"");
            proof {
                reveal_strlit("\\\"");
                assert("\\\""@ =~= escape_char(c));
            }
        } else if c == '\\' {
            m.append("\\\\");
            proof {
                reveal_strlit("\\\\");
                assert("\\\\"@ =~= escape_char(c));
            }
        } else if c == '\n' {
            m.append("\\n");
            proof {
                reveal_strlit("\\n");
                assert("\\n"@ =~= escape_char(c));
            }
        } else if c == '\r' {
            m.append("\\r");
            proof {
                reveal_strlit("\\r");
                assert("\\r"@ =~= escape_char(c));
            }
        } else if c == '\t' {
            m.append("\\t");
            proof {
                reveal_strlit("\\t");
                assert("\\t"@ =~= escape_char(c));
            }
        } else if u == 0 {
            m.append("\\0");
            proof {
                reveal_strlit("\\0");
                assert("\\0"@ =~= escape_char(c));
            }
        } else if u < 0x10 {
            m.append("\\u{");
            append_hex_digit(&mut m, u as usize);
            m.append("}");
            proof {
                reveal_strlit("\\u{");
                reveal_strlit("}");
                assert(m@ =~= seq!['"'] + escape_seq(s@.take(i + 1)));
            }
        } else if u < 0x20 {
            m.append("\\u{1");
            append_hex_digit(&mut m, (u - 0x10) as usize);
            m.append("}");
            proof {
                reveal_strlit("\\u{1");
                reveal_strlit("}");
                assert(m@ =~= seq!['"'] + escape_seq(s@.take(i + 1)));
            }
        } else if u == 0x7f {
            m.append("\\u{7f}");
            proof {
                reveal_strlit("\\u{7f}");
                assert("\\u{7f}"@ =~= escape_char(c));
            }
        } else {
            let piece = s.substring_char(i, i + 1);
            proof {
                assert(piece@ =~= escape_char(c));
            }
            m.append(piece);
        }
        proof {
            assert(m@ =~= seq!['"'] + escape_seq(s@.take(i + 1)));
        }
        i = i + 1;
    }
    proof {
        reveal_strlit("\"");
        assert(s@.take(n as int) =~= s@);
    }
    m.append("\"");
    proof {
        assert(m@ =~= debug_str_spec(s@));
    }
    m
}

/// The display line the stub executor reports for a command shape: the
/// words `ran command: ` followed by the command as Rust's derived
/// `Debug` formatting shows it. The `Exit` shape never reaches the
/// executor; its line is empty.
pub open spec fn render_spec(c: CommandShape) -> Seq<char> {
    match c {
        CommandShape::WifiAdd { ssid, password: None } => "ran command: WifiAdd { ssid: "@
            + debug_str_spec(ssid) + ", password: None }"@,
        CommandShape::WifiAdd { ssid, password: Some(p) } => "ran command: WifiAdd { ssid: "@
            + debug_str_spec(ssid) + ", password: Some("@ + debug_str_spec(p) + ") }"@,
        CommandShape::WifiDelete { ssid } => "ran command: WifiDelete("@ + debug_str_spec(ssid)
            + ")"@,
        CommandShape::WifiScan => "ran command: WifiScan"@,
        CommandShape::Configure { key, value } => "ran command: Configure("@ + debug_str_spec(key)
            + ", "@ + debug_str_spec(value) + ")"@,
        CommandShape::GetConfig { key } => "ran command: GetConfig("@ + debug_str_spec(key) + ")"@,
        CommandShape::Exit => Seq::empty(),
    }
}

/// Runs one structured command and returns the display line for the
/// client. This stub owns the command it is given and reports what it
/// was; it never touches the connection.
pub fn execute_command(cmd: BossCommand) -> (r: String)
    ensures
        r@ == render_spec(boss_shape(cmd)),
{
    match &cmd {
        BossCommand::WifiAdd { ssid, password } => {
            let mut m = String::from_str("ran command: WifiAdd { ssid: ");
            let shown = debug_string(ssid.as_str());
            m.append(shown.as_str());
            match password {
                Some(p) => {
                    m.append(", password: Some(");
                    let shown_p = debug_string(p.as_str());
                    m.append(shown_p.as_str());
                    m.append(") }");
                },
                None => {
                    m.append(", password: None }");
                },
            }
            proof {
                assert(m@ =~= render_spec(boss_shape(cmd)));
            }
            m
        },
        BossCommand::WifiDelete(ssid) => {
            let mut m = String::from_str("ran command: WifiDelete(");
            let shown = debug_string(ssid.as_str());
            m.append(shown.as_str());
            m.append(")");
            proof {
                assert(m@ =~= render_spec(boss_shape(cmd)));
            }
            m
        },
        BossCommand::WifiScan => String::from_str("ran command: WifiScan"),
        BossCommand::Configure(key, value) => {
            let mut m = String::from_str("ran command: Configure(");
            let shown_k = debug_string(key.as_str());
            m.append(shown_k.as_str());
            m.append(", ");
            let shown_v = debug_string(value.as_str());
            m.append(shown_v.as_str());
            m.append(")");
            proof {
                assert(m@ =~= render_spec(boss_shape(cmd)));
            }
            m
        },
        BossCommand::GetConfig(key) => {
            let mut m = String::from_str("ran command: GetConfig(");
            let shown = debug_string(key.as_str());
            m.append(shown.as_str());
            m.append(")");
            proof {
                assert(m@ =~= render_spec(boss_shape(cmd)));
            }
            m
        },
    }
}

} // verus!
