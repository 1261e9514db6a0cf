//! Rendering the outcome into the one-line JSON response the caller
//! prints.  Only five characters are escaped in the embedded message:
//! backslash, double quote, newline, carriage return, and tab.

use vstd::prelude::*;
use vstd::string::*;

verus! {

/// How one character appears inside a JSON string value.
pub open spec fn escape_char(c: char) -> Seq<char> {
    if c == '\\' {
        seq!['\\', '\\']
    } else if c == '"' {
        seq!['\\', '"']
    } else if c == '\n' {
        seq!['\\', 'n']
    } else if c == '\r' {
        seq!['\\', 'r']
    } else if c == '\t' {
        seq!['\\', 't']
    } else {
        seq![c]
    }
}

/// Each character of `s` replaced by its escaped form.
pub open spec fn escape_json_spec(s: Seq<char>) -> Seq<char>
    decreases s.len(),
{
    if s.len() == 0 {
        Seq::<char>::empty()
    } else {
        escape_char(s[0]) + escape_json_spec(s.drop_first())
    }
}

/// Unfolding step for `escape_json_spec` at a suffix.
proof fn lemma_escape_step(s: Seq<char>, i: int)
    requires
        0 <= i < s.len(),
    ensures
        escape_json_spec(s.skip(i)) == escape_char(s[i]) + escape_json_spec(s.skip(i + 1)),
{
    assert(s.skip(i)[0] == s[i]);
    assert(s.skip(i).drop_first() =~= s.skip(i + 1));
}

/// Escape a message for embedding in a JSON string value.
pub fn escape_json(message: &str) -> (r: String)
    ensures
        r@ == escape_json_spec(message@),
{
    let n = message.unicode_len();
    let mut out = String::new();
    let mut i: usize = 0;
    proof {
        assert(message@.skip(0) =~= message@);
        assert(Seq::<char>::empty() + escape_json_spec(message@) =~= escape_json_spec(message@));
    }
    while i < n
        invariant
            n == message@.len(),
            i <= n,
            out@ + escape_json_spec(message@.skip(i as int)) == escape_json_spec(message@),
        decreases n - i,
    {
        let c = message.get_char(i);
        proof {
            lemma_escape_step(message@, i as int);
        }
        if c == '\\' {
            out.append("\\\\");
            proof {
                reveal_strlit("\\\\");
                assert("\\\\"@ =~= escape_char('\\'));
            }
        } else if c == '"' {
            out.append("\\\"");
            proof {
                reveal_strlit("\\\"");
                assert("\\\""@ =~= escape_char('"'));
            }
        } else if c == '\n' {
            out.append("\\n");
            proof {
                reveal_strlit("\\n");
                assert("\\n"@ =~= escape_char('\n'));
            }
        } else if c == '\r' {
            out.append("\\r");
            proof {
                reveal_strlit("\\r");
                assert("\\r"@ =~= escape_char('\r'));
            }
        } else if c == '\t' {
            out.append("\\t");
            proof {
                reveal_strlit("\\t");
                assert("\\t"@ =~= escape_char('\t'));
            }
        } else {
            let piece = message.substring_char(i, i + 1);
            proof {
                assert(piece@ =~= escape_char(c));
            }
            out.append(piece);
        }
        proof {
            assert(out@ + escape_json_spec(message@.skip(i + 1)) =~= escape_json_spec(message@));
        }
        i = i + 1;
    }
    proof {
        assert(message@.skip(n as int) =~= Seq::<char>::empty());
        assert(out@ + Seq::<char>::empty() =~= out@);
    }
    out
}

/// The JSON line answered to the caller.  Without the debug flag a
/// continuing response carries no message at all; with it, the escaped
/// message is embedded; a blocking response carries the message as the
/// reason, and additionally as the visible message when debugging.
pub open spec fn response_spec(debug: bool, continue_execution: bool, message: Seq<char>) -> Seq<
    char,
> {
    if continue_execution && !debug {
        "{\"continue\":true}"@
    } else {
        let esc = escape_json_spec(message);
        if continue_execution {
            "{\"continue\":true,\"systemMessage\":\""@ + esc + "\"}"@
        } else if debug {
            "{\"decision\":\"block\",\"reason\":\""@ + esc + "\",\"systemMessage\":\""@ + esc
                + "\"}"@
        } else {
            "{\"decision\":\"block\",\"reason\":\""@ + esc + "\"}"@
        }
    }
}

/// Build the JSON response line.
pub fn render_response(debug: bool, continue_execution: bool, message: &str) -> (r: String)
    ensures
        r@ == response_spec(debug, continue_execution, message@),
{
    if continue_execution && !debug {
        return String::from_str("{\"continue\":true}");
    }
    let esc = escape_json(message);
    if continue_execution {
        let mut out = String::from_str("{\"continue\":true,\"systemMessage\":\"");
        out.append(esc.as_str());
        out.append("\"}");
        out
    } else if debug {
        let mut out = String::from_str("{\"decision\":\"block\",\"reason\":\"");
        out.append(esc.as_str());
        out.append("\",\"systemMessage\":\"");
        out.append(esc.as_str());
        out.append("\"}");
        out
    } else {
        let mut out = String::from_str("{\"decision\":\"block\",\"reason\":\"");
        out.append(esc.as_str());
        out.append("\"}");
        out
    }
}

} // verus!
