//! Single-key scanner for the hook's input payload.
//!
//! The payload is expected to contain `"file_path": "<value>"` somewhere
//! inside a larger, possibly malformed, JSON document.  The scanner locates
//! that one key and takes the quoted value; it deliberately tolerates
//! garbage everywhere else and is not a JSON parser.  The scan for the
//! closing quote is naive — escape sequences are honored only during the
//! unescaping step after capture, not while searching for the terminator.

use vstd::prelude::*;
use vstd::string::*;

use crate::strutil::{
    char_from, find_sub, replace_sub, skip_ws, skip_ws_from, str_char_from, str_find, str_replace,
};

verus! {

/// The key token searched for, quoting included.
pub open spec fn key_token() -> Seq<char> {
    "\"file_path\""@
}

/// The captured value after unescaping: first every `\"` becomes `"`,
/// then every `\\` becomes `\`; no other escape sequence is processed.
pub open spec fn unescape(raw: Seq<char>) -> Seq<char> {
    replace_sub(replace_sub(raw, "\\\""@, "\""@), "\\\\"@, "\\"@)
}

/// The path extracted from `input`, if any: after the first occurrence of
/// the key token, skip whitespace, require `:`, skip whitespace, require
/// an opening quote, capture up to the next quote, unescape, and reject an
/// empty result.
pub open spec fn extract_spec(input: Seq<char>) -> Option<Seq<char>> {
    match find_sub(input, key_token()) {
        None => None,
        Some(k) => {
            let j = skip_ws_from(input, k + key_token().len());
            if j >= input.len() || input[j] != ':' {
                None
            } else {
                let v = skip_ws_from(input, j + 1);
                if v >= input.len() || input[v] != '"' {
                    None
                } else {
                    match char_from(input, '"', v + 1) {
                        None => None,
                        Some(e) => {
                            let path = unescape(input.subrange(v + 1, e));
                            if path.len() == 0 {
                                None
                            } else {
                                Some(path)
                            }
                        },
                    }
                }
            }
        },
    }
}

/// Pull the target path out of the raw input payload.
pub fn extract_file_path(input: &str) -> (r: Option<String>)
    ensures
        match r {
            Some(p) => extract_spec(input@) == Some(p@),
            None => extract_spec(input@) == None::<Seq<char>>,
        },
{
    let key = "\"file_path\"";
    proof {
        reveal_strlit("\"file_path\"");
    }
    let k = match str_find(input, key) {
        None => {
            return None;
        },
        Some(k) => k,
    };
    proof {
        crate::strutil::lemma_find_from_props(input@, key@, 0);
    }
    let n = input.unicode_len();
    let klen = key.unicode_len();
    let j = skip_ws(input, k + klen);
    if j == n {
        return None;
    }
    if input.get_char(j) != ':' {
        return None;
    }
    let v = skip_ws(input, j + 1);
    if v == n {
        return None;
    }
    if input.get_char(v) != '"' {
        return None;
    }
    let e = match str_char_from(input, '"', v + 1) {
        None => {
            return None;
        },
        Some(e) => e,
    };
    let raw = input.substring_char(v + 1, e);
    proof {
        reveal_strlit("\\\"");
        reveal_strlit("\\\\");
    }
    let step1 = str_replace(raw, "\\\"", "\"");
    let path = str_replace(step1.as_str(), "\\\\", "\\");
    if path.as_str().unicode_len() == 0 {
        None
    } else {
        Some(path)
    }
}

} // verus!
