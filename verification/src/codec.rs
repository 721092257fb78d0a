//! The wire-frame codec of the realtime connection.
//!
//! Each frame is one text object in a JSON subset: objects, strings
//! (with the escapes `\" \\ \/ \n \t \r`), unsigned integers and
//! `null`, with whitespace between tokens. Inbound frames carry an
//! `"opcode"` discriminant first, then the fields of their family, in
//! the canonical order the service emits. A malformed or unrecognized
//! frame is a protocol error: the session has no defined recovery.
//!
//! Every decoder is specified against a specification parser over the
//! frame text's character sequence, so what `decode_frame` returns is
//! pinned for every input.

use vstd::prelude::*;
use crate::models::{ID, User, UserV, RoomMe, Room, RoomV, Message, MessageV, MessageType, WsHello};
use crate::models::{WsDispatch, WsDispatchV, WsIncomingMessage, WsIncomingV};

verus! {

/// A frame the session cannot accept: malformed text, an opcode
/// outside the modeled protocol, or an unknown dispatch event.
#[derive(Debug, Clone, Copy, PartialEq, Eq, Structural)]
pub enum ProtocolError {
    Malformed,
    UnrecognizedOpcode,
    UnrecognizedEvent,
}

/// Frame whitespace: space, tab, carriage return, line feed.
pub open spec fn is_ws(c: char) -> bool {
    c == ' ' || c == '\t' || c == '\r' || c == '\n'
}

pub open spec fn is_digit_char(c: char) -> bool {
    48 <= c as u32 <= 57
}

/// The first index at or after `i` holding a non-whitespace character.
pub open spec fn skip_ws_spec(s: Seq<char>, i: int) -> int
    decreases s.len() - i,
{
    if 0 <= i < s.len() && is_ws(s[i]) {
        skip_ws_spec(s, i + 1)
    } else {
        i
    }
}

fn skip_ws(s: &str, n: usize, i: usize) -> (j: usize)
    requires
        n == s@.len(),
        i <= n,
    ensures
        j == skip_ws_spec(s@, i as int),
        i <= j <= n,
{
    let mut j = i;
    while j < n
        invariant
            i <= j <= n,
            n == s@.len(),
            skip_ws_spec(s@, i as int) == skip_ws_spec(s@, j as int),
        decreases n - j,
    {
        let c = s.get_char(j);
        if c == ' ' || c == '\t' || c == '\r' || c == '\n' {
            j += 1;
        } else {
            return j;
        }
    }
    j
}

/// Expects the character `c` after optional whitespace; the index just
/// past it on success.
pub open spec fn tok_spec(s: Seq<char>, i: int, c: char) -> Option<int> {
    let j = skip_ws_spec(s, i);
    if j < s.len() && s[j] == c {
        Some(j + 1)
    } else {
        None
    }
}

fn tok(s: &str, n: usize, i: usize, c: char) -> (r: Option<usize>)
    requires
        n == s@.len(),
        i <= n,
    ensures
        match r {
            Some(j) => tok_spec(s@, i as int, c) == Some(j as int) && i <= j <= n,
            None => tok_spec(s@, i as int, c) is None,
        },
{
    let j = skip_ws(s, n, i);
    if j < n && s.get_char(j) == c {
        Some(j + 1)
    } else {
        None
    }
}

/// What a string escape after a backslash stands for, if recognized.
pub open spec fn unescape_char(c: char) -> Option<char> {
    if c == '"' {
        Some('"')
    } else if c == '\\' {
        Some('\\')
    } else if c == '/' {
        Some('/')
    } else if c == 'n' {
        Some('\n')
    } else if c == 't' {
        Some('\t')
    } else if c == 'r' {
        Some('\r')
    } else {
        None
    }
}

/// The body of a string literal from `i` (just past the opening
/// quote): its content up to the closing quote, and the index past
/// that quote.
pub open spec fn string_body_spec(s: Seq<char>, i: int) -> Option<(Seq<char>, int)>
    decreases s.len() - i,
{
    if i < 0 || i >= s.len() {
        None
    } else if s[i] == '"' {
        Some((Seq::empty(), i + 1))
    } else if s[i] == '\\' {
        if i + 1 >= s.len() {
            None
        } else {
            match unescape_char(s[i + 1]) {
                Some(c) => match string_body_spec(s, i + 2) {
                    Some(t) => Some((seq![c] + t.0, t.1)),
                    None => None,
                },
                None => None,
            }
        }
    } else {
        match string_body_spec(s, i + 1) {
            Some(t) => Some((seq![s[i]] + t.0, t.1)),
            None => None,
        }
    }
}

/// A quoted string at `i` after optional whitespace: its content and
/// the index past the closing quote.
pub open spec fn parse_string_spec(s: Seq<char>, i: int) -> Option<(Seq<char>, int)> {
    let j = skip_ws_spec(s, i);
    if j < s.len() && s[j] == '"' {
        string_body_spec(s, j + 1)
    } else {
        None
    }
}

#[verifier::loop_isolation(false)]
fn parse_string(s: &str, n: usize, i: usize) -> (r: Option<(String, usize)>)
    requires
        n == s@.len(),
        i <= n,
    ensures
        match r {
            Some(t) => parse_string_spec(s@, i as int) == Some((t.0@, t.1 as int)) && i <= t.1 <= n,
            None => parse_string_spec(s@, i as int) is None,
        },
{
    let start = skip_ws(s, n, i);
    if !(start < n && s.get_char(start) == '"') {
        return None;
    }
    let mut acc = String::new();
    let mut run_start = start + 1;
    let mut j = start + 1;
    proof {
        match string_body_spec(s@, j as int) {
            Some(t) => {
                assert(acc@ + s@.subrange(run_start as int, j as int) + t.0 =~= t.0);
            }
            None => {}
        }
    }
    while j < n
        invariant
            start + 1 <= run_start <= j <= n,
            n == s@.len(),
            forall|m: int| run_start <= m < j ==> s@[m] != '"' && s@[m] != '\\',
            string_body_spec(s@, (start + 1) as int) == match string_body_spec(s@, j as int) {
                Some(t) => Some::<(Seq<char>, int)>((acc@ + s@.subrange(run_start as int, j as int) + t.0, t.1)),
                None => None::<(Seq<char>, int)>,
            },
        decreases n - j,
    {
        let c = s.get_char(j);
        if c == '"' {
            let run = s.substring_char(run_start, j);
            let mut out = acc;
            out.append(run);
            proof {
                assert(acc@ + s@.subrange(run_start as int, j as int) + Seq::<char>::empty()
                    =~= out@);
            }
            return Some((out, j + 1));
        } else if c == '\\' {
            if j + 1 >= n {
                proof {
                    assert(string_body_spec(s@, j as int) is None);
                }
                return None;
            }
            let e = s.get_char(j + 1);
            let run = s.substring_char(run_start, j);
            let lit: &str = if e == '"' {
                "\""
            } else if e == '\\' {
                "\\"
            } else if e == '/' {
                "/"
            } else if e == 'n' {
                "\n"
            } else if e == 't' {
                "\t"
            } else if e == 'r' {
                "\r"
            } else {
                proof {
                    assert(string_body_spec(s@, j as int) is None);
                }
                return None;
            };
            proof {
                reveal_strlit("\"");
                reveal_strlit("\\");
                reveal_strlit("/");
                reveal_strlit("\n");
                reveal_strlit("\t");
                reveal_strlit("\r");
                assert(lit@ == seq![unescape_char(s@[j as int + 1]).unwrap()]);
            }
            let ghost acc0 = acc@;
            let ghost runv = s@.subrange(run_start as int, j as int);
            acc.append(run);
            acc.append(lit);
            proof {
                let uc = unescape_char(s@[j as int + 1]).unwrap();
                match string_body_spec(s@, (j + 2) as int) {
                    Some(t) => {
                        assert(acc@ + s@.subrange((j + 2) as int, (j + 2) as int) + t.0
                            =~= acc0 + runv + (seq![uc] + t.0));
                    }
                    None => {}
                }
            }
            j += 2;
            run_start = j;
        } else {
            proof {
                assert(s@.subrange(run_start as int, (j + 1) as int)
                    =~= s@.subrange(run_start as int, j as int).push(s@[j as int]));
                match string_body_spec(s@, (j + 1) as int) {
                    Some(t) => {
                        assert(acc@ + s@.subrange(run_start as int, (j + 1) as int) + t.0
                            =~= acc@ + s@.subrange(run_start as int, j as int)
                                + (seq![s@[j as int]] + t.0));
                    }
                    None => {}
                }
            }
            j += 1;
        }
    }
    proof {
        assert(string_body_spec(s@, j as int) is None);
    }
    None
}

/// The digits from `i` folded into a value, `None` past `u64::MAX`.
pub open spec fn uint_body_spec(s: Seq<char>, i: int, acc: int) -> Option<(u64, int)>
    decreases s.len() - i,
{
    if 0 <= i < s.len() && is_digit_char(s[i]) {
        let v = acc * 10 + (s[i] as u32 - 48);
        if v > u64::MAX {
            None
        } else {
            uint_body_spec(s, i + 1, v)
        }
    } else {
        Some((acc as u64, i))
    }
}

/// An unsigned decimal integer at `i` after optional whitespace.
pub open spec fn parse_uint_spec(s: Seq<char>, i: int) -> Option<(u64, int)> {
    let j = skip_ws_spec(s, i);
    if j < s.len() && is_digit_char(s[j]) {
        uint_body_spec(s, j, 0)
    } else {
        None
    }
}

#[verifier::loop_isolation(false)]
fn parse_uint(s: &str, n: usize, i: usize) -> (r: Option<(u64, usize)>)
    requires
        n == s@.len(),
        i <= n,
    ensures
        match r {
            Some(t) => parse_uint_spec(s@, i as int) == Some((t.0, t.1 as int)) && i <= t.1 <= n,
            None => parse_uint_spec(s@, i as int) is None,
        },
{
    let start = skip_ws(s, n, i);
    if !(start < n && {
        let c = s.get_char(start);
        '0' as u32 <= c as u32 && c as u32 <= '9' as u32
    }) {
        return None;
    }
    let mut acc: u64 = 0;
    let mut j = start;
    while j < n
        invariant
            start <= j <= n,
            n == s@.len(),
            uint_body_spec(s@, start as int, 0) == uint_body_spec(s@, j as int, acc as int),
        decreases n - j,
    {
        let c = s.get_char(j);
        if !('0' as u32 <= c as u32 && c as u32 <= '9' as u32) {
            return Some((acc, j));
        }
        let d = (c as u32 - 48) as u64;
        let m = match acc.checked_mul(10) {
            Some(m) => m,
            None => {
                return None;
            }
        };
        acc = match m.checked_add(d) {
            Some(v) => v,
            None => {
                return None;
            }
        };
        j += 1;
    }
    Some((acc, j))
}

/// A key token and its colon: `"key" :`; the index after the colon.
pub open spec fn field_spec(s: Seq<char>, i: int, key: Seq<char>) -> Option<int> {
    match parse_string_spec(s, i) {
        Some(t) => if t.0 == key {
            tok_spec(s, t.1, ':')
        } else {
            None
        },
        None => None,
    }
}

fn field(s: &str, n: usize, i: usize, key: &str) -> (r: Option<usize>)
    requires
        n == s@.len(),
        i <= n,
    ensures
        match r {
            Some(j) => field_spec(s@, i as int, key@) == Some(j as int) && i <= j <= n,
            None => field_spec(s@, i as int, key@) is None,
        },
{
    match parse_string(s, n, i) {
        Some((k, j)) => {
            if k == key.to_owned() {
                tok(s, n, j, ':')
            } else {
                None
            }
        }
        None => None,
    }
}

/// The literal `null` after optional whitespace.
pub open spec fn null_spec(s: Seq<char>, i: int) -> Option<int> {
    let j = skip_ws_spec(s, i);
    if j + 4 <= s.len() && s[j] == 'n' && s[j + 1] == 'u' && s[j + 2] == 'l' && s[j + 3] == 'l' {
        Some(j + 4)
    } else {
        None
    }
}

fn parse_null(s: &str, n: usize, i: usize) -> (r: Option<usize>)
    requires
        n == s@.len(),
        i <= n,
    ensures
        match r {
            Some(j) => null_spec(s@, i as int) == Some(j as int) && i <= j <= n,
            None => null_spec(s@, i as int) is None,
        },
{
    let j = skip_ws(s, n, i);
    if n >= 4 && j <= n - 4 && s.get_char(j) == 'n' && s.get_char(j + 1) == 'u'
        && s.get_char(j + 2) == 'l' && s.get_char(j + 3) == 'l' {
        Some(j + 4)
    } else {
        None
    }
}

/// A string or `null`: the content, or `None` for `null`.
pub open spec fn opt_string_spec(s: Seq<char>, i: int) -> Option<(Option<Seq<char>>, int)> {
    match null_spec(s, i) {
        Some(j) => Some((None, j)),
        None => match parse_string_spec(s, i) {
            Some(t) => Some((Some(t.0), t.1)),
            None => None,
        },
    }
}

fn parse_opt_string(s: &str, n: usize, i: usize) -> (r: Option<(Option<String>, usize)>)
    requires
        n == s@.len(),
        i <= n,
    ensures
        match r {
            Some(t) => opt_string_spec(s@, i as int) == Some((
                match t.0 {
                    Some(v) => Some(v@),
                    None => None,
                },
                t.1 as int,
            )) && i <= t.1 <= n,
            None => opt_string_spec(s@, i as int) is None,
        },
{
    match parse_null(s, n, i) {
        Some(j) => Some((None, j)),
        None => match parse_string(s, n, i) {
            Some((v, j)) => Some((Some(v), j)),
            None => None,
        },
    }
}

/// A user object: `{"id": .., "username": .. or null or absent, "name": ..}`,
/// fields in the order the service emits them.
pub open spec fn parse_user_spec(s: Seq<char>, i: int) -> Option<(UserV, int)> {
    match tok_spec(s, i, '{') {
        None => None,
        Some(j0) => match field_spec(s, j0, "id"@) {
            None => None,
            Some(j1) => match parse_string_spec(s, j1) {
                None => None,
                Some((idv, j2)) => match tok_spec(s, j2, ',') {
                    None => None,
                    Some(j3) => match parse_string_spec(s, j3) {
                        None => None,
                        Some((k2, j4)) => if k2 == "username"@ {
                            match tok_spec(s, j4, ':') {
                                None => None,
                                Some(j5) => match opt_string_spec(s, j5) {
                                    None => None,
                                    Some((un, j6)) => match tok_spec(s, j6, ',') {
                                        None => None,
                                        Some(j7) => match field_spec(s, j7, "name"@) {
                                            None => None,
                                            Some(j8) => user_tail_spec(s, j8, idv, un),
                                        },
                                    },
                                },
                            }
                        } else if k2 == "name"@ {
                            match tok_spec(s, j4, ':') {
                                None => None,
                                Some(j5) => user_tail_spec(s, j5, idv, None),
                            }
                        } else {
                            None
                        },
                    },
                },
            },
        },
    }
}

/// The tail of a user object: the name string and the closing brace.
pub open spec fn user_tail_spec(s: Seq<char>, i: int, idv: Seq<char>, un: Option<Seq<char>>) -> Option<(UserV, int)> {
    match parse_string_spec(s, i) {
        None => None,
        Some((namev, j)) => match tok_spec(s, j, '}') {
            None => None,
            Some(j2) => Some((UserV { id: idv, username: un, name: namev }, j2)),
        },
    }
}

fn user_tail(s: &str, n: usize, i: usize, id: ID, username: Option<String>) -> (r: Option<(User, usize)>)
    requires
        n == s@.len(),
        i <= n,
    ensures
        match r {
            Some(t) => user_tail_spec(s@, i as int, id@, match username {
                Some(u) => Some(u@),
                None => None,
            }) == Some((t.0@, t.1 as int)) && i <= t.1 <= n,
            None => user_tail_spec(s@, i as int, id@, match username {
                Some(u) => Some(u@),
                None => None,
            }) is None,
        },
{
    match parse_string(s, n, i) {
        None => None,
        Some((name, j)) => match tok(s, n, j, '}') {
            None => None,
            Some(j2) => Some((User { id, username, name }, j2)),
        },
    }
}

fn parse_user(s: &str, n: usize, i: usize) -> (r: Option<(User, usize)>)
    requires
        n == s@.len(),
        i <= n,
    ensures
        match r {
            Some(t) => parse_user_spec(s@, i as int) == Some((t.0@, t.1 as int)) && i <= t.1 <= n,
            None => parse_user_spec(s@, i as int) is None,
        },
{
    let j0 = match tok(s, n, i, '{') {
        Some(j) => j,
        None => {
            return None;
        }
    };
    let j1 = match field(s, n, j0, "id") {
        Some(j) => j,
        None => {
            return None;
        }
    };
    let (idstr, j2) = match parse_string(s, n, j1) {
        Some(t) => t,
        None => {
            return None;
        }
    };
    let j3 = match tok(s, n, j2, ',') {
        Some(j) => j,
        None => {
            return None;
        }
    };
    let (k2, j4) = match parse_string(s, n, j3) {
        Some(t) => t,
        None => {
            return None;
        }
    };
    let id = ID::new(idstr);
    if k2 == "username".to_owned() {
        let j5 = match tok(s, n, j4, ':') {
            Some(j) => j,
            None => {
                return None;
            }
        };
        let (un, j6) = match parse_opt_string(s, n, j5) {
            Some(t) => t,
            None => {
                return None;
            }
        };
        let j7 = match tok(s, n, j6, ',') {
            Some(j) => j,
            None => {
                return None;
            }
        };
        let j8 = match field(s, n, j7, "name") {
            Some(j) => j,
            None => {
                return None;
            }
        };
        user_tail(s, n, j8, id, un)
    } else if k2 == "name".to_owned() {
        let j5 = match tok(s, n, j4, ':') {
            Some(j) => j,
            None => {
                return None;
            }
        };
        user_tail(s, n, j5, id, None)
    } else {
        None
    }
}

/// A message object: id, content, room id, author and kind, in the
/// order the service emits them; the kind tag must be the one modeled
/// kind, `"0"`.
pub open spec fn parse_message_spec(s: Seq<char>, i: int) -> Option<(MessageV, int)> {
    match tok_spec(s, i, '{') {
        None => None,
        Some(j0) => match field_spec(s, j0, "id"@) {
            None => None,
            Some(j1) => match parse_string_spec(s, j1) {
                None => None,
                Some((idv, j2)) => match tok_spec(s, j2, ',') {
                    None => None,
                    Some(j3) => match field_spec(s, j3, "content"@) {
                        None => None,
                        Some(j4) => match parse_string_spec(s, j4) {
                            None => None,
                            Some((contentv, j5)) => match tok_spec(s, j5, ',') {
                                None => None,
                                Some(j6) => match field_spec(s, j6, "room_id"@) {
                                    None => None,
                                    Some(j7) => match parse_string_spec(s, j7) {
                                        None => None,
                                        Some((ridv, j8)) => message_tail_spec(s, j8, idv, contentv, ridv),
                                    },
                                },
                            },
                        },
                    },
                },
            },
        },
    }
}

/// The tail of a message object: author, kind tag and closing brace.
pub open spec fn message_tail_spec(s: Seq<char>, i: int, idv: Seq<char>, contentv: Seq<char>, ridv: Seq<char>) -> Option<(MessageV, int)> {
    match tok_spec(s, i, ',') {
        None => None,
        Some(j0) => match field_spec(s, j0, "author"@) {
            None => None,
            Some(j1) => match parse_user_spec(s, j1) {
                None => None,
                Some((authorv, j2)) => match tok_spec(s, j2, ',') {
                    None => None,
                    Some(j3) => match field_spec(s, j3, "type"@) {
                        None => None,
                        Some(j4) => match parse_string_spec(s, j4) {
                            None => None,
                            Some((tv, j5)) => if tv != "0"@ {
                                None
                            } else {
                                match tok_spec(s, j5, '}') {
                                    None => None,
                                    Some(j6) => Some((
                                        MessageV {
                                            id: idv,
                                            content: contentv,
                                            room_id: ridv,
                                            author: authorv,
                                            message_type: MessageType::Standard,
                                        },
                                        j6,
                                    )),
                                }
                            },
                        },
                    },
                },
            },
        },
    }
}

fn message_tail(s: &str, n: usize, i: usize, id: ID, content: String, room_id: ID) -> (r: Option<(Message, usize)>)
    requires
        n == s@.len(),
        i <= n,
    ensures
        match r {
            Some(t) => message_tail_spec(s@, i as int, id@, content@, room_id@)
                == Some((t.0@, t.1 as int)) && i <= t.1 <= n,
            None => message_tail_spec(s@, i as int, id@, content@, room_id@) is None,
        },
{
    let j0 = match tok(s, n, i, ',') {
        Some(j) => j,
        None => {
            return None;
        }
    };
    let j1 = match field(s, n, j0, "author") {
        Some(j) => j,
        None => {
            return None;
        }
    };
    let (author, j2) = match parse_user(s, n, j1) {
        Some(t) => t,
        None => {
            return None;
        }
    };
    let j3 = match tok(s, n, j2, ',') {
        Some(j) => j,
        None => {
            return None;
        }
    };
    let j4 = match field(s, n, j3, "type") {
        Some(j) => j,
        None => {
            return None;
        }
    };
    let (tv, j5) = match parse_string(s, n, j4) {
        Some(t) => t,
        None => {
            return None;
        }
    };
    if !(tv == "0".to_owned()) {
        return None;
    }
    let j6 = match tok(s, n, j5, '}') {
        Some(j) => j,
        None => {
            return None;
        }
    };
    Some((Message { id, content, room_id, author, message_type: MessageType::Standard }, j6))
}

fn parse_message(s: &str, n: usize, i: usize) -> (r: Option<(Message, usize)>)
    requires
        n == s@.len(),
        i <= n,
    ensures
        match r {
            Some(t) => parse_message_spec(s@, i as int) == Some((t.0@, t.1 as int)) && i <= t.1 <= n,
            None => parse_message_spec(s@, i as int) is None,
        },
{
    let j0 = match tok(s, n, i, '{') {
        Some(j) => j,
        None => {
            return None;
        }
    };
    let j1 = match field(s, n, j0, "id") {
        Some(j) => j,
        None => {
            return None;
        }
    };
    let (idstr, j2) = match parse_string(s, n, j1) {
        Some(t) => t,
        None => {
            return None;
        }
    };
    let j3 = match tok(s, n, j2, ',') {
        Some(j) => j,
        None => {
            return None;
        }
    };
    let j4 = match field(s, n, j3, "content") {
        Some(j) => j,
        None => {
            return None;
        }
    };
    let (content, j5) = match parse_string(s, n, j4) {
        Some(t) => t,
        None => {
            return None;
        }
    };
    let j6 = match tok(s, n, j5, ',') {
        Some(j) => j,
        None => {
            return None;
        }
    };
    let j7 = match field(s, n, j6, "room_id") {
        Some(j) => j,
        None => {
            return None;
        }
    };
    let (ridstr, j8) = match parse_string(s, n, j7) {
        Some(t) => t,
        None => {
            return None;
        }
    };
    message_tail(s, n, j8, ID::new(idstr), content, ID::new(ridstr))
}

/// The caller's membership object: `{"permission_level": ..}` with a
/// value within `u32`.
pub open spec fn parse_me_spec(s: Seq<char>, i: int) -> Option<(RoomMe, int)> {
    match tok_spec(s, i, '{') {
        None => None,
        Some(j0) => match field_spec(s, j0, "permission_level"@) {
            None => None,
            Some(j1) => match parse_uint_spec(s, j1) {
                None => None,
                Some((v, j2)) => if v > u32::MAX {
                    None
                } else {
                    match tok_spec(s, j2, '}') {
                        None => None,
                        Some(j3) => Some((RoomMe { permission_level: v as u32 }, j3)),
                    }
                },
            },
        },
    }
}

fn parse_me(s: &str, n: usize, i: usize) -> (r: Option<(RoomMe, usize)>)
    requires
        n == s@.len(),
        i <= n,
    ensures
        match r {
            Some(t) => parse_me_spec(s@, i as int) == Some((t.0, t.1 as int)) && i <= t.1 <= n,
            None => parse_me_spec(s@, i as int) is None,
        },
{
    let j0 = match tok(s, n, i, '{') {
        Some(j) => j,
        None => {
            return None;
        }
    };
    let j1 = match field(s, n, j0, "permission_level") {
        Some(j) => j,
        None => {
            return None;
        }
    };
    let (v, j2) = match parse_uint(s, n, j1) {
        Some(t) => t,
        None => {
            return None;
        }
    };
    if v > u32::MAX as u64 {
        return None;
    }
    let j3 = match tok(s, n, j2, '}') {
        Some(j) => j,
        None => {
            return None;
        }
    };
    Some((RoomMe { permission_level: v as u32 }, j3))
}

/// A room object: id, name, description, owner id, kind tag,
/// membership, and an optional trailing last message.
pub open spec fn parse_room_spec(s: Seq<char>, i: int) -> Option<(RoomV, int)> {
    match tok_spec(s, i, '{') {
        None => None,
        Some(j0) => match field_spec(s, j0, "id"@) {
            None => None,
            Some(j1) => match parse_string_spec(s, j1) {
                None => None,
                Some((idv, j2)) => match tok_spec(s, j2, ',') {
                    None => None,
                    Some(j3) => match field_spec(s, j3, "name"@) {
                        None => None,
                        Some(j4) => match parse_string_spec(s, j4) {
                            None => None,
                            Some((namev, j5)) => match tok_spec(s, j5, ',') {
                                None => None,
                                Some(j6) => match field_spec(s, j6, "description"@) {
                                    None => None,
                                    Some(j7) => match parse_string_spec(s, j7) {
                                        None => None,
                                        Some((descv, j8)) => room_mid_spec(s, j8, idv, namev, descv),
                                    },
                                },
                            },
                        },
                    },
                },
            },
        },
    }
}

/// The middle of a room object: owner id, kind tag and membership.
pub open spec fn room_mid_spec(s: Seq<char>, i: int, idv: Seq<char>, namev: Seq<char>, descv: Seq<char>) -> Option<(RoomV, int)> {
    match tok_spec(s, i, ',') {
        None => None,
        Some(j0) => match field_spec(s, j0, "owner_id"@) {
            None => None,
            Some(j1) => match parse_string_spec(s, j1) {
                None => None,
                Some((ownerv, j2)) => match tok_spec(s, j2, ',') {
                    None => None,
                    Some(j3) => match field_spec(s, j3, "type"@) {
                        None => None,
                        Some(j4) => match parse_uint_spec(s, j4) {
                            None => None,
                            Some((tv, j5)) => if tv > u8::MAX {
                                None
                            } else {
                                match tok_spec(s, j5, ',') {
                                    None => None,
                                    Some(j6) => match field_spec(s, j6, "me"@) {
                                        None => None,
                                        Some(j7) => match parse_me_spec(s, j7) {
                                            None => None,
                                            Some((mev, j8)) => room_tail_spec(s, j8, idv, namev, descv, ownerv, tv as u8, mev),
                                        },
                                    },
                                }
                            },
                        },
                    },
                },
            },
        },
    }
}

/// The tail of a room object: an optional `last_message` field, then
/// the closing brace.
pub open spec fn room_tail_spec(s: Seq<char>, i: int, idv: Seq<char>, namev: Seq<char>, descv: Seq<char>, ownerv: Seq<char>, rt: u8, mev: RoomMe) -> Option<(RoomV, int)> {
    match tok_spec(s, i, ',') {
        Some(j0) => match field_spec(s, j0, "last_message"@) {
            None => None,
            Some(j1) => match opt_message_spec(s, j1) {
                None => None,
                Some((lm, j2)) => match tok_spec(s, j2, '}') {
                    None => None,
                    Some(j3) => Some((
                        RoomV {
                            id: idv,
                            name: namev,
                            description: descv,
                            owner_id: ownerv,
                            room_type: rt,
                            me: mev,
                            last_message: lm,
                        },
                        j3,
                    )),
                },
            },
        },
        None => match tok_spec(s, i, '}') {
            None => None,
            Some(j1) => Some((
                RoomV {
                    id: idv,
                    name: namev,
                    description: descv,
                    owner_id: ownerv,
                    room_type: rt,
                    me: mev,
                    last_message: None,
                },
                j1,
            )),
        },
    }
}

/// A message object or `null`.
pub open spec fn opt_message_spec(s: Seq<char>, i: int) -> Option<(Option<MessageV>, int)> {
    match null_spec(s, i) {
        Some(j) => Some((None, j)),
        None => match parse_message_spec(s, i) {
            Some((m, j)) => Some((Some(m), j)),
            None => None,
        },
    }
}

fn parse_opt_message(s: &str, n: usize, i: usize) -> (r: Option<(Option<Message>, usize)>)
    requires
        n == s@.len(),
        i <= n,
    ensures
        match r {
            Some(t) => opt_message_spec(s@, i as int) == Some((
                match t.0 {
                    Some(m) => Some(m@),
                    None => None,
                },
                t.1 as int,
            )) && i <= t.1 <= n,
            None => opt_message_spec(s@, i as int) is None,
        },
{
    match parse_null(s, n, i) {
        Some(j) => Some((None, j)),
        None => match parse_message(s, n, i) {
            Some((m, j)) => Some((Some(m), j)),
            None => None,
        },
    }
}

fn room_tail(s: &str, n: usize, i: usize, id: ID, name: String, description: String, owner_id: ID, room_type: u8, me: RoomMe) -> (r: Option<(Room, usize)>)
    requires
        n == s@.len(),
        i <= n,
    ensures
        match r {
            Some(t) => room_tail_spec(s@, i as int, id@, name@, description@, owner_id@, room_type, me)
                == Some((t.0@, t.1 as int)) && i <= t.1 <= n,
            None => room_tail_spec(s@, i as int, id@, name@, description@, owner_id@, room_type, me) is None,
        },
{
    match tok(s, n, i, ',') {
        Some(j0) => {
            let j1 = match field(s, n, j0, "last_message") {
                Some(j) => j,
                None => {
                    return None;
                }
            };
            let (lm, j2) = match parse_opt_message(s, n, j1) {
                Some(t) => t,
                None => {
                    return None;
                }
            };
            let j3 = match tok(s, n, j2, '}') {
                Some(j) => j,
                None => {
                    return None;
                }
            };
            Some((Room { id, name, description, owner_id, room_type, me, last_message: lm }, j3))
        }
        None => {
            let j1 = match tok(s, n, i, '}') {
                Some(j) => j,
                None => {
                    return None;
                }
            };
            Some((Room { id, name, description, owner_id, room_type, me, last_message: None }, j1))
        }
    }
}

fn parse_room(s: &str, n: usize, i: usize) -> (r: Option<(Room, usize)>)
    requires
        n == s@.len(),
        i <= n,
    ensures
        match r {
            Some(t) => parse_room_spec(s@, i as int) == Some((t.0@, t.1 as int)) && i <= t.1 <= n,
            None => parse_room_spec(s@, i as int) is None,
        },
{
    let j0 = match tok(s, n, i, '{') {
        Some(j) => j,
        None => {
            return None;
        }
    };
    let j1 = match field(s, n, j0, "id") {
        Some(j) => j,
        None => {
            return None;
        }
    };
    let (idstr, j2) = match parse_string(s, n, j1) {
        Some(t) => t,
        None => {
            return None;
        }
    };
    let j3 = match tok(s, n, j2, ',') {
        Some(j) => j,
        None => {
            return None;
        }
    };
    let j4 = match field(s, n, j3, "name") {
        Some(j) => j,
        None => {
            return None;
        }
    };
    let (name, j5) = match parse_string(s, n, j4) {
        Some(t) => t,
        None => {
            return None;
        }
    };
    let j6 = match tok(s, n, j5, ',') {
        Some(j) => j,
        None => {
            return None;
        }
    };
    let j7 = match field(s, n, j6, "description") {
        Some(j) => j,
        None => {
            return None;
        }
    };
    let (description, j8) = match parse_string(s, n, j7) {
        Some(t) => t,
        None => {
            return None;
        }
    };
    let j9 = match tok(s, n, j8, ',') {
        Some(j) => j,
        None => {
            return None;
        }
    };
    let j10 = match field(s, n, j9, "owner_id") {
        Some(j) => j,
        None => {
            return None;
        }
    };
    let (ownerstr, j11) = match parse_string(s, n, j10) {
        Some(t) => t,
        None => {
            return None;
        }
    };
    let j12 = match tok(s, n, j11, ',') {
        Some(j) => j,
        None => {
            return None;
        }
    };
    let j13 = match field(s, n, j12, "type") {
        Some(j) => j,
        None => {
            return None;
        }
    };
    let (tv, j14) = match parse_uint(s, n, j13) {
        Some(t) => t,
        None => {
            return None;
        }
    };
    if tv > u8::MAX as u64 {
        return None;
    }
    let j15 = match tok(s, n, j14, ',') {
        Some(j) => j,
        None => {
            return None;
        }
    };
    let j16 = match field(s, n, j15, "me") {
        Some(j) => j,
        None => {
            return None;
        }
    };
    let (me, j17) = match parse_me(s, n, j16) {
        Some(t) => t,
        None => {
            return None;
        }
    };
    room_tail(s, n, j17, ID::new(idstr), name, description, ID::new(ownerstr), tv as u8, me)
}

/// The frame's closing brace, with nothing but whitespace after it.
pub open spec fn frame_end_spec(s: Seq<char>, i: int) -> bool {
    match tok_spec(s, i, '}') {
        Some(j) => skip_ws_spec(s, j) == s.len(),
        None => false,
    }
}

fn frame_end(s: &str, n: usize, i: usize) -> (b: bool)
    requires
        n == s@.len(),
        i <= n,
    ensures
        b == frame_end_spec(s@, i as int),
{
    match tok(s, n, i, '}') {
        Some(j) => skip_ws(s, n, j) == n,
        None => false,
    }
}

/// What decoding an inbound frame yields: the decoded event, or the
/// protocol error that frame earns. An opcode outside `"0"`, `"2"`,
/// `"4"` is unrecognized; within opcode `"0"`, an event name outside
/// `MessageCreate` and `RoomJoin` is unrecognized; everything else
/// that fails to parse is malformed.
pub open spec fn spec_decode_frame(s: Seq<char>) -> Result<WsIncomingV, ProtocolError> {
    match tok_spec(s, 0, '{') {
        None => Err(ProtocolError::Malformed),
        Some(j0) => match field_spec(s, j0, "opcode"@) {
            None => Err(ProtocolError::Malformed),
            Some(j1) => match parse_string_spec(s, j1) {
                None => Err(ProtocolError::Malformed),
                Some((op, j2)) => if op == "2"@ {
                    if frame_end_spec(s, j2) {
                        Ok(WsIncomingV::HeartbeatAck)
                    } else {
                        Err(ProtocolError::Malformed)
                    }
                } else if op == "4"@ {
                    spec_decode_hello(s, j2)
                } else if op == "0"@ {
                    spec_decode_dispatch(s, j2)
                } else {
                    Err(ProtocolError::UnrecognizedOpcode)
                },
            },
        },
    }
}

/// The tail of a hello frame: `, "data": {"heartbeat_interval": ..}}`.
pub open spec fn spec_decode_hello(s: Seq<char>, i: int) -> Result<WsIncomingV, ProtocolError> {
    match tok_spec(s, i, ',') {
        None => Err(ProtocolError::Malformed),
        Some(j0) => match field_spec(s, j0, "data"@) {
            None => Err(ProtocolError::Malformed),
            Some(j1) => match tok_spec(s, j1, '{') {
                None => Err(ProtocolError::Malformed),
                Some(j2) => match field_spec(s, j2, "heartbeat_interval"@) {
                    None => Err(ProtocolError::Malformed),
                    Some(j3) => match parse_uint_spec(s, j3) {
                        None => Err(ProtocolError::Malformed),
                        Some((v, j4)) => match tok_spec(s, j4, '}') {
                            None => Err(ProtocolError::Malformed),
                            Some(j5) => if frame_end_spec(s, j5) {
                                Ok(WsIncomingV::Hello { data: WsHello { heartbeat_interval: v } })
                            } else {
                                Err(ProtocolError::Malformed)
                            },
                        },
                    },
                },
            },
        },
    }
}

/// The tail of a dispatch frame: `, "event_name": .., "data": ..}`.
pub open spec fn spec_decode_dispatch(s: Seq<char>, i: int) -> Result<WsIncomingV, ProtocolError> {
    match tok_spec(s, i, ',') {
        None => Err(ProtocolError::Malformed),
        Some(j0) => match field_spec(s, j0, "event_name"@) {
            None => Err(ProtocolError::Malformed),
            Some(j1) => match parse_string_spec(s, j1) {
                None => Err(ProtocolError::Malformed),
                Some((ev, j2)) => if ev == "MessageCreate"@ {
                    match tok_spec(s, j2, ',') {
                        None => Err(ProtocolError::Malformed),
                        Some(j3) => match field_spec(s, j3, "data"@) {
                            None => Err(ProtocolError::Malformed),
                            Some(j4) => match parse_message_spec(s, j4) {
                                None => Err(ProtocolError::Malformed),
                                Some((m, j5)) => if frame_end_spec(s, j5) {
                                    Ok(WsIncomingV::WsDispatch(WsDispatchV::MessageCreate { message: m }))
                                } else {
                                    Err(ProtocolError::Malformed)
                                },
                            },
                        },
                    }
                } else if ev == "RoomJoin"@ {
                    match tok_spec(s, j2, ',') {
                        None => Err(ProtocolError::Malformed),
                        Some(j3) => match field_spec(s, j3, "data"@) {
                            None => Err(ProtocolError::Malformed),
                            Some(j4) => match parse_room_spec(s, j4) {
                                None => Err(ProtocolError::Malformed),
                                Some((rm, j5)) => if frame_end_spec(s, j5) {
                                    Ok(WsIncomingV::WsDispatch(WsDispatchV::RoomJoin { room: rm }))
                                } else {
                                    Err(ProtocolError::Malformed)
                                },
                            },
                        },
                    }
                } else {
                    Err(ProtocolError::UnrecognizedEvent)
                },
            },
        },
    }
}

/// Decodes one inbound frame. The result is exactly what the
/// specification decoder yields on the frame's text: the decoded
/// event, or the protocol error that text earns.
pub fn decode_frame(s: &str) -> (r: Result<WsIncomingMessage, ProtocolError>)
    ensures
        match r {
            Ok(m) => spec_decode_frame(s@) == Ok::<WsIncomingV, ProtocolError>(m@),
            Err(e) => spec_decode_frame(s@) == Err::<WsIncomingV, ProtocolError>(e),
        },
{
    let n = s.unicode_len();
    let j0 = match tok(s, n, 0, '{') {
        Some(j) => j,
        None => {
            return Err(ProtocolError::Malformed);
        }
    };
    let j1 = match field(s, n, j0, "opcode") {
        Some(j) => j,
        None => {
            return Err(ProtocolError::Malformed);
        }
    };
    let (op, j2) = match parse_string(s, n, j1) {
        Some(t) => t,
        None => {
            return Err(ProtocolError::Malformed);
        }
    };
    if op == "2".to_owned() {
        if frame_end(s, n, j2) {
            Ok(WsIncomingMessage::HeartbeatAck)
        } else {
            Err(ProtocolError::Malformed)
        }
    } else if op == "4".to_owned() {
        decode_hello(s, n, j2)
    } else if op == "0".to_owned() {
        decode_dispatch(s, n, j2)
    } else {
        Err(ProtocolError::UnrecognizedOpcode)
    }
}

fn decode_hello(s: &str, n: usize, i: usize) -> (r: Result<WsIncomingMessage, ProtocolError>)
    requires
        n == s@.len(),
        i <= n,
    ensures
        match r {
            Ok(m) => spec_decode_hello(s@, i as int) == Ok::<WsIncomingV, ProtocolError>(m@),
            Err(e) => spec_decode_hello(s@, i as int) == Err::<WsIncomingV, ProtocolError>(e),
        },
{
    let j0 = match tok(s, n, i, ',') {
        Some(j) => j,
        None => {
            return Err(ProtocolError::Malformed);
        }
    };
    let j1 = match field(s, n, j0, "data") {
        Some(j) => j,
        None => {
            return Err(ProtocolError::Malformed);
        }
    };
    let j2 = match tok(s, n, j1, '{') {
        Some(j) => j,
        None => {
            return Err(ProtocolError::Malformed);
        }
    };
    let j3 = match field(s, n, j2, "heartbeat_interval") {
        Some(j) => j,
        None => {
            return Err(ProtocolError::Malformed);
        }
    };
    let (v, j4) = match parse_uint(s, n, j3) {
        Some(t) => t,
        None => {
            return Err(ProtocolError::Malformed);
        }
    };
    let j5 = match tok(s, n, j4, '}') {
        Some(j) => j,
        None => {
            return Err(ProtocolError::Malformed);
        }
    };
    if frame_end(s, n, j5) {
        Ok(WsIncomingMessage::Hello { data: WsHello { heartbeat_interval: v } })
    } else {
        Err(ProtocolError::Malformed)
    }
}

fn decode_dispatch(s: &str, n: usize, i: usize) -> (r: Result<WsIncomingMessage, ProtocolError>)
    requires
        n == s@.len(),
        i <= n,
    ensures
        match r {
            Ok(m) => spec_decode_dispatch(s@, i as int) == Ok::<WsIncomingV, ProtocolError>(m@),
            Err(e) => spec_decode_dispatch(s@, i as int) == Err::<WsIncomingV, ProtocolError>(e),
        },
{
    let j0 = match tok(s, n, i, ',') {
        Some(j) => j,
        None => {
            return Err(ProtocolError::Malformed);
        }
    };
    let j1 = match field(s, n, j0, "event_name") {
        Some(j) => j,
        None => {
            return Err(ProtocolError::Malformed);
        }
    };
    let (ev, j2) = match parse_string(s, n, j1) {
        Some(t) => t,
        None => {
            return Err(ProtocolError::Malformed);
        }
    };
    if ev == "MessageCreate".to_owned() {
        let j3 = match tok(s, n, j2, ',') {
            Some(j) => j,
            None => {
                return Err(ProtocolError::Malformed);
            }
        };
        let j4 = match field(s, n, j3, "data") {
            Some(j) => j,
            None => {
                return Err(ProtocolError::Malformed);
            }
        };
        let (m, j5) = match parse_message(s, n, j4) {
            Some(t) => t,
            None => {
                return Err(ProtocolError::Malformed);
            }
        };
        if frame_end(s, n, j5) {
            Ok(WsIncomingMessage::WsDispatch(WsDispatch::MessageCreate { message: m }))
        } else {
            Err(ProtocolError::Malformed)
        }
    } else if ev == "RoomJoin".to_owned() {
        let j3 = match tok(s, n, j2, ',') {
            Some(j) => j,
            None => {
                return Err(ProtocolError::Malformed);
            }
        };
        let j4 = match field(s, n, j3, "data") {
            Some(j) => j,
            None => {
                return Err(ProtocolError::Malformed);
            }
        };
        let (rm, j5) = match parse_room(s, n, j4) {
            Some(t) => t,
            None => {
                return Err(ProtocolError::Malformed);
            }
        };
        if frame_end(s, n, j5) {
            Ok(WsIncomingMessage::WsDispatch(WsDispatch::RoomJoin { room: rm }))
        } else {
            Err(ProtocolError::Malformed)
        }
    } else {
        Err(ProtocolError::UnrecognizedEvent)
    }
}

} // verus!
