//! Reaction to the control-plane lines the parent writes to stdin:
//! `$ping` is answered with `$pong`, `$shutdown` stops the client, and every
//! other line (not starting with `{`, not JSON, unknown method) is ignored.

use vstd::prelude::*;

use crate::strings::text_eq;

verus! {

/// The `$pong` reply written to stdout in response to a `$ping` (the line
/// break is added by the writer).
pub const PONG_MESSAGE: &'static str = "{\"jsonrpc\":\"2.0\",\"method\":\"$pong\"}";

/// Action to take for a single control-plane line.
#[derive(Debug, Clone, Copy, PartialEq, Eq, Structural)]
pub enum ControlAction {
    /// `$ping` received: reply with `$pong`.
    Pong,
    /// `$shutdown` received: shut down gracefully.
    Shutdown,
    /// Non-JSON line, unknown method, or anything else: ignore it.
    Ignore,
}

/// Unicode `White_Space`, the whitespace of `char::is_whitespace`.
pub open spec fn is_white_space(c: char) -> bool {
    let n = c as u32;
    ||| 9 <= n <= 13
    ||| n == 32
    ||| n == 0x85
    ||| n == 0xa0
    ||| n == 0x1680
    ||| 0x2000 <= n <= 0x200a
    ||| n == 0x2028
    ||| n == 0x2029
    ||| n == 0x202f
    ||| n == 0x205f
    ||| n == 0x3000
}

/// `s` without its leading whitespace.
pub open spec fn trim_start(s: Seq<char>) -> Seq<char>
    decreases s.len(),
{
    if s.len() > 0 && is_white_space(s[0]) {
        trim_start(s.drop_first())
    } else {
        s
    }
}

/// `s` without its trailing whitespace.
pub open spec fn trim_end(s: Seq<char>) -> Seq<char>
    decreases s.len(),
{
    if s.len() > 0 && is_white_space(s.last()) {
        trim_end(s.drop_last())
    } else {
        s
    }
}

/// `s` without leading and trailing whitespace.
pub open spec fn trimmed(s: Seq<char>) -> Seq<char> {
    trim_end(trim_start(s))
}

/// Whether `c` is Unicode whitespace.
fn is_white_space_char(c: char) -> (r: bool)
    ensures
        r == is_white_space(c),
{
    let n = c as u32;
    (9 <= n && n <= 13) || n == 32 || n == 0x85 || n == 0xa0 || n == 0x1680 || (0x2000 <= n && n
        <= 0x200a) || n == 0x2028 || n == 0x2029 || n == 0x202f || n == 0x205f || n == 0x3000
}

proof fn lemma_trim_start_skip(s: Seq<char>, k: int)
    requires
        0 <= k <= s.len(),
        forall|i: int| 0 <= i < k ==> is_white_space(#[trigger] s[i]),
    ensures
        trim_start(s) == trim_start(s.skip(k)),
    decreases k,
{
    if k == 0 {
        assert(s.skip(0) =~= s);
    } else {
        let t = s.drop_first();
        assert forall|i: int| 0 <= i < k - 1 implies is_white_space(#[trigger] t[i]) by {
            assert(t[i] == s[i + 1]);
        }
        lemma_trim_start_skip(t, k - 1);
        assert(t.skip(k - 1) =~= s.skip(k));
    }
}

proof fn lemma_trim_end_take(s: Seq<char>, e: int)
    requires
        0 <= e <= s.len(),
        forall|i: int| e <= i < s.len() ==> is_white_space(#[trigger] s[i]),
    ensures
        trim_end(s) == trim_end(s.take(e)),
    decreases s.len(),
{
    if e == s.len() {
        assert(s.take(e) =~= s);
    } else {
        let t = s.drop_last();
        assert(is_white_space(s[s.len() - 1]));
        assert forall|i: int| e <= i < t.len() implies is_white_space(#[trigger] t[i]) by {
            assert(t[i] == s[i]);
        }
        lemma_trim_end_take(t, e);
        assert(t.take(e) =~= s.take(e));
    }
}

/// The text with leading and trailing Unicode whitespace removed, as
/// `str::trim` gives it.
fn trim_whitespace<'a>(s: &'a str) -> (r: &'a str)
    ensures
        r@ == trimmed(s@),
{
    let n = s.unicode_len();
    let mut start: usize = 0;
    while start < n && is_white_space_char(s.get_char(start))
        invariant
            n == s@.len(),
            start <= n,
            forall|i: int| 0 <= i < start ==> is_white_space(#[trigger] s@[i]),
        decreases n - start,
    {
        start = start + 1;
    }
    let mut end: usize = n;
    while end > start && is_white_space_char(s.get_char(end - 1))
        invariant
            n == s@.len(),
            start <= end <= n,
            forall|i: int| end <= i < n ==> is_white_space(#[trigger] s@[i]),
        decreases end,
    {
        end = end - 1;
    }
    proof {
        lemma_trim_start_skip(s@, start as int);
        let t = s@.skip(start as int);
        if start < n {
            assert(!is_white_space(s@[start as int]));
            assert(t[0] == s@[start as int]);
        }
        assert(trim_start(t) == t);
        assert forall|i: int| end - start <= i < t.len() implies is_white_space(#[trigger] t[i]) by {
            assert(t[i] == s@[i + start]);
        }
        lemma_trim_end_take(t, end - start);
        let u = t.take(end - start);
        if end > start {
            assert(u[u.len() - 1] == s@[end - 1]);
            assert(!is_white_space(s@[end - 1]));
        }
        assert(trim_end(u) == u);
        assert(u =~= s@.subrange(start as int, end as int));
    }
    s.substring_char(start, end)
}

/// What parsing `text` as JSON and reading the string member `key` gives:
/// `Some` of the member's text when `text` is one JSON value, that value is
/// an object, and its member `key` is a JSON string; `None` otherwise.
pub uninterp spec fn json_string_member(text: Seq<char>, key: Seq<char>) -> Option<Seq<char>>;

/// `serde_json::from_str` into a `serde_json::Value`, then `Value::get` of
/// `key` and `Value::as_str` of the member: the text of the string member
/// `key` of the JSON object `text`, if there is one. A parse error gives
/// `None`. The result is a function of `text` and `key` alone.
#[verifier::external_body]
fn json_member_text(text: &str, key: &str) -> (r: Option<String>)
    ensures
        match r {
            Some(m) => json_string_member(text@, key@) == Some(m@),
            None => json_string_member(text@, key@) is None,
        },
{
    let value: serde_json::Value = match serde_json::from_str(text) {
        Ok(v) => v,
        Err(_) => return None,
    };
    match value.get(key) {
        Some(member) => member.as_str().map(String::from),
        None => None,
    }
}

/// The action a `method` member asks for.
pub open spec fn method_action(method: Option<Seq<char>>) -> ControlAction {
    match method {
        Some(m) => if m == "$ping"@ {
            ControlAction::Pong
        } else if m == "$shutdown"@ {
            ControlAction::Shutdown
        } else {
            ControlAction::Ignore
        },
        None => ControlAction::Ignore,
    }
}

/// The action for one line: a line whose trimmed text does not start with
/// `{` is ignored; otherwise the `method` member of the JSON decides.
pub open spec fn line_action(line: Seq<char>) -> ControlAction {
    let t = trimmed(line);
    if t.len() == 0 || t[0] != '{' {
        ControlAction::Ignore
    } else {
        method_action(json_string_member(t, "method"@))
    }
}

/// The action for the `method` member of a control message (`None` when
/// the message has no string member `method`).
pub fn action_for_method(method: Option<&str>) -> (r: ControlAction)
    ensures
        r == method_action(
            match method {
                Some(m) => Some(m@),
                None => None,
            },
        ),
{
    match method {
        Some(m) => {
            if text_eq(m, "$ping") {
                ControlAction::Pong
            } else if text_eq(m, "$shutdown") {
                ControlAction::Shutdown
            } else {
                ControlAction::Ignore
            }
        },
        None => ControlAction::Ignore,
    }
}

/// Parse a single control-plane line into the action it asks for.
pub fn parse_control_line(line: &str) -> (r: ControlAction)
    ensures
        r == line_action(line@),
{
    let t = trim_whitespace(line);
    if t.unicode_len() == 0 || t.get_char(0) != '{' {
        return ControlAction::Ignore;
    }
    let method = json_member_text(t, "method");
    match method {
        Some(m) => action_for_method(Some(m.as_str())),
        None => action_for_method(None),
    }
}

} // verus!
