//! The decision parser: turns the oracle's free-form text into the
//! structured triple (action kind, integer value, rationale).
//!
//! The text grammar is comma-separated `key: value` segments in any
//! order; a bare integer segment is accepted as the value.  Parsing is
//! tolerant: unknown or missing keys never fail, and `parse_safe`
//! substitutes a fixed safe fallback whenever the action kind is not on
//! the allow-list, so the oracle can never block the agent loop.

use vstd::prelude::*;
use vstd::string::*;
use crate::errors::{ErrorS, ErrorType};
use crate::text::{
    chars_vec, contains_spec, eq_lower_at, lower_spec, parse_i32_at, parse_i32_spec,
    starts_with_at, starts_with_spec, trim_bounds, trim_spec,
};

verus! {

pub struct ResponseParser;

/// One segment folded into the accumulated (action, value, reason).
/// Key segments overwrite; an unparsable `value:` is ignored; a bare
/// integer counts as the value only while the value is still 0.
pub open spec fn apply_segment(
    acc: (Seq<char>, i32, Seq<char>),
    seg: Seq<char>,
) -> (Seq<char>, i32, Seq<char>) {
    let p = trim_spec(seg);
    if starts_with_spec(p, "action:"@) {
        (trim_spec(p.skip(7)), acc.1, acc.2)
    } else if starts_with_spec(p, "value:"@) {
        match parse_i32_spec(trim_spec(p.skip(6))) {
            Some(v) => (acc.0, v, acc.2),
            None => acc,
        }
    } else if starts_with_spec(p, "reason:"@) {
        (acc.0, acc.1, trim_spec(p.skip(7)))
    } else {
        match parse_i32_spec(p) {
            Some(v) => if acc.1 == 0 {
                (acc.0, v, acc.2)
            } else {
                acc
            },
            None => acc,
        }
    }
}

/// Left-to-right fold over the comma-separated segments of `s`, with
/// `seg` the (reversed-free) segment collected so far.
pub open spec fn parse_chars(
    s: Seq<char>,
    seg: Seq<char>,
    acc: (Seq<char>, i32, Seq<char>),
) -> (Seq<char>, i32, Seq<char>)
    decreases s.len(),
{
    if s.len() == 0 {
        apply_segment(acc, seg)
    } else if s[0] == ',' {
        parse_chars(s.drop_first(), Seq::empty(), apply_segment(acc, seg))
    } else {
        parse_chars(s.drop_first(), seg.push(s[0]), acc)
    }
}

/// What the tolerant text parser returns for `s`: the fold over all
/// segments, then the documented defaults for missing fields.
pub open spec fn parse_decision_spec(s: Seq<char>) -> (Seq<char>, i32, Seq<char>) {
    let t = parse_chars(trim_spec(s), Seq::empty(), (Seq::<char>::empty(), 0i32, Seq::<char>::empty()));
    let action = if t.0.len() == 0 {
        "unknown"@
    } else {
        t.0
    };
    let reason = if t.2.len() == 0 {
        "No reason provided"@
    } else {
        t.2
    };
    (action, t.1, reason)
}

/// The decision fields of `s` when it parses as a JSON object: the
/// `action` and `reason` strings and the `value` integer, each absent
/// when missing or of the wrong type; `None` when `s` is not JSON.
pub uninterp spec fn json_decision_of(s: Seq<char>) -> Option<
    (Option<Seq<char>>, Option<i64>, Option<Seq<char>>),
>;

/// What the JSON entry point returns once the fields are defaulted.
pub open spec fn parse_json_spec(s: Seq<char>) -> Option<(Seq<char>, i32, Seq<char>)> {
    match json_decision_of(s) {
        Some((a, v, rs)) => Some(
            (
                match a {
                    Some(x) => x,
                    None => "unknown"@,
                },
                match v {
                    Some(x) => if -2147483648 <= x <= 2147483647 {
                        x as i32
                    } else {
                        0
                    },
                    None => 0,
                },
                match rs {
                    Some(x) => x,
                    None => "No reason provided"@,
                },
            ),
        ),
        None => None,
    }
}

/// A response is treated as JSON when its trimmed form is braced.
pub open spec fn is_jsonish(s: Seq<char>) -> bool {
    let t = trim_spec(s);
    t.len() > 0 && t[0] == '{' && t.last() == '}'
}

/// The allow-list of action kinds, compared case-insensitively.
pub open spec fn valid_kind(s: Seq<char>) -> bool {
    ||| lower_spec(s) == "click"@
    ||| lower_spec(s) == "scroll"@
    ||| lower_spec(s) == "extract"@
    ||| lower_spec(s) == "navigate"@
    ||| lower_spec(s) == "wait"@
    ||| lower_spec(s) == "screenshot"@
}

/// What `parse_safe` returns: the parsed triple when its action kind is
/// allowed, otherwise the fixed safe fallback.
pub open spec fn parse_safe_spec(s: Seq<char>) -> (Seq<char>, i32, Seq<char>) {
    let parsed = if is_jsonish(s) {
        parse_json_spec(trim_spec(s))
    } else {
        Some(parse_decision_spec(s))
    };
    match parsed {
        Some(t) => if valid_kind(t.0) {
            t
        } else {
            ("scroll"@, 500, "기본 스크롤 액션"@)
        },
        None => ("scroll"@, 500, "파싱 실패로 인한 기본 액션"@),
    }
}

/// Relies on serde_json: `from_str::<Value>` parses the text, and the
/// `get`, `as_str` and `as_i64` accessors of `serde_json::Value` read
/// the three decision fields; the result is a function of the text
/// alone, named `json_decision_of`.
#[verifier::external_body]
fn json_decision_fields(s: &str) -> (r: Option<(Option<String>, Option<i64>, Option<String>)>)
    ensures
        match (r, json_decision_of(s@)) {
            (Some(t), Some(u)) => {
                &&& match (t.0, u.0) {
                    (Some(x), Some(y)) => x@ == y,
                    (None, None) => true,
                    _ => false,
                }
                &&& t.1 == u.1
                &&& match (t.2, u.2) {
                    (Some(x), Some(y)) => x@ == y,
                    (None, None) => true,
                    _ => false,
                }
            },
            (None, None) => true,
            _ => false,
        },
{
    match serde_json::from_str::<serde_json::Value>(s) {
        Ok(j) => Some(
            (
                j.get("action").and_then(|x| x.as_str()).map(|x| x.to_string()),
                j.get("value").and_then(|x| x.as_i64()),
                j.get("reason").and_then(|x| x.as_str()).map(|x| x.to_string()),
            ),
        ),
        Err(_) => None,
    }
}

fn apply_segment_exec(
    s: &str,
    v: &Vec<char>,
    from: usize,
    to: usize,
    action: &mut String,
    value: &mut i32,
    reason: &mut String,
)
    requires
        s@ == v@,
        from <= to <= v@.len(),
    ensures
        (final(action)@, *final(value), final(reason)@) == apply_segment(
            (old(action)@, *old(value), old(reason)@),
            v@.subrange(from as int, to as int),
        ),
{
    proof {
        reveal_strlit("action:");
        reveal_strlit("value:");
        reveal_strlit("reason:");
    }
    let ghost seg = v@.subrange(from as int, to as int);
    let (lo, hi) = trim_bounds(v, from, to);
    let ghost p = v@.subrange(lo as int, hi as int);
    let pat_action = chars_vec("action:");
    let pat_value = chars_vec("value:");
    let pat_reason = chars_vec("reason:");
    if starts_with_at(v, lo, hi, &pat_action) {
        let (alo, ahi) = trim_bounds(v, lo + 7, hi);
        proof {
            assert(p.skip(7) =~= v@.subrange(lo + 7, hi as int));
        }
        *action = s.substring_char(alo, ahi).to_owned();
    } else if starts_with_at(v, lo, hi, &pat_value) {
        let (vlo, vhi) = trim_bounds(v, lo + 6, hi);
        proof {
            assert(p.skip(6) =~= v@.subrange(lo + 6, hi as int));
        }
        match parse_i32_at(v, vlo, vhi) {
            Some(n) => {
                *value = n;
            },
            None => {},
        }
    } else if starts_with_at(v, lo, hi, &pat_reason) {
        let (rlo, rhi) = trim_bounds(v, lo + 7, hi);
        proof {
            assert(p.skip(7) =~= v@.subrange(lo + 7, hi as int));
        }
        *reason = s.substring_char(rlo, rhi).to_owned();
    } else {
        match parse_i32_at(v, lo, hi) {
            Some(n) => {
                if *value == 0 {
                    *value = n;
                }
            },
            None => {},
        }
    }
}

impl ResponseParser {
    /// Tolerant text parsing of an oracle response into
    /// (action, value, reason).  Never fails: missing fields get the
    /// documented defaults.
    pub fn parse_action_response(response: &str) -> (r: Result<(String, i32, String), ErrorS>)
        ensures
            r is Ok,
            ({
                let t = parse_decision_spec(response@);
                let ok = r->Ok_0;
                ok.0@ == t.0 && ok.1 == t.1 && ok.2@ == t.2
            }),
    {
        let v = chars_vec(response);
        let (lo0, hi0) = trim_bounds(&v, 0, v.len());
        proof {
            assert(v@.subrange(0, v@.len() as int) =~= v@);
        }
        let ghost goal = parse_chars(
            trim_spec(response@),
            Seq::empty(),
            (Seq::<char>::empty(), 0i32, Seq::<char>::empty()),
        );
        let mut action = String::new();
        let mut value: i32 = 0;
        let mut reason = String::new();
        let mut segstart: usize = lo0;
        let mut i: usize = lo0;
        proof {
            assert(v@.subrange(lo0 as int, lo0 as int) =~= Seq::<char>::empty());
        }
        while i < hi0
            invariant
                response@ == v@,
                lo0 <= segstart <= i <= hi0 <= v@.len(),
                v@.subrange(lo0 as int, hi0 as int) == trim_spec(response@),
                parse_chars(
                    v@.subrange(i as int, hi0 as int),
                    v@.subrange(segstart as int, i as int),
                    (action@, value, reason@),
                ) == goal,
            decreases hi0 - i,
        {
            let ghost rem = v@.subrange(i as int, hi0 as int);
            if v[i] == ',' {
                proof {
                    assert(rem[0] == ',');
                    assert(rem.drop_first() =~= v@.subrange(i + 1, hi0 as int));
                    assert(v@.subrange(i + 1, i + 1) =~= Seq::<char>::empty());
                }
                apply_segment_exec(response, &v, segstart, i, &mut action, &mut value, &mut reason);
                segstart = i + 1;
            } else {
                proof {
                    assert(rem[0] == v@[i as int] && rem[0] != ',');
                    assert(rem.drop_first() =~= v@.subrange(i + 1, hi0 as int));
                    assert(v@.subrange(segstart as int, i + 1) =~= v@.subrange(
                        segstart as int,
                        i as int,
                    ).push(v@[i as int]));
                }
            }
            i = i + 1;
        }
        proof {
            assert(v@.subrange(hi0 as int, hi0 as int) =~= Seq::<char>::empty());
        }
        apply_segment_exec(response, &v, segstart, hi0, &mut action, &mut value, &mut reason);
        if action.as_str().is_empty() {
            action = String::from_str("unknown");
        }
        if reason.as_str().is_empty() {
            reason = String::from_str("No reason provided");
        }
        Ok((action, value, reason))
    }

    /// JSON parsing of an oracle response with the same defaulting
    /// rules; fails only when the text is not valid JSON.
    pub fn parse_json_response(json_str: &str) -> (r: Result<(String, i32, String), ErrorS>)
        ensures
            match parse_json_spec(json_str@) {
                Some(t) => r is Ok && r->Ok_0.0@ == t.0 && r->Ok_0.1 == t.1 && r->Ok_0.2@ == t.2,
                None => r is Err && r->Err_0.kind() == ErrorType::Data,
            },
    {
        match json_decision_fields(json_str) {
            Some((a, n, rs)) => {
                let action = match a {
                    Some(x) => x,
                    None => String::from_str("unknown"),
                };
                let value: i32 = match n {
                    Some(x) => {
                        if -2147483648 <= x && x <= 2147483647 {
                            x as i32
                        } else {
                            0
                        }
                    },
                    None => 0,
                };
                let reason = match rs {
                    Some(x) => x,
                    None => String::from_str("No reason provided"),
                };
                Ok((action, value, reason))
            },
            None => Err(
                ErrorS::data(
                    String::from_str("ResponseParser::parse_json_response"),
                    String::from_str("JSON parse error"),
                ),
            ),
        }
    }

    /// Auto-detecting entry point: braced input goes through the JSON
    /// parser, anything else through the tolerant text parser.
    pub fn parse_auto(response: &str) -> (r: Result<(String, i32, String), ErrorS>)
        ensures
            is_jsonish(response@) ==> match parse_json_spec(trim_spec(response@)) {
                Some(t) => r is Ok && r->Ok_0.0@ == t.0 && r->Ok_0.1 == t.1 && r->Ok_0.2@ == t.2,
                None => r is Err && r->Err_0.kind() == ErrorType::Data,
            },
            !is_jsonish(response@) ==> {
                let t = parse_decision_spec(response@);
                r is Ok && r->Ok_0.0@ == t.0 && r->Ok_0.1 == t.1 && r->Ok_0.2@ == t.2
            },
    {
        let v = chars_vec(response);
        let (lo0, hi0) = trim_bounds(&v, 0, v.len());
        proof {
            assert(v@.subrange(0, v@.len() as int) =~= v@);
        }
        if lo0 < hi0 && v[lo0] == '{' && v[hi0 - 1] == '}' {
            assert(trim_spec(response@)[0] == '{');
            assert(trim_spec(response@).last() == '}');
            let trimmed = response.substring_char(lo0, hi0);
            Self::parse_json_response(trimmed)
        } else {
            assert(!is_jsonish(response@)) by {
                let t = v@.subrange(lo0 as int, hi0 as int);
                if t.len() > 0 {
                    assert(t[0] == v@[lo0 as int]);
                    assert(t.last() == v@[hi0 - 1]);
                }
            }
            Self::parse_action_response(response)
        }
    }

    /// True exactly for the fixed allow-list of browser action kinds,
    /// case-insensitively.
    pub fn validate_action(action: &str) -> (r: bool)
        ensures
            r == valid_kind(action@),
    {
        proof {
            reveal_strlit("click");
            reveal_strlit("scroll");
            reveal_strlit("extract");
            reveal_strlit("navigate");
            reveal_strlit("wait");
            reveal_strlit("screenshot");
        }
        let v = chars_vec(action);
        let n = v.len();
        let r = eq_lower_at(&v, 0, n, &chars_vec("click")) || eq_lower_at(
            &v,
            0,
            n,
            &chars_vec("scroll"),
        ) || eq_lower_at(&v, 0, n, &chars_vec("extract")) || eq_lower_at(
            &v,
            0,
            n,
            &chars_vec("navigate"),
        ) || eq_lower_at(&v, 0, n, &chars_vec("wait")) || eq_lower_at(
            &v,
            0,
            n,
            &chars_vec("screenshot"),
        );
        proof {
            assert(v@.subrange(0, n as int) =~= action@);
            assert(lower_spec("click"@) =~= "click"@);
            assert(lower_spec("scroll"@) =~= "scroll"@);
            assert(lower_spec("extract"@) =~= "extract"@);
            assert(lower_spec("navigate"@) =~= "navigate"@);
            assert(lower_spec("wait"@) =~= "wait"@);
            assert(lower_spec("screenshot"@) =~= "screenshot"@);
        }
        r
    }

    /// The always-succeeding parse: the parsed triple when its action
    /// kind passes validation, otherwise the fixed safe fallback
    /// (scroll by 500).  This is the loop's only unconditional path.
    pub fn parse_safe(response: &str) -> (r: (String, i32, String))
        ensures
            ({
                let t = parse_safe_spec(response@);
                r.0@ == t.0 && r.1 == t.1 && r.2@ == t.2
            }),
    {
        match Self::parse_auto(response) {
            Ok((action, value, reason)) => {
                if Self::validate_action(action.as_str()) {
                    (action, value, reason)
                } else {
                    (String::from_str("scroll"), 500, String::from_str("기본 스크롤 액션"))
                }
            },
            Err(_) => {
                (String::from_str("scroll"), 500, String::from_str("파싱 실패로 인한 기본 액션"))
            },
        }
    }
}

} // verus!
