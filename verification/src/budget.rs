use vstd::prelude::*;
use vstd::utf8::encode_utf8;

use crate::json::{has_member, json_has_member, json_str_member, str_member};

verus! {

/// `a + b`, held at `usize::MAX`.
pub open spec fn sat(a: int, b: int) -> int {
    if a + b > usize::MAX {
        usize::MAX as int
    } else {
        a + b
    }
}

/// What a captured tool output says about its streams: for each of `stdout`
/// and `stderr`, whether the member is present, and the byte length of its
/// value when that is a string.
#[derive(Clone, Copy, Debug, PartialEq, Eq, Structural)]
pub struct StreamFields {
    pub has_stdout: bool,
    pub stdout: Option<usize>,
    pub has_stderr: bool,
    pub stderr: Option<usize>,
}

/// The byte length of a string member, when there is one.
pub open spec fn member_bytes(raw: Seq<char>, key: Seq<char>) -> Option<usize> {
    match json_str_member(raw, key) {
        Some(s) => Some(encode_utf8(s).len() as usize),
        None => None,
    }
}

/// The stream fields of a stored output, as serde_json reads it (`None`
/// when the text is not JSON).
pub open spec fn stream_fields_of(raw: Seq<char>) -> Option<StreamFields> {
    match json_has_member(raw, "stdout"@) {
        None => None,
        Some(hs) => Some(
            StreamFields {
                has_stdout: hs,
                stdout: member_bytes(raw, "stdout"@),
                has_stderr: json_has_member(raw, "stderr"@) == Some(true),
                stderr: member_bytes(raw, "stderr"@),
            },
        ),
    }
}

/// The output bytes counted for a text of `bytes` bytes whose stream fields
/// are `fields`: with a `stdout` or `stderr` member, the bytes of those that
/// are strings, added up and held at `usize::MAX`; otherwise the whole text.
pub open spec fn captured_from_spec(bytes: int, fields: Option<StreamFields>) -> int {
    match fields {
        Some(f) => if f.has_stdout || f.has_stderr {
            sat(
                match f.stdout {
                    Some(n) => n as int,
                    None => 0,
                },
                match f.stderr {
                    Some(n) => n as int,
                    None => 0,
                },
            )
        } else {
            bytes
        },
        None => bytes,
    }
}

/// How many bytes of output a stored tool result holds: for JSON with a
/// `stdout` or `stderr` member, the bytes of those that are strings;
/// otherwise the bytes of the whole text.
pub open spec fn captured_spec(output: Seq<char>) -> int {
    captured_from_spec(encode_utf8(output).len() as int, stream_fields_of(output))
}

/// The output bytes counted for a text of `bytes` bytes, given what its JSON
/// says about its streams (`None` when it is not JSON).
pub fn captured_from(bytes: usize, fields: Option<StreamFields>) -> (r: usize)
    ensures
        r == captured_from_spec(bytes as int, fields),
{
    match fields {
        Some(f) => {
            if f.has_stdout || f.has_stderr {
                let out = match f.stdout {
                    Some(n) => n,
                    None => 0,
                };
                let err = match f.stderr {
                    Some(n) => n,
                    None => 0,
                };
                out.saturating_add(err)
            } else {
                bytes
            }
        },
        None => bytes,
    }
}

/// The byte length of the string member `key` of a JSON text, if any.
fn member_len(output: &str, key: &str) -> (r: Option<usize>)
    ensures
        r == member_bytes(output@, key@),
{
    match str_member(output, key) {
        Some(s) => Some(s.as_str().as_bytes().len()),
        None => None,
    }
}

/// The output bytes a stored tool result holds.
pub fn captured(output: &str) -> (r: usize)
    ensures
        r == captured_spec(output@),
{
    let fields = match has_member(output, "stdout") {
        None => None,
        Some(hs) => Some(
            StreamFields {
                has_stdout: hs,
                stdout: member_len(output, "stdout"),
                has_stderr: matches!(has_member(output, "stderr"), Some(true)),
                stderr: member_len(output, "stderr"),
            },
        ),
    };
    captured_from(output.as_bytes().len(), fields)
}

/// A stored tool result: its output, or the error it failed with.
#[derive(Clone, Debug)]
pub struct Held {
    pub output: Option<String>,
    pub error: Option<String>,
}

/// What a strand has spent of its tool budget: calls made and output bytes held.
#[derive(Clone, Copy, Debug, PartialEq, Eq, Structural)]
pub struct Usage {
    pub calls: usize,
    pub output: usize,
}

/// The bytes one result holds: its captured output, else its error text.
pub open spec fn held_bytes(h: Held) -> int {
    match h.output {
        Some(o) => captured_spec(o@),
        None => match h.error {
            Some(e) => encode_utf8(e@).len() as int,
            None => 0,
        },
    }
}

/// The bytes the first `n` results hold, added up and held at `usize::MAX`.
pub open spec fn held_total(results: Seq<Held>, n: int) -> int
    decreases n,
{
    if n <= 0 {
        0
    } else {
        sat(held_total(results, n - 1), held_bytes(results[n - 1]))
    }
}

/// What a strand has spent: `calls` tool calls counted by the store, and the
/// output its tool results hold.
pub fn spent(calls: i64, results: &Vec<Held>) -> (r: Usage)
    ensures
        r.calls == (if calls < 0 {
            usize::MAX as int
        } else if calls > usize::MAX {
            usize::MAX as int
        } else {
            calls as int
        }),
        r.output == held_total(results@, results@.len() as int),
{
    let mut held: usize = 0;
    let mut i: usize = 0;
    while i < results.len()
        invariant
            i <= results@.len(),
            held == held_total(results@, i as int),
        decreases results.len() - i,
    {
        let bytes = match &results[i].output {
            Some(o) => captured(o.as_str()),
            None => match &results[i].error {
                Some(e) => e.as_str().as_bytes().len(),
                None => 0,
            },
        };
        held = held.saturating_add(bytes);
        i = i + 1;
    }
    let calls = if calls < 0 {
        usize::MAX
    } else if calls as u64 > usize::MAX as u64 {
        usize::MAX
    } else {
        calls as usize
    };
    Usage { calls, output: held }
}

} // verus!
