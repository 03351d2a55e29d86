//! Finding a session by its traces: the identifier in a line of the agent's
//! start-up log, and the rollout file that the agent wrote for a session.

use vstd::prelude::*;
use vstd::string::*;
use crate::text::chars_of;

verus! {

/// Whether `pattern` stands in `text` at position `at`.
pub open spec fn has_at(text: Seq<char>, at: int, pattern: Seq<char>) -> bool {
    0 <= at && at + pattern.len() <= text.len() && text.subrange(at, at + pattern.len())
        == pattern
}

/// A lower-case hexadecimal digit.
pub open spec fn is_hex(c: char) -> bool {
    let n: u32 = c as u32;
    (0x30 <= n && n <= 0x39) || (0x61 <= n && n <= 0x66)
}

/// Whether `c` may stand at position `k` of a session identifier: a hyphen
/// after the groups of 8, 4, 4 and 4 digits, a digit elsewhere.
pub open spec fn id_char_ok(k: int, c: char) -> bool {
    if k == 8 || k == 13 || k == 18 || k == 23 {
        c == '-'
    } else {
        is_hex(c)
    }
}

/// A session identifier: 36 characters, hexadecimal digits in groups of
/// 8, 4, 4, 4 and 12, with hyphens between the groups.
pub open spec fn is_session_id(s: Seq<char>) -> bool {
    s.len() == 36 && forall|k: int| 0 <= k < 36 ==> id_char_ok(k, #[trigger] s[k])
}

/// The text that announces a session identifier in a log line.
pub open spec fn id_marker() -> Seq<char> {
    "session_id: "@
}

/// The 36 characters that follow a marker at `at`.
pub open spec fn id_after(line: Seq<char>, at: int) -> Seq<char> {
    line.subrange(at + id_marker().len(), at + id_marker().len() + 36)
}

/// Whether the marker stands at `at` and a session identifier follows it.
pub open spec fn session_id_at(line: Seq<char>, at: int) -> bool {
    has_at(line, at, id_marker()) && at + id_marker().len() + 36 <= line.len() && is_session_id(
        id_after(line, at),
    )
}

/// Whether a file name is that of the rollout file of a session: it begins
/// with `rollout-` and ends with a hyphen, the session identifier and
/// `.jsonl`.
pub open spec fn is_rollout_name(name: Seq<char>, session_id: Seq<char>) -> bool {
    let tail = "-"@ + session_id + ".jsonl"@;
    has_at(name, 0, "rollout-"@) && has_at(name, name.len() - tail.len(), tail)
}

/// The message for a session without a rollout file.
pub open spec fn rollout_not_found(session_id: Seq<char>) -> Seq<char> {
    "Could not find rollout file for session_id: "@ + session_id
}

fn matches_at(text: &Vec<char>, at: usize, pattern: &Vec<char>) -> (r: bool)
    requires
        at + pattern@.len() <= text@.len(),
    ensures
        r == has_at(text@, at as int, pattern@),
{
    let n: usize = pattern.len();
    let len: usize = text.len();
    let mut k: usize = 0;
    while k < n
        invariant
            k <= n,
            n == pattern@.len(),
            at + n <= text@.len() == len,
            forall|j: int| 0 <= j < k ==> text@[at + j] == pattern@[j],
        decreases n - k,
    {
        if text[at + k] != pattern[k] {
            return false;
        }
        k += 1;
    }
    assert(text@.subrange(at as int, at + n) =~= pattern@);
    true
}

fn is_hex_char(c: char) -> (r: bool)
    ensures
        r == is_hex(c),
{
    let n: u32 = c as u32;
    (0x30 <= n && n <= 0x39) || (0x61 <= n && n <= 0x66)
}

fn is_session_id_at(text: &Vec<char>, at: usize) -> (r: bool)
    requires
        at + 36 <= text@.len(),
    ensures
        r == is_session_id(text@.subrange(at as int, at + 36)),
{
    let ghost id = text@.subrange(at as int, at + 36);
    let len: usize = text.len();
    let mut k: usize = 0;
    while k < 36
        invariant
            k <= 36,
            at + 36 <= text@.len() == len,
            id == text@.subrange(at as int, at + 36),
            forall|j: int| 0 <= j < k ==> id_char_ok(j, #[trigger] id[j]),
        decreases 36 - k,
    {
        let c = text[at + k];
        let ok = if k == 8 || k == 13 || k == 18 || k == 23 {
            c == '-'
        } else {
            is_hex_char(c)
        };
        if !ok {
            assert(!id_char_ok(k as int, id[k as int]));
            return false;
        }
        k += 1;
    }
    true
}

/// Finds the session identifier in a line of free text: the identifier that
/// follows the leftmost `session_id: ` that one follows. `None` exactly
/// where the line holds no such place.
pub fn extract_session_id_from_line(line: &str) -> (r: Option<String>)
    ensures
        match r {
            Some(id) => exists|at: int|
                {
                    &&& #[trigger] session_id_at(line@, at)
                    &&& forall|j: int| 0 <= j < at ==> !session_id_at(line@, j)
                    &&& id@ == id_after(line@, at)
                },
            None => forall|at: int| !session_id_at(line@, at),
        },
{
    proof {
        reveal_strlit("session_id: ");
    }
    let chars = chars_of(line);
    let marker = chars_of("session_id: ");
    let n: usize = chars.len();
    if n < 48 {
        return None;
    }
    let mut at: usize = 0;
    while at <= n - 48
        invariant
            chars@ == line@,
            marker@ == id_marker(),
            n == line@.len(),
            n >= 48,
            at <= n - 47,
            id_marker().len() == 12,
            forall|j: int| 0 <= j < at ==> !session_id_at(line@, j),
        decreases n - at,
    {
        if matches_at(&chars, at, &marker) && is_session_id_at(&chars, at + 12) {
            let id = String::from_str(line.substring_char(at + 12, at + 48));
            assert(session_id_at(line@, at as int));
            return Some(id);
        }
        at += 1;
    }
    None
}

/// Picks the rollout file of a session from the names of the files that
/// stand under the agent's sessions directory: the position of the first
/// name that is a rollout name for the session. Where no name is one, the
/// error says that the session's rollout file could not be found.
pub fn find_rollout_file_path(session_id: &str, names: &Vec<String>) -> (r: Result<usize, String>)
    ensures
        match r {
            Ok(found) => {
                &&& found < names@.len()
                &&& is_rollout_name(names@[found as int]@, session_id@)
                &&& forall|j: int|
                    0 <= j < found ==> !is_rollout_name(#[trigger] names@[j]@, session_id@)
            },
            Err(message) => {
                &&& message@ == rollout_not_found(session_id@)
                &&& forall|j: int|
                    0 <= j < names@.len() ==> !is_rollout_name(#[trigger] names@[j]@, session_id@)
            },
        },
{
    let head = chars_of("rollout-");
    let tail = chars_of(String::from_str("-").concat(session_id).concat(".jsonl").as_str());
    let mut i: usize = 0;
    while i < names.len()
        invariant
            i <= names@.len(),
            head@ == "rollout-"@,
            tail@ == "-"@ + session_id@ + ".jsonl"@,
            forall|j: int| 0 <= j < i ==> !is_rollout_name(#[trigger] names@[j]@, session_id@),
        decreases names.len() - i,
    {
        let name = chars_of(names[i].as_str());
        if name.len() >= head.len() && name.len() >= tail.len() {
            if matches_at(&name, 0, &head) && matches_at(&name, name.len() - tail.len(), &tail) {
                return Ok(i);
            }
        }
        i += 1;
    }
    Err(String::from_str("Could not find rollout file for session_id: ").concat(session_id))
}

} // verus!
