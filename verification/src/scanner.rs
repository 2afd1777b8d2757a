//! Protocol message scanner.
//!
//! Connector output is a stream of newline-delimited text: JSON protocol
//! messages interleaved with free-form log noise. A message is recognized
//! solely by its `"type"` marker; the marker may start anywhere within a
//! line, and whitespace around the `:` and the tag may vary between
//! connector implementations. The scanner finds the first line carrying the
//! sought marker and slices that line from the marker's position, so that
//! the remainder can be read as the message's JSON payload. A stream that
//! ends without a match is a protocol violation, never an empty result.

use crate::text::{is_ws, lemma_skip_ws_bounds, lines_of, skip_ws, split_lines, ws_end};
use vstd::prelude::*;
use vstd::string::StrSliceExecFns;

verus! {

/// The six recognized protocol message kinds.
#[derive(Debug, Clone, Copy, PartialEq, Eq, Structural)]
pub enum MessageKind {
    Spec,
    ConnectionStatus,
    Catalog,
    Record,
    Log,
    State,
}

/// The tag that names `k` in a message's `"type"` field.
pub open spec fn kind_token(k: MessageKind) -> Seq<char> {
    match k {
        MessageKind::Spec => "SPEC"@,
        MessageKind::ConnectionStatus => "CONNECTION_STATUS"@,
        MessageKind::Catalog => "CATALOG"@,
        MessageKind::Record => "RECORD"@,
        MessageKind::Log => "LOG"@,
        MessageKind::State => "STATE"@,
    }
}

impl MessageKind {
    /// The tag as text.
    pub fn token(&self) -> (s: &'static str)
        ensures
            s@ == kind_token(*self),
    {
        match self {
            MessageKind::Spec => "SPEC",
            MessageKind::ConnectionStatus => "CONNECTION_STATUS",
            MessageKind::Catalog => "CATALOG",
            MessageKind::Record => "RECORD",
            MessageKind::Log => "LOG",
            MessageKind::State => "STATE",
        }
    }
}

/// The opening of a tagged protocol object: `{"type"`.
pub open spec fn type_prefix() -> Seq<char> {
    seq!['{', '"', 't', 'y', 'p', 'e', '"']
}

/// A tolerant marker match at position `i` of `line`: the text `{"type"`,
/// optional whitespace, `:`, optional whitespace, the quoted tag `tok`,
/// optional whitespace, and a `,`.
pub open spec fn marker_at(line: Seq<char>, tok: Seq<char>, i: int) -> bool {
    &&& 0 <= i
    &&& i + 7 <= line.len()
    &&& line.subrange(i, i + 7) == type_prefix()
    &&& {
        let j = skip_ws(line, i + 7);
        &&& j < line.len()
        &&& line[j] == ':'
        &&& {
            let k = skip_ws(line, j + 1);
            &&& k + tok.len() + 2 <= line.len()
            &&& line[k] == '"'
            &&& line.subrange(k + 1, k + 1 + tok.len()) == tok
            &&& line[k + 1 + tok.len()] == '"'
            &&& {
                let m = skip_ws(line, k + 2 + tok.len());
                &&& m < line.len()
                &&& line[m] == ','
            }
        }
    }
}

/// Whether some position of `line` carries the marker for `tok`.
pub open spec fn line_matches(line: Seq<char>, tok: Seq<char>) -> bool {
    exists|i: int| marker_at(line, tok, i)
}

/// The first marker position at or after `i` (`line.len()` if none).
pub open spec fn first_pos_from(line: Seq<char>, tok: Seq<char>, i: int) -> int
    decreases line.len() - i when 0 <= i <= line.len()
{
    if i >= line.len() {
        i
    } else if marker_at(line, tok, i) {
        i
    } else {
        first_pos_from(line, tok, i + 1)
    }
}

/// The first marker position of the whole line.
pub open spec fn first_pos(line: Seq<char>, tok: Seq<char>) -> int {
    first_pos_from(line, tok, 0)
}

/// The payload of a matching line: its text from the first marker position
/// to its end.
pub open spec fn payload_of(line: Seq<char>, tok: Seq<char>) -> Seq<char> {
    line.subrange(first_pos(line, tok), line.len() as int)
}

proof fn lemma_first_pos_from_props(line: Seq<char>, tok: Seq<char>, i: int)
    requires
        0 <= i <= line.len(),
    ensures
        i <= first_pos_from(line, tok, i) <= line.len(),
        forall|j: int| i <= j < first_pos_from(line, tok, i) ==> !marker_at(line, tok, j),
        first_pos_from(line, tok, i) < line.len() ==> marker_at(
            line,
            tok,
            first_pos_from(line, tok, i),
        ),
    decreases line.len() - i,
{
    if i < line.len() && !marker_at(line, tok, i) {
        lemma_first_pos_from_props(line, tok, i + 1);
    }
}

/// A line matches exactly when its first marker position lies inside it.
pub proof fn lemma_line_matches_first_pos(line: Seq<char>, tok: Seq<char>)
    ensures
        line_matches(line, tok) <==> first_pos(line, tok) < line.len(),
        line_matches(line, tok) ==> marker_at(line, tok, first_pos(line, tok)),
        forall|j: int| 0 <= j < first_pos(line, tok) ==> !marker_at(line, tok, j),
{
    lemma_first_pos_from_props(line, tok, 0);
    if line_matches(line, tok) {
        let p = choose|p: int| marker_at(line, tok, p);
        assert(p + 7 <= line.len());
        if first_pos(line, tok) >= line.len() {
            assert(!marker_at(line, tok, p));
        }
    }
}

/// Whether the marker for `tok` stands at position `i` of `line`.
#[verifier::loop_isolation(false)]
fn marker_match_at(line: &str, tok: &str, i: usize) -> (b: bool)
    requires
        i <= line@.len(),
    ensures
        b == marker_at(line@, tok@, i as int),
{
    let n = line.unicode_len();
    let tn = tok.unicode_len();
    if n - i < 7 {
        return false;
    }
    if line.get_char(i) != '{' || line.get_char(i + 1) != '"' || line.get_char(i + 2) != 't'
        || line.get_char(i + 3) != 'y' || line.get_char(i + 4) != 'p' || line.get_char(i + 5)
        != 'e' || line.get_char(i + 6) != '"' {
        proof {
            if line@.subrange(i as int, i as int + 7) == type_prefix() {
                assert(line@[i as int] == line@.subrange(i as int, i as int + 7)[0]);
                assert(line@[i as int + 1] == line@.subrange(i as int, i as int + 7)[1]);
                assert(line@[i as int + 2] == line@.subrange(i as int, i as int + 7)[2]);
                assert(line@[i as int + 3] == line@.subrange(i as int, i as int + 7)[3]);
                assert(line@[i as int + 4] == line@.subrange(i as int, i as int + 7)[4]);
                assert(line@[i as int + 5] == line@.subrange(i as int, i as int + 7)[5]);
                assert(line@[i as int + 6] == line@.subrange(i as int, i as int + 7)[6]);
            }
        }
        return false;
    }
    proof {
        assert(line@.subrange(i as int, i as int + 7) =~= type_prefix());
    }
    let j = ws_end(line, i + 7);
    if j >= n {
        return false;
    }
    if line.get_char(j) != ':' {
        return false;
    }
    let k = ws_end(line, j + 1);
    proof {
        lemma_skip_ws_bounds(line@, j as int + 1);
    }
    let rem = n - k;
    if rem < 2 || tn > rem - 2 {
        return false;
    }
    if line.get_char(k) != '"' {
        return false;
    }
    let mut t: usize = 0;
    while t < tn
        invariant
            0 <= t <= tn,
            tn == tok@.len(),
            n == line@.len(),
            k + tn + 2 <= n,
            forall|u: int| 0 <= u < t ==> line@[k + 1 + u] == tok@[u],
        decreases tn - t,
    {
        if line.get_char(k + 1 + t) != tok.get_char(t) {
            proof {
                if line@.subrange(k as int + 1, k as int + 1 + tok@.len() as int) == tok@ {
                    assert(line@.subrange(k as int + 1, k as int + 1 + tok@.len() as int)[t as int]
                        == tok@[t as int]);
                    assert(line@.subrange(k as int + 1, k as int + 1 + tok@.len() as int)[t as int]
                        == line@[k as int + 1 + t]);
                }
            }
            return false;
        }
        t = t + 1;
    }
    proof {
        assert(line@.subrange(k as int + 1, k as int + 1 + tok@.len() as int) =~= tok@);
    }
    if line.get_char(k + 1 + tn) != '"' {
        return false;
    }
    let m = ws_end(line, k + 2 + tn);
    if m >= n {
        return false;
    }
    if line.get_char(m) != ',' {
        return false;
    }
    true
}

/// The first position of `line` where the marker for `tok` stands, if any.
pub fn find_marker(line: &str, tok: &str) -> (r: Option<usize>)
    ensures
        match r {
            Some(i) => i as int == first_pos(line@, tok@) && marker_at(line@, tok@, i as int),
            None => !line_matches(line@, tok@),
        },
{
    let n = line.unicode_len();
    let mut i: usize = 0;
    while i < n
        invariant
            0 <= i <= n,
            n == line@.len(),
            forall|j: int| 0 <= j < i ==> !marker_at(line@, tok@, j),
        decreases n - i,
    {
        if marker_match_at(line, tok, i) {
            proof {
                lemma_line_matches_first_pos(line@, tok@);
                let p = first_pos(line@, tok@);
                if p < i as int {
                    assert(!marker_at(line@, tok@, p));
                }
            }
            return Some(i);
        }
        i = i + 1;
    }
    proof {
        assert forall|j: int| !marker_at(line@, tok@, j) by {
            if 0 <= j < n as int {
                assert(!marker_at(line@, tok@, j));
            }
        }
    }
    None
}

/// Failure of a scan: the stream ended without a line carrying the marker
/// of the sought kind.
#[derive(Debug, Clone, Copy, PartialEq, Eq, Structural)]
pub struct MessageNotFoundError {
    /// The message kind that was sought and never found.
    pub kind: MessageKind,
}

/// The payload the scanner yields for a sequence of lines: the first
/// matching line, sliced from its marker, or nothing when no line matches.
pub open spec fn scan_spec(lines: Seq<Seq<char>>, tok: Seq<char>) -> Option<Seq<char>>
    decreases lines.len(),
{
    if lines.len() == 0 {
        None
    } else if line_matches(lines[0], tok) {
        Some(payload_of(lines[0], tok))
    } else {
        scan_spec(lines.subrange(1, lines.len() as int), tok)
    }
}

proof fn lemma_scan_spec_skip(lines: Seq<Seq<char>>, tok: Seq<char>, k: int)
    requires
        0 <= k <= lines.len(),
        forall|j: int| 0 <= j < k ==> !line_matches(#[trigger] lines[j], tok),
    ensures
        scan_spec(lines, tok) == scan_spec(lines.subrange(k, lines.len() as int), tok),
    decreases k,
{
    if k > 0 {
        lemma_scan_spec_skip(lines, tok, k - 1);
        let rest = lines.subrange(k - 1, lines.len() as int);
        assert(rest[0] == lines[k - 1]);
        assert(!line_matches(rest[0], tok));
        assert(scan_spec(rest, tok) == scan_spec(rest.subrange(1, rest.len() as int), tok));
        assert(rest.subrange(1, rest.len() as int) =~= lines.subrange(k, lines.len() as int));
        assert(scan_spec(lines, tok) == scan_spec(rest, tok));
    } else {
        assert(lines.subrange(0, lines.len() as int) =~= lines);
    }
}

/// The scanner ignores every line before the first match: when line `k`
/// matches and none before it does, the scan yields line `k`'s payload.
pub proof fn lemma_scanner_first_match(lines: Seq<Seq<char>>, tok: Seq<char>, k: int)
    requires
        0 <= k < lines.len(),
        line_matches(lines[k], tok),
        forall|j: int| 0 <= j < k ==> !line_matches(#[trigger] lines[j], tok),
    ensures
        scan_spec(lines, tok) == Some(payload_of(lines[k], tok)),
{
    lemma_scan_spec_skip(lines, tok, k);
    let rest = lines.subrange(k, lines.len() as int);
    assert(rest[0] == lines[k]);
}

/// A stream with no matching line yields no message at all.
pub proof fn lemma_scanner_no_match(lines: Seq<Seq<char>>, tok: Seq<char>)
    requires
        forall|j: int| 0 <= j < lines.len() ==> !line_matches(#[trigger] lines[j], tok),
    ensures
        scan_spec(lines, tok) is None,
{
    lemma_scan_spec_skip(lines, tok, lines.len() as int);
    assert(lines.subrange(lines.len() as int, lines.len() as int) =~= Seq::<Seq<char>>::empty());
}

/// Scans the collected output lines for the first message of `kind`,
/// yielding the matching line sliced from its marker position, or the
/// protocol violation when the stream holds no such message.
pub fn scan_lines(lines: &Vec<String>, kind: MessageKind) -> (r: Result<
    String,
    MessageNotFoundError,
>)
    ensures
        match r {
            Ok(p) => scan_spec(lines.deep_view(), kind_token(kind)) == Some(p@),
            Err(e) => e.kind == kind && scan_spec(lines.deep_view(), kind_token(kind)) is None,
        },
{
    let tok = kind.token();
    let ghost views = lines.deep_view();
    let mut idx: usize = 0;
    while idx < lines.len()
        invariant
            0 <= idx <= lines.len(),
            views == lines.deep_view(),
            views.len() == lines@.len(),
            forall|j: int| 0 <= j < idx ==> !line_matches(#[trigger] views[j], kind_token(kind)),
            tok@ == kind_token(kind),
        decreases lines.len() - idx,
    {
        let line: &String = &lines[idx];
        proof {
            assert(views[idx as int] == line@);
        }
        if let Some(i) = find_marker(line.as_str(), tok) {
            let n = line.as_str().unicode_len();
            let payload = line.as_str().substring_char(i, n);
            proof {
                lemma_line_matches_first_pos(line@, tok@);
                assert(payload@ == payload_of(line@, tok@));
                lemma_scanner_first_match(views, kind_token(kind), idx as int);
            }
            return Ok(payload.to_owned());
        }
        idx = idx + 1;
    }
    proof {
        lemma_scanner_no_match(views, kind_token(kind));
    }
    Err(MessageNotFoundError { kind })
}

/// Splits a whole collected output into lines and scans them for the first
/// message of `kind`: the matching line sliced from its marker position, or
/// the protocol violation when no line carries the marker.
pub fn scan_output(output: &str, kind: MessageKind) -> (r: Result<String, MessageNotFoundError>)
    ensures
        match r {
            Ok(p) => scan_spec(lines_of(output@), kind_token(kind)) == Some(p@),
            Err(e) => e.kind == kind && scan_spec(lines_of(output@), kind_token(kind)) is None,
        },
{
    let lines = split_lines(output);
    scan_lines(&lines, kind)
}

} // verus!
