//! The output interpreter: finds the structured payload in the mixed
//! text that the backend prints, or hands the text through unchanged.

use crate::error::ErrorView;
use crate::text::{
    chars_of, char_rows, lines_of, split_lines, string_from_chars, texts, trim, trim_chars,
    trimmed,
};
use vstd::prelude::*;

verus! {

/// A decoded JSON value of `serde_json`.
#[verifier::external_type_specification]
#[verifier::external_body]
pub struct ExJsonValue(serde_json::Value);

/// The error with which `serde_json` refuses a text.
#[verifier::external_type_specification]
#[verifier::external_body]
pub struct ExJsonError(serde_json::Error);

/// What `serde_json::from_str` makes of a text: the decoded value, or
/// the error with which the text is refused.
pub uninterp spec fn json_decoding(text: Seq<char>) -> Result<serde_json::Value, serde_json::Error>;

/// Decodes one complete JSON document with `serde_json::from_str`. The
/// result is a function of the text alone; this contract only gives it
/// its name.
#[verifier::external_body]
fn decode_json(text: &str) -> (decoded: Result<serde_json::Value, serde_json::Error>)
    ensures
        decoded == json_decoding(text@),
{
    serde_json::from_str::<serde_json::Value>(text)
}

/// The time that has passed since the Unix epoch, as whole seconds and
/// the nanoseconds of the second begun, from std's `SystemTime::now`
/// and `SystemTime::duration_since`. A clock that stands before the
/// epoch gives `None`. The nanoseconds are less than a second; nothing
/// else is claimed of the reading.
#[verifier::external_body]
fn time_since_epoch() -> (elapsed: Option<(u64, u32)>)
    ensures
        elapsed matches Some(reading) ==> reading.1 < 1_000_000_000,
{
    std::time::SystemTime::now().duration_since(std::time::UNIX_EPOCH).ok().map(
        |elapsed| (elapsed.as_secs(), elapsed.subsec_nanos()),
    )
}

/// What `chrono::DateTime::from_timestamp` followed by
/// `DateTime::to_rfc3339` makes of a moment given as seconds and
/// nanoseconds since the Unix epoch: its RFC 3339 text in UTC, or
/// nothing for a moment that chrono cannot represent.
pub uninterp spec fn rfc3339_utc(seconds: i64, nanos: u32) -> Option<Seq<char>>;

/// Writes a moment as RFC 3339 text with
/// `chrono::DateTime::from_timestamp` and `DateTime::to_rfc3339`. The
/// first returns `None` instead of failing, and the second writes into
/// a string, which cannot fail. The result is a function of the two
/// numbers alone; this contract only gives it its name.
#[verifier::external_body]
fn format_utc(seconds: i64, nanos: u32) -> (stamp: Option<String>)
    ensures
        stamp_view(stamp) == rfc3339_utc(seconds, nanos),
{
    chrono::DateTime::from_timestamp(seconds, nanos).map(|moment| moment.to_rfc3339())
}

/// The view of an optional stamp.
pub open spec fn stamp_view(stamp: Option<String>) -> Option<Seq<char>> {
    match stamp {
        Some(text) => Some(text@),
        None => None,
    }
}

/// What was made of a captured text.
#[derive(Debug, PartialEq)]
pub enum ParsedPayload {
    /// A line decoded; this is its value.
    Structured(serde_json::Value),
    /// The text as it was captured, for callers that need no structure.
    RawText(String),
    /// No line decoded; this is the text as it was captured.
    ParseFailed(String),
}

/// Mathematical content of a [`ParsedPayload`].
pub enum PayloadView {
    Structured(serde_json::Value),
    RawText(Seq<char>),
    ParseFailed(Seq<char>),
}

impl View for ParsedPayload {
    type V = PayloadView;

    open spec fn view(&self) -> PayloadView {
        match self {
            ParsedPayload::Structured(v) => PayloadView::Structured(*v),
            ParsedPayload::RawText(t) => PayloadView::RawText(t@),
            ParsedPayload::ParseFailed(t) => PayloadView::ParseFailed(t@),
        }
    }
}

/// True when a trimmed line opens like a JSON object or array.
pub open spec fn opens_structure(line: Seq<char>) -> bool {
    line.len() > 0 && (line.first() == '{' || line.first() == '[')
}

/// The decode candidates among `lines`, in order: every line, trimmed,
/// that opens with `{` or `[`.
pub open spec fn candidates_among(lines: Seq<Seq<char>>) -> Seq<Seq<char>>
    decreases lines.len(),
{
    if lines.len() == 0 {
        Seq::empty()
    } else {
        let before = candidates_among(lines.drop_last());
        let line = trimmed(lines.last());
        if opens_structure(line) {
            before.push(line)
        } else {
            before
        }
    }
}

/// The decode candidates of a text.
pub open spec fn candidates_of(text: Seq<char>) -> Seq<Seq<char>> {
    candidates_among(lines_of(text))
}

/// Index of the first candidate at or after `from` that decodes, or the
/// number of candidates when none does.
pub open spec fn next_decodable(candidates: Seq<Seq<char>>, from: int) -> int
    decreases candidates.len() - from,
{
    if from < 0 || from >= candidates.len() {
        candidates.len() as int
    } else if json_decoding(candidates[from]) is Ok {
        from
    } else {
        next_decodable(candidates, from + 1)
    }
}

/// The value of the first candidate that decodes; candidates that do
/// not decode are passed over.
pub open spec fn first_decoded(candidates: Seq<Seq<char>>) -> Option<serde_json::Value> {
    let index = next_decodable(candidates, 0);
    if 0 <= index < candidates.len() {
        match json_decoding(candidates[index]) {
            Ok(value) => Some(value),
            Err(_) => None,
        }
    } else {
        None
    }
}

/// The candidates that were tried and did not decode: those before the
/// first that decodes, or all of them when none decodes.
pub open spec fn passed_over(candidates: Seq<Seq<char>>) -> Seq<Seq<char>> {
    candidates.subrange(0, next_decodable(candidates, 0))
}

/// `next_decodable` names a candidate at or after `from` that decodes
/// and that no decoding candidate at or after `from` precedes, or it is
/// the number of candidates and none at or after `from` decodes.
pub proof fn lemma_next_decodable(candidates: Seq<Seq<char>>, from: int)
    requires
        0 <= from <= candidates.len(),
    ensures
        from <= next_decodable(candidates, from) <= candidates.len(),
        next_decodable(candidates, from) < candidates.len() ==> json_decoding(
            candidates[next_decodable(candidates, from)],
        ) is Ok,
        forall|k: int|
            from <= k < next_decodable(candidates, from) ==> json_decoding(
                #[trigger] candidates[k],
            ) is Err,
    decreases candidates.len() - from,
{
    if from < candidates.len() && !(json_decoding(candidates[from]) is Ok) {
        lemma_next_decodable(candidates, from + 1);
    }
}

/// The structured payload of a text: the value of the first candidate
/// line that decodes, or a failure that carries the whole text.
pub open spec fn structured_payload(text: Seq<char>) -> PayloadView {
    match first_decoded(candidates_of(text)) {
        Some(value) => PayloadView::Structured(value),
        None => PayloadView::ParseFailed(text),
    }
}

/// A text in which no line, once trimmed, opens with `{` or `[` has no
/// candidate and no structured payload: interpretation fails and carries
/// the text unchanged.
pub proof fn lemma_no_candidate_fails(text: Seq<char>)
    requires
        forall|i: int|
            0 <= i < lines_of(text).len() ==> !opens_structure(
                trimmed(#[trigger] lines_of(text)[i]),
            ),
    ensures
        candidates_of(text).len() == 0,
        structured_payload(text) == PayloadView::ParseFailed(text),
{
    lemma_candidates(lines_of(text));
}

/// A candidate is a trimmed line of the text that opens with `{` or
/// `[`, and every such line is a candidate.
pub proof fn lemma_candidates(lines: Seq<Seq<char>>)
    ensures
        forall|k: int|
            0 <= k < candidates_among(lines).len() ==> opens_structure(
                #[trigger] candidates_among(lines)[k],
            ),
        forall|i: int|
            0 <= i < lines.len() && opens_structure(trimmed(lines[i])) ==> candidates_among(
                lines,
            ).contains(#[trigger] trimmed(lines[i])),
        (forall|i: int| 0 <= i < lines.len() ==> !opens_structure(trimmed(#[trigger] lines[i])))
            ==> candidates_among(lines).len() == 0,
    decreases lines.len(),
{
    if lines.len() > 0 {
        let head = lines.drop_last();
        lemma_candidates(head);
        let found = candidates_among(lines);
        assert forall|i: int|
            0 <= i < lines.len() && opens_structure(trimmed(lines[i])) implies found.contains(
            #[trigger] trimmed(lines[i]),
        ) by {
            if i < head.len() {
                assert(head[i] == lines[i]);
                let before = candidates_among(head);
                let k = choose|k: int| 0 <= k < before.len() && before[k] == trimmed(lines[i]);
                assert(found[k] == trimmed(lines[i]));
            } else {
                assert(found[found.len() - 1] == trimmed(lines[i]));
            }
        }
        assert forall|i: int| 0 <= i < head.len() implies head[i] == lines[i] by {}
    }
}

/// The decode candidates of `text`: its lines, trimmed, that open with
/// `{` or `[`.
pub fn candidate_lines(text: &str) -> (found: Vec<String>)
    ensures
        texts(found@) == candidates_of(text@),
{
    let chars = chars_of(text);
    let rows = split_lines(&chars);
    let ghost lines = lines_of(text@);
    let mut found: Vec<String> = Vec::new();
    let mut i: usize = 0;
    assert(lines.subrange(0, 0) == Seq::<Seq<char>>::empty());
    assert(texts(found@) == Seq::<Seq<char>>::empty());
    while i < rows.len()
        invariant
            i <= rows.len(),
            lines == char_rows(rows@),
            texts(found@) == candidates_among(lines.subrange(0, i as int)),
        decreases rows.len() - i,
    {
        let line = trim_chars(&rows[i]);
        proof {
            let upto = lines.subrange(0, i + 1);
            assert(upto.drop_last() == lines.subrange(0, i as int));
            assert(upto.last() == rows@[i as int]@);
        }
        if line.len() > 0 && (line[0] == '{' || line[0] == '[') {
            let candidate = string_from_chars(&line);
            proof {
                assert(texts(found@.push(candidate)) == texts(found@).push(candidate@));
            }
            found.push(candidate);
        }
        i += 1;
    }
    assert(lines.subrange(0, rows.len() as int) == lines);
    found
}

/// What a decoding contributes: its value when it succeeded, nothing
/// when the text was refused.
pub fn accept_decoded(decoded: Result<serde_json::Value, serde_json::Error>) -> (value: Option<
    serde_json::Value,
>)
    ensures
        value == match decoded {
            Ok(v) => Some(v),
            Err(_) => None::<serde_json::Value>,
        },
{
    match decoded {
        Ok(v) => Some(v),
        Err(_) => None,
    }
}

/// Decodes the candidates from position `from` on, in order, and
/// returns the first one that decodes with its position. The candidates
/// between `from` and that position were tried and did not decode.
pub fn decode_next(candidates: &Vec<String>, from: usize) -> (found: Option<
    (usize, serde_json::Value),
>)
    ensures
        match found {
            Some(hit) => {
                &&& hit.0 == next_decodable(texts(candidates@), from as int)
                &&& from <= hit.0 < candidates.len()
                &&& json_decoding(candidates@[hit.0 as int]@) == Ok::<
                    serde_json::Value,
                    serde_json::Error,
                >(hit.1)
            },
            None => next_decodable(texts(candidates@), from as int) == candidates.len(),
        },
{
    let ghost all = texts(candidates@);
    let mut i: usize = from;
    while i < candidates.len()
        invariant
            from <= i,
            all == texts(candidates@),
            next_decodable(all, from as int) == next_decodable(all, i as int),
        decreases candidates.len() - i,
    {
        assert(all[i as int] == candidates@[i as int]@);
        match accept_decoded(decode_json(candidates[i].as_str())) {
            Some(v) => {
                return Some((i, v));
            },
            None => {},
        }
        i += 1;
    }
    None
}

/// Decodes the candidates in order and returns the first value.
pub fn decode_first(candidates: &Vec<String>) -> (value: Option<serde_json::Value>)
    ensures
        value == first_decoded(texts(candidates@)),
{
    match decode_next(candidates, 0) {
        Some(hit) => {
            assert(texts(candidates@)[hit.0 as int] == candidates@[hit.0 as int]@);
            Some(hit.1)
        },
        None => None,
    }
}

/// Extracts the structured payload of `text` and hands out, for the
/// caller's diagnostics, the lines that looked like JSON, were tried and
/// did not decode.
pub fn extract_with_diagnostics(text: &str) -> (r: (ParsedPayload, Vec<String>))
    ensures
        r.0@ == structured_payload(text@),
        !(r.0 is RawText),
        texts(r.1@) == passed_over(candidates_of(text@)),
{
    let mut candidates = candidate_lines(text);
    let ghost all = texts(candidates@);
    proof {
        lemma_next_decodable(all, 0);
    }
    match decode_next(&candidates, 0) {
        Some(hit) => {
            assert(all[hit.0 as int] == candidates@[hit.0 as int]@);
            candidates.truncate(hit.0);
            assert(texts(candidates@) == all.subrange(0, hit.0 as int));
            (ParsedPayload::Structured(hit.1), candidates)
        },
        None => {
            assert(all.subrange(0, all.len() as int) == all);
            (ParsedPayload::ParseFailed(text.to_owned()), candidates)
        },
    }
}

/// Extracts the structured payload of `text`: the value of the first
/// line that, trimmed, opens with `{` or `[` and decodes. Lines that
/// look like JSON and do not decode are passed over. When no line
/// decodes the result is `ParseFailed` with the whole text.
pub fn extract_structured(text: &str) -> (payload: ParsedPayload)
    ensures
        payload@ == structured_payload(text@),
        !(payload is RawText),
{
    let (payload, _) = extract_with_diagnostics(text);
    payload
}

/// The text itself, for callers that need no structure.
pub fn as_raw_text(text: &str) -> (payload: ParsedPayload)
    ensures
        payload@ == PayloadView::RawText(text@),
{
    ParsedPayload::RawText(text.to_owned())
}

/// What the caller of a structured operation receives for an outcome: a
/// run that did not end with exit code 0 is a failure whatever its
/// output holds; the output of a successful run gives its structured
/// payload or a parse failure that carries the output.
pub open spec fn structured_conclusion(
    exit_code: Option<i32>,
    stdout: Seq<char>,
    stderr: Seq<char>,
) -> Result<serde_json::Value, ErrorView> {
    if exit_code == Some(0i32) {
        match first_decoded(candidates_of(stdout)) {
            Some(value) => Ok(value),
            None => Err(ErrorView::OutputParseFailure { raw: stdout }),
        }
    } else {
        Err(ErrorView::ProcessExecutionFailure { exit_code, stderr })
    }
}

/// A run that did not end with exit code 0 is a failure, even when its
/// standard output holds a line that decodes.
pub proof fn lemma_nonzero_exit_is_failure(
    exit_code: Option<i32>,
    stdout: Seq<char>,
    stderr: Seq<char>,
)
    requires
        exit_code != Some(0i32),
    ensures
        structured_conclusion(exit_code, stdout, stderr) == Err::<serde_json::Value, ErrorView>(
            ErrorView::ProcessExecutionFailure { exit_code, stderr },
        ),
{
}

/// The candidate lines that a structured operation tried in vain: those
/// passed over in the output of a run that ended with exit code 0, none
/// for any other run.
pub open spec fn structured_diagnostics(
    exit_code: Option<i32>,
    stdout: Seq<char>,
) -> Seq<Seq<char>> {
    if exit_code == Some(0i32) {
        passed_over(candidates_of(stdout))
    } else {
        Seq::empty()
    }
}

/// Plain output wrapped for the caller: a success mark, the trimmed
/// output and the time of wrapping. There is no time where the clock
/// could not be read or stands outside what can be written.
#[derive(Debug, Clone, PartialEq, Eq)]
pub struct CliOutput {
    pub success: bool,
    pub output: String,
    pub timestamp: Option<String>,
}

/// The stamp for a reading of the clock: the RFC 3339 text of the moment
/// that lies `reading` after the Unix epoch. A clock that could not be
/// read, and seconds beyond the signed 64-bit range, give no stamp.
pub open spec fn stamp_of(elapsed: Option<(u64, u32)>) -> Option<Seq<char>> {
    match elapsed {
        Some(reading) => if reading.0 <= i64::MAX {
            rfc3339_utc(reading.0 as i64, reading.1)
        } else {
            None
        },
        None => None,
    }
}

/// Writes the stamp for a reading of the clock.
pub fn timestamp_of(elapsed: Option<(u64, u32)>) -> (stamp: Option<String>)
    ensures
        stamp_view(stamp) == stamp_of(elapsed),
{
    match elapsed {
        Some(reading) => {
            if reading.0 <= 9223372036854775807u64 {
                format_utc(reading.0 as i64, reading.1)
            } else {
                None
            }
        },
        None => None,
    }
}

/// Wraps plain output, stamped for a given reading of the clock.
pub fn cli_output_at(output: &str, elapsed: Option<(u64, u32)>) -> (wrapped: CliOutput)
    ensures
        wrapped.success,
        wrapped.output@ == trimmed(output@),
        stamp_view(wrapped.timestamp) == stamp_of(elapsed),
{
    CliOutput { success: true, output: trim(output), timestamp: timestamp_of(elapsed) }
}

/// Wraps plain output, stamped with the current time: the stamp is that
/// of some reading of the clock.
pub fn parse_cli_output(output: &str) -> (wrapped: CliOutput)
    ensures
        wrapped.success,
        wrapped.output@ == trimmed(output@),
        exists|elapsed: Option<(u64, u32)>|
            (elapsed matches Some(reading) ==> reading.1 < 1_000_000_000) && stamp_view(
                wrapped.timestamp,
            ) == #[trigger] stamp_of(elapsed),
{
    let elapsed = time_since_epoch();
    cli_output_at(output, elapsed)
}

} // verus!
