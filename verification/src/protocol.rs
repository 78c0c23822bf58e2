//! The line-delimited JSON request/response protocol spoken with the player
//! process: building request lines, summarizing response lines, matching a
//! response to a pending request, and reading scalar property values.

use vstd::prelude::*;
use crate::text::{
    spec_json_escape, spec_i64_dec, spec_u64_dec, spec_ms_dec, push_json_escaped, push_i64_dec,
    push_u64_dec, push_ms_dec, push_str_chars, chars_to_string,
};

verus! {

/// One argument of a player command, as it will appear in the request's
/// JSON command array. Times are carried as whole milliseconds and encoded
/// as seconds with three decimals.
#[derive(Debug, Clone)]
pub enum JsonArg {
    /// A JSON string (escaped on encoding).
    Str(String),
    /// A signed JSON integer.
    Int(i64),
    /// An unsigned JSON integer.
    UInt(u64),
    /// A JSON boolean.
    Bool(bool),
    /// A fixed-point value: `n` thousandths, encoded with three decimals.
    Milli(i64),
}

/// The encoding of one command argument as JSON text.
pub open spec fn spec_encode_arg(a: JsonArg) -> Seq<char> {
    match a {
        JsonArg::Str(s) => seq!['"'] + spec_json_escape(s@) + seq!['"'],
        JsonArg::Int(n) => spec_i64_dec(n as int),
        JsonArg::UInt(n) => spec_u64_dec(n as nat),
        JsonArg::Bool(b) => if b {
            "true"@
        } else {
            "false"@
        },
        JsonArg::Milli(n) => spec_ms_dec(n as int),
    }
}

/// The given token sequences joined with commas.
pub open spec fn spec_join_comma(parts: Seq<Seq<char>>) -> Seq<char>
    decreases parts.len(),
{
    if parts.len() == 0 {
        Seq::empty()
    } else if parts.len() == 1 {
        parts[0]
    } else {
        parts[0] + seq![','] + spec_join_comma(parts.drop_first())
    }
}

/// One request line of the wire protocol: the encoded command array, the
/// request identifier, and the terminating newline.
pub open spec fn spec_request_line(parts: Seq<Seq<char>>, id: nat) -> Seq<char> {
    "{\"command\":["@ + spec_join_comma(parts) + "],\"request_id\":"@ + spec_u64_dec(id)
        + "}\n"@
}

proof fn lemma_join_comma_push(parts: Seq<Seq<char>>, p: Seq<char>)
    requires
        parts.len() >= 1,
    ensures
        spec_join_comma(parts.push(p)) == spec_join_comma(parts) + seq![','] + p,
    decreases parts.len(),
{
    if parts.len() == 1 {
        assert(parts.push(p)[0] == parts[0]);
        assert(parts.push(p).drop_first() =~= seq![p]);
        assert(spec_join_comma(seq![p]) == p);
        assert(spec_join_comma(parts.push(p)) == parts[0] + seq![','] + p);
        assert(spec_join_comma(parts) == parts[0]);
    } else {
        assert(parts.push(p).drop_first() =~= parts.drop_first().push(p));
        lemma_join_comma_push(parts.drop_first(), p);
        assert(spec_join_comma(parts.push(p)) =~= spec_join_comma(parts) + seq![','] + p);
    }
}

fn push_arg(out: &mut Vec<char>, a: &JsonArg)
    ensures
        final(out)@ == old(out)@ + spec_encode_arg(*a),
{
    match a {
        JsonArg::Str(s) => {
            out.push('"');
            push_json_escaped(out, s.as_str());
            out.push('"');
            proof {
                assert(final(out)@ =~= old(out)@ + spec_encode_arg(*a));
            }
        },
        JsonArg::Int(n) => {
            push_i64_dec(out, *n);
        },
        JsonArg::UInt(n) => {
            push_u64_dec(out, *n);
        },
        JsonArg::Bool(b) => {
            if *b {
                push_str_chars(out, "true");
            } else {
                push_str_chars(out, "false");
            }
        },
        JsonArg::Milli(n) => {
            push_ms_dec(out, *n);
        },
    }
}

/// Builds the request line for the given command arguments and request
/// identifier, exactly as it goes over the wire (newline included).
pub fn build_request_line(args: &Vec<JsonArg>, id: u64) -> (line: String)
    ensures
        line@ == spec_request_line(args@.map_values(|a: JsonArg| spec_encode_arg(a)), id as nat),
{
    let ghost parts = args@.map_values(|a: JsonArg| spec_encode_arg(a));
    let mut out: Vec<char> = Vec::new();
    push_str_chars(&mut out, "{\"command\":[");
    let mut i: usize = 0;
    while i < args.len()
        invariant
            parts == args@.map_values(|a: JsonArg| spec_encode_arg(a)),
            i <= args.len(),
            out@ == "{\"command\":["@ + spec_join_comma(parts.take(i as int)),
        decreases args.len() - i,
    {
        if i > 0 {
            out.push(',');
        }
        push_arg(&mut out, &args[i]);
        proof {
            if i == 0 {
                assert(parts.take(1) =~= seq![parts[0]]);
                assert(out@ =~= "{\"command\":["@ + spec_join_comma(parts.take(i + 1)));
            } else {
                assert(parts.take(i + 1) =~= parts.take(i as int).push(parts[i as int]));
                lemma_join_comma_push(parts.take(i as int), parts[i as int]);
                assert(out@ =~= "{\"command\":["@ + spec_join_comma(parts.take(i + 1)));
            }
        }
        i = i + 1;
    }
    proof {
        assert(parts.take(parts.len() as int) =~= parts);
    }
    push_str_chars(&mut out, "],\"request_id\":");
    push_u64_dec(&mut out, id);
    push_str_chars(&mut out, "}\n");
    let line = chars_to_string(&out);
    proof {
        assert(line@ =~= spec_request_line(parts, id as nat));
    }
    line
}

/// The plain summary of one line of player output: whether it parsed as a
/// JSON object, the request identifier it answers (if any), whether it is an
/// unsolicited event notification, the player's error field, and the `data`
/// field re-rendered as JSON text.
#[derive(Debug, Clone)]
pub struct LineSummary {
    /// The line parsed as a JSON object.
    pub well_formed: bool,
    /// The value of a numeric `request_id` field.
    pub request_id: Option<u64>,
    /// Whether the object carries an `event` field.
    pub has_event: bool,
    /// The value of a string `error` field.
    pub error: Option<String>,
    /// The `data` field, rendered back to JSON text.
    pub data: Option<String>,
}

/// The summary that decoding one line of player output yields.
pub uninterp spec fn line_summary_of(line: Seq<char>) -> LineSummary;

/// Relies on serde_json::from_str and serde_json::Value's accessors
/// (get, as_u64, as_str, to_string): decodes one line of player output
/// into its plain summary. The summary is a function of the line alone.
#[verifier::external_body]
pub fn parse_line(line: &str) -> (r: LineSummary)
    ensures
        r == line_summary_of(line@),
{
    let mut r = LineSummary { well_formed: false, request_id: None, has_event: false, error: None, data: None };
    if let Ok(serde_json::Value::Object(m)) = serde_json::from_str::<serde_json::Value>(line) {
        r.well_formed = true;
        r.request_id = match m.get("request_id") { Some(v) => v.as_u64(), None => None };
        r.has_event = m.get("event").is_some();
        r.error = match m.get("error") {
            Some(v) => match v.as_str() { Some(s) => Some(s.to_string()), None => None },
            None => None,
        };
        r.data = match m.get("data") { Some(v) => Some(v.to_string()), None => None };
    }
    r
}

/// The summary of the first line that answers request `id`: event lines and
/// unrelated lines are passed over, never treated as errors.
pub open spec fn spec_find_response(lines: Seq<Seq<char>>, id: u64) -> Option<LineSummary>
    decreases lines.len(),
{
    if lines.len() == 0 {
        None
    } else if line_summary_of(lines[0]).request_id == Some(id) {
        Some(line_summary_of(lines[0]))
    } else {
        spec_find_response(lines.drop_first(), id)
    }
}

/// Scans the given lines of player output for the response to request `id`,
/// skipping event notifications and unrelated or malformed lines.
pub fn find_response(lines: &Vec<String>, id: u64) -> (r: Option<LineSummary>)
    ensures
        r == spec_find_response(lines@.map_values(|l: String| l@), id),
{
    let ghost ls = lines@.map_values(|l: String| l@);
    let mut i: usize = 0;
    proof {
        assert(ls.skip(0) =~= ls);
    }
    while i < lines.len()
        invariant
            ls == lines@.map_values(|l: String| l@),
            i <= lines.len(),
            spec_find_response(ls, id) == spec_find_response(ls.skip(i as int), id),
        decreases lines.len() - i,
    {
        let summary = parse_line(lines[i].as_str());
        if let Some(rid) = summary.request_id {
            if rid == id {
                proof {
                    assert(ls.skip(i as int)[0] == ls[i as int]);
                }
                return Some(summary);
            }
        }
        proof {
            assert(ls.skip(i as int)[0] == ls[i as int]);
            assert(ls.skip(i as int).drop_first() =~= ls.skip(i + 1));
        }
        i = i + 1;
    }
    proof {
        assert(ls.skip(ls.len() as int) =~= Seq::<Seq<char>>::empty());
    }
    None
}

/// Whether `c` is a decimal digit.
pub open spec fn spec_is_digit(c: char) -> bool {
    48 <= c as int <= 57
}

/// Whether every character of `s` is a decimal digit.
pub open spec fn spec_all_digits(s: Seq<char>) -> bool {
    forall|i: int| 0 <= i < s.len() ==> spec_is_digit(#[trigger] s[i])
}

/// The value of a digit string, most significant digit first.
pub open spec fn spec_digits_val(s: Seq<char>) -> int
    decreases s.len(),
{
    if s.len() == 0 {
        0
    } else {
        spec_digits_val(s.drop_last()) * 10 + (s.last() as int - 48)
    }
}

/// Ten to the power `n`.
pub open spec fn spec_pow10(n: nat) -> int
    decreases n,
{
    if n == 0 {
        1
    } else {
        10 * spec_pow10((n - 1) as nat)
    }
}

proof fn lemma_digits_val_bound(s: Seq<char>)
    requires
        spec_all_digits(s),
    ensures
        0 <= spec_digits_val(s) < spec_pow10(s.len()),
    decreases s.len(),
{
    if s.len() > 0 {
        assert(spec_all_digits(s.drop_last())) by {
            assert(forall|i: int|
                0 <= i < s.len() - 1 ==> s.drop_last()[i] == #[trigger] s[i]);
        }
        lemma_digits_val_bound(s.drop_last());
    }
}

/// The index of the first `.` in `s`, if any.
pub open spec fn spec_dot_pos(s: Seq<char>) -> Option<int>
    decreases s.len(),
{
    if s.len() == 0 {
        None
    } else if s[0] == '.' {
        Some(0int)
    } else {
        match spec_dot_pos(s.drop_first()) {
            Some(j) => Some(j + 1),
            None => None,
        }
    }
}

proof fn lemma_dot_pos_none(s: Seq<char>)
    requires
        forall|i: int| 0 <= i < s.len() ==> #[trigger] s[i] != '.',
    ensures
        spec_dot_pos(s) is None,
    decreases s.len(),
{
    if s.len() > 0 {
        lemma_dot_pos_none(s.drop_first());
    }
}

proof fn lemma_dot_pos_at(s: Seq<char>, p: int)
    requires
        0 <= p < s.len(),
        s[p] == '.',
        forall|i: int| 0 <= i < p ==> #[trigger] s[i] != '.',
    ensures
        spec_dot_pos(s) == Some(p),
    decreases s.len(),
{
    if p > 0 {
        lemma_dot_pos_at(s.drop_first(), p - 1);
    }
}

/// The number of milliseconds contributed by the fractional digits `f`
/// (read to millisecond precision; meaningful for non-empty `f`).
pub open spec fn spec_frac_ms(f: Seq<char>) -> int {
    if f.len() == 1 {
        spec_digits_val(f) * 100
    } else if f.len() == 2 {
        spec_digits_val(f) * 10
    } else {
        spec_digits_val(f.take(3))
    }
}

/// How many integer digits a parsed number may carry. The bound keeps every
/// accepted value well inside the signed 64-bit millisecond range.
pub const MAX_NUMBER_DIGITS: usize = 15;

/// The milliseconds denoted by an unsigned JSON decimal number: a non-empty
/// run of digits, optionally followed by `.` and a non-empty run of digits,
/// read to millisecond precision. Longer integer parts, exponent forms and
/// anything else denote nothing.
pub open spec fn spec_parse_unsigned_ms(s: Seq<char>) -> Option<int> {
    match spec_dot_pos(s) {
        None => if 1 <= s.len() <= MAX_NUMBER_DIGITS && spec_all_digits(s) {
            Some(spec_digits_val(s) * 1000)
        } else {
            None
        },
        Some(p) => {
            let ip = s.take(p);
            let fp = s.skip(p + 1);
            if 1 <= ip.len() <= MAX_NUMBER_DIGITS && fp.len() >= 1 && spec_all_digits(ip)
                && spec_all_digits(fp) {
                Some(spec_digits_val(ip) * 1000 + spec_frac_ms(fp))
            } else {
                None
            }
        },
    }
}

/// The milliseconds denoted by a JSON decimal number, sign included.
pub open spec fn spec_parse_ms(s: Seq<char>) -> Option<int> {
    if s.len() >= 1 && s[0] == '-' {
        match spec_parse_unsigned_ms(s.drop_first()) {
            Some(v) => Some(-v),
            None => None,
        }
    } else {
        spec_parse_unsigned_ms(s)
    }
}

/// Reads the digit run `s[from..to]`, returning its value, or nothing if a
/// non-digit occurs in the run.
fn digits_value(s: &str, from: usize, to: usize) -> (r: Option<u64>)
    requires
        from <= to && to <= s@.len(),
        to - from <= MAX_NUMBER_DIGITS,
    ensures
        spec_all_digits(s@.subrange(from as int, to as int)) ==> r == Some(
            spec_digits_val(s@.subrange(from as int, to as int)) as u64,
        ),
        !spec_all_digits(s@.subrange(from as int, to as int)) ==> r is None,
{
    let ghost whole = s@.subrange(from as int, to as int);
    let mut acc: u64 = 0;
    let mut j: usize = from;
    proof {
        reveal_with_fuel(spec_pow10, 16);
        assert(whole.take(0) =~= Seq::<char>::empty());
    }
    while j < to
        invariant
            from <= j <= to,
            to <= s@.len(),
            to - from <= MAX_NUMBER_DIGITS,
            whole == s@.subrange(from as int, to as int),
            spec_all_digits(whole.take(j - from)),
            acc == spec_digits_val(whole.take(j - from)),
            acc < spec_pow10((j - from) as nat),
            spec_pow10((j - from) as nat) <= spec_pow10(MAX_NUMBER_DIGITS as nat),
        decreases to - j,
    {
        let c = s.get_char(j);
        let code = c as u32;
        if code < 48 || code > 57 {
            proof {
                assert(whole[j - from] == c);
                assert(!spec_all_digits(whole));
            }
            return None;
        }
        let d = (code - 48) as u64;
        proof {
            reveal_with_fuel(spec_pow10, 16);
            assert(whole.take(j - from + 1).drop_last() =~= whole.take(j - from));
            assert(whole.take(j - from + 1).last() == c);
            lemma_pow10_monotone(((j - from) as nat) + 1, MAX_NUMBER_DIGITS as nat);
        }
        acc = acc * 10 + d;
        j = j + 1;
    }
    proof {
        assert(whole.take(to - from) =~= whole);
    }
    Some(acc)
}

fn find_dot(s: &str, start: usize, len: usize) -> (r: Option<usize>)
    requires
        start <= len && len == s@.len(),
    ensures
        ({
            let t = s@.subrange(start as int, len as int);
            match r {
                None => spec_dot_pos(t) is None,
                Some(p) => start <= p < len && spec_dot_pos(t) == Some(p - start),
            }
        }),
{
    let ghost t = s@.subrange(start as int, len as int);
    let mut k: usize = start;
    while k < len
        invariant
            start <= k <= len,
            len == s@.len(),
            t == s@.subrange(start as int, len as int),
            forall|i: int| 0 <= i < k - start ==> #[trigger] t[i] != '.',
        decreases len - k,
    {
        if s.get_char(k) == '.' {
            proof {
                assert(t[k - start] == '.');
                lemma_dot_pos_at(t, k - start);
            }
            return Some(k);
        }
        proof {
            assert(t[k - start] == s@[k as int]);
        }
        k = k + 1;
    }
    proof {
        lemma_dot_pos_none(t);
    }
    None
}

fn all_digits_range(s: &str, from: usize, to: usize) -> (b: bool)
    requires
        from <= to && to <= s@.len(),
    ensures
        b == spec_all_digits(s@.subrange(from as int, to as int)),
{
    let ghost whole = s@.subrange(from as int, to as int);
    let mut j: usize = from;
    while j < to
        invariant
            from <= j <= to,
            to <= s@.len(),
            whole == s@.subrange(from as int, to as int),
            spec_all_digits(whole.take(j - from)),
        decreases to - j,
    {
        let code = s.get_char(j) as u32;
        if code < 48 || code > 57 {
            proof {
                assert(!spec_is_digit(whole[j - from]));
            }
            return false;
        }
        proof {
            assert(forall|i: int|
                0 <= i < j - from + 1 ==> spec_is_digit(#[trigger] whole.take(j - from + 1)[i]));
        }
        j = j + 1;
    }
    proof {
        assert(whole.take(to - from) =~= whole);
    }
    true
}

/// Reads a JSON decimal number as whole milliseconds: `"12.345"` denotes
/// 12345, `"-0.5"` denotes -500. Returns nothing on any other text.
pub fn parse_ms(s: &str) -> (r: Option<i64>)
    ensures
        r is None <==> spec_parse_ms(s@) is None,
        r matches Some(x) ==> spec_parse_ms(s@) == Some(x as int),
{
    let len = s.unicode_len();
    let neg = len >= 1 && s.get_char(0) == '-';
    let start: usize = if neg { 1 } else { 0 };
    let ghost t = s@.skip(start as int);
    proof {
        if neg {
            assert(t =~= s@.drop_first());
        } else {
            assert(t =~= s@);
        }
    }
    let unsigned = parse_unsigned_ms(s, start, len);
    proof {
        assert(t =~= s@.subrange(start as int, len as int));
    }
    match unsigned {
        Some(v) => {
            if neg {
                Some(-(v as i64))
            } else {
                Some(v as i64)
            }
        },
        None => None,
    }
}

/// Reads the unsigned decimal number in `s[start..len]` as milliseconds.
fn parse_unsigned_ms(s: &str, start: usize, len: usize) -> (r: Option<u64>)
    requires
        start <= len && len == s@.len(),
    ensures
        r is None <==> spec_parse_unsigned_ms(s@.subrange(start as int, len as int)) is None,
        r matches Some(x) ==> spec_parse_unsigned_ms(s@.subrange(start as int, len as int))
            == Some(x as int) && x <= 1000000000000000999,
{
    let ghost t = s@.subrange(start as int, len as int);
    let dot = find_dot(s, start, len);
    proof {
        reveal_with_fuel(spec_pow10, 16);
    }
    match dot {
        None => {
            if len - start < 1 || len - start > MAX_NUMBER_DIGITS {
                return None;
            }
            match digits_value(s, start, len) {
                Some(iv) => {
                    proof {
                        lemma_digits_val_bound(t);
                        lemma_pow10_monotone(t.len() as nat, MAX_NUMBER_DIGITS as nat);
                    }
                    Some(iv * 1000)
                },
                None => None,
            }
        },
        Some(p) => {
            let ghost ip = t.take(p - start);
            let ghost fp = t.skip(p - start + 1);
            proof {
                assert(ip =~= s@.subrange(start as int, p as int));
                assert(fp =~= s@.subrange(p + 1, len as int));
            }
            if p - start < 1 || p - start > MAX_NUMBER_DIGITS || len - (p + 1) < 1 {
                return None;
            }
            let iv = match digits_value(s, start, p) {
                Some(iv) => iv,
                None => {
                    return None;
                },
            };
            if !all_digits_range(s, p + 1, len) {
                return None;
            }
            let flen = len - (p + 1);
            let m: usize = if flen >= 3 {
                3
            } else {
                flen
            };
            proof {
                assert(spec_all_digits(fp));
                assert(s@.subrange(p + 1, p + 1 + m as int) =~= fp.take(m as int));
                assert(spec_all_digits(fp.take(m as int))) by {
                    assert(forall|i: int|
                        0 <= i < m ==> #[trigger] fp.take(m as int)[i] == fp[i]);
                }
            }
            let dv = match digits_value(s, p + 1, p + 1 + m) {
                Some(dv) => dv,
                None => {
                    proof {
                        assert(false);
                    }
                    return None;
                },
            };
            proof {
                lemma_digits_val_bound(ip);
                lemma_pow10_monotone(ip.len() as nat, MAX_NUMBER_DIGITS as nat);
                lemma_digits_val_bound(fp.take(m as int));
                lemma_pow10_monotone(fp.take(m as int).len() as nat, 3);
            }
            let frac: u64 = if flen == 1 {
                dv * 100
            } else if flen == 2 {
                dv * 10
            } else {
                dv
            };
            proof {
                assert(frac == spec_frac_ms(fp));
            }
            Some(iv * 1000 + frac)
        },
    }
}

/// The boolean denoted by a JSON value's text, if it is one.
pub open spec fn spec_parse_bool(s: Seq<char>) -> Option<bool> {
    if s == "true"@ {
        Some(true)
    } else if s == "false"@ {
        Some(false)
    } else {
        None
    }
}

/// Reads a JSON boolean from a value's text.
pub fn parse_json_bool(s: &str) -> (r: Option<bool>)
    ensures
        r == spec_parse_bool(s@),
{
    if crate::text::str_eq(s, "true") {
        Some(true)
    } else if crate::text::str_eq(s, "false") {
        Some(false)
    } else {
        None
    }
}

/// What a response summary yields for its caller: the `data` text on
/// success, and the player's reported error otherwise. A missing `error`
/// field counts as success, as does the value `success`.
pub open spec fn spec_response_is_success(s: LineSummary) -> bool {
    match s.error {
        None => true,
        Some(m) => m@ == "success"@,
    }
}

/// Interprets a matched response: the player's `data` text on success, or
/// the reported error.
pub fn response_result(summary: LineSummary) -> (r: Result<Option<String>, crate::errors::Error>)
    ensures
        spec_response_is_success(summary) ==> r == Ok::<Option<String>, crate::errors::Error>(
            summary.data,
        ),
        !spec_response_is_success(summary) ==> (r matches Err(
            crate::errors::Error::MpvError(m),
        ) && Some(m) == summary.error),
{
    match summary.error {
        None => Ok(summary.data),
        Some(m) => {
            if crate::text::str_eq(m.as_str(), "success") {
                Ok(summary.data)
            } else {
                Err(crate::errors::Error::MpvError(m))
            }
        },
    }
}

proof fn lemma_pow10_pos(n: nat)
    ensures
        spec_pow10(n) >= 1,
    decreases n,
{
    if n > 0 {
        lemma_pow10_pos((n - 1) as nat);
    }
}

proof fn lemma_pow10_monotone(a: nat, b: nat)
    requires
        a <= b,
    ensures
        1 <= spec_pow10(a) <= spec_pow10(b),
    decreases b,
{
    lemma_pow10_pos(a);
    if a < b {
        lemma_pow10_monotone(a, (b - 1) as nat);
    }
}

} // verus!
