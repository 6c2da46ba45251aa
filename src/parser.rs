//! Reading course records out of transcript text: each line that the line
//! pattern matches becomes one record.

use vstd::prelude::*;
use vstd::string::*;
use crate::models::{grade_of, Grade, ParsedCourse, RecordView};
use crate::text::{decimal, push_decimal, starts_with_text, equals_text};

verus! {

/// What the line pattern captures on a transcript: every successive match,
/// each as its groups in order (group 0 is the whole match).
pub uninterp spec fn regex_captures(pattern: Seq<char>, text: Seq<char>) -> Seq<Seq<Seq<char>>>;

/// Whether a pattern compiles.
pub uninterp spec fn pattern_compiles(pattern: Seq<char>) -> bool;

/// A character of the Unicode White_Space property.
pub open spec fn is_white_space(c: char) -> bool {
    let x = c as u32;
    ||| 9 <= x <= 13
    ||| x == 32
    ||| x == 0x85
    ||| x == 0xa0
    ||| x == 0x1680
    ||| 0x2000 <= x <= 0x200a
    ||| x == 0x2028
    ||| x == 0x2029
    ||| x == 0x202f
    ||| x == 0x205f
    ||| x == 0x3000
}

/// The first position at or after `k` that does not hold white space.
pub open spec fn text_start(s: Seq<char>, k: nat) -> nat
    decreases s.len() - k,
{
    if k < s.len() && is_white_space(s[k as int]) {
        text_start(s, k + 1)
    } else {
        k
    }
}

/// The end of `s` up to `k`, without the white space that ends it, going
/// no lower than `lo`.
pub open spec fn text_end(s: Seq<char>, k: nat, lo: nat) -> nat
    decreases k,
{
    if k > lo && k <= s.len() && is_white_space(s[k - 1]) {
        text_end(s, (k - 1) as nat, lo)
    } else {
        k
    }
}

/// `s` without its leading and trailing white space.
pub open spec fn trimmed(s: Seq<char>) -> Seq<char> {
    let a = text_start(s, 0);
    s.subrange(a as int, text_end(s, s.len(), a) as int)
}

/// The groups of every row, as text.
pub open spec fn rows_view(rows: Seq<Vec<String>>) -> Seq<Seq<Seq<char>>> {
    rows.map_values(|row: Vec<String>| row@.map_values(|s: String| s@))
}

/// Relies on `regex::Regex::new`, which fails exactly on a pattern that does
/// not compile, and on `Regex::captures_iter` with `Captures::iter`, which
/// yield every successive non-overlapping match with its groups; a group that
/// took no part reads as empty text.
#[verifier::external_body]
fn find_captures(pattern: &str, text: &str) -> (r: Option<Vec<Vec<String>>>)
    ensures
        r is Some <==> pattern_compiles(pattern@),
        r matches Some(rows) ==> rows_view(rows@) == regex_captures(pattern@, text@),
{
    let re = regex::Regex::new(pattern).ok()?;
    Some(re.captures_iter(text).map(|c| {
        c.iter().map(|m| m.map_or(String::new(), |m| m.as_str().to_string())).collect()
    }).collect())
}

fn white_space(c: char) -> (r: bool)
    ensures
        r == is_white_space(c),
{
    let x = c as u32;
    (9 <= x && x <= 13) || x == 32 || x == 0x85 || x == 0xa0 || x == 0x1680 || (0x2000 <= x && x
        <= 0x200a) || x == 0x2028 || x == 0x2029 || x == 0x202f || x == 0x205f || x == 0x3000
}

/// `s` without its leading and trailing white space.
pub fn trim_text(s: &str) -> (r: String)
    ensures
        r@ == trimmed(s@),
{
    let n = s.unicode_len();
    let mut a: usize = 0;
    while a < n && white_space(s.get_char(a))
        invariant
            a <= n,
            n == s@.len(),
            text_start(s@, a as nat) == text_start(s@, 0),
        decreases n - a,
    {
        a += 1;
    }
    let mut b: usize = n;
    while b > a && white_space(s.get_char(b - 1))
        invariant
            a <= b <= n,
            n == s@.len(),
            text_start(s@, 0) == a,
            text_end(s@, b as nat, a as nat) == text_end(s@, n as nat, a as nat),
        decreases b,
    {
        b -= 1;
    }
    String::from_str(s.substring_char(a, b))
}

/// A transcript line: code, name, section, credits, and grade.
pub const TRANSCRIPT_LINE_PATTERN: &'static str = "([A-Z0-9]{3}-\\d{3}[A-Z]?\\d*[A-Z]?)\\s+([A-Z\\s:()&]+?)\\s+(\\d+)\\s+(\\d+)\\s+([A-D][+]?|[FWPSUG])";

/// An ASCII letter.
pub open spec fn is_letter(c: char) -> bool {
    65 <= (c as u32) <= 90 || 97 <= (c as u32) <= 122
}

/// The position of the first ASCII letter at or after `k`.
pub open spec fn first_letter(s: Seq<char>, k: nat) -> Option<nat>
    decreases s.len() - k,
{
    if k >= s.len() {
        None
    } else if is_letter(s[k as int]) {
        Some(k)
    } else {
        first_letter(s, k + 1)
    }
}

/// A course code without a section suffix: when the first letter comes at
/// position 7 or later, only the first seven characters are kept.
pub open spec fn normalized_code(raw: Seq<char>) -> Seq<char> {
    match first_letter(raw, 0) {
        Some(p) => if p >= 7 {
            raw.take(7)
        } else {
            raw
        },
        None => raw,
    }
}

/// Special-topics codes: "344-49" followed by anything but 1 to 5 alone.
pub open spec fn is_special_topic(code: Seq<char>) -> bool {
    &&& 6 <= code.len()
    &&& code.take(6) == "344-49"@
    &&& code != "344-491"@
    &&& code != "344-492"@
    &&& code != "344-493"@
    &&& code != "344-494"@
    &&& code != "344-495"@
}

/// An ASCII decimal digit.
pub open spec fn is_digit(c: char) -> bool {
    48 <= (c as u32) <= 57
}

/// The value of the first `k` digits of `s`.
pub open spec fn numeral_value(s: Seq<char>, k: nat) -> nat
    decreases k,
{
    if k == 0 || k > s.len() {
        0
    } else {
        numeral_value(s, (k - 1) as nat) * 10 + ((s[k - 1] as u32) - 48) as nat
    }
}

/// Credits read from the credit field: its value when it is a decimal
/// numeral that fits in `u32`, else 3.
pub open spec fn credit_of(s: Seq<char>) -> nat {
    if 0 < s.len() && (forall|i: int| 0 <= i < s.len() ==> is_digit(#[trigger] s[i]))
        && numeral_value(s, s.len()) <= u32::MAX {
        numeral_value(s, s.len())
    } else {
        3
    }
}

/// How many of the first `k` records carry `code`.
pub open spec fn code_count(recs: Seq<RecordView>, code: Seq<char>, k: nat) -> nat
    decreases k,
{
    if k == 0 || k > recs.len() {
        0
    } else {
        code_count(recs, code, (k - 1) as nat) + if recs[k - 1].code == code {
            1nat
        } else {
            0
        }
    }
}

/// The record for one row, given the records before it. A special-topics
/// record is numbered by its occurrences so far: "NAME (Topic n)".
pub open spec fn record_of(row: Seq<Seq<char>>, before: Seq<RecordView>) -> RecordView {
    let code = normalized_code(row[1]);
    let name = trimmed(row[2]);
    RecordView {
        code,
        name: if is_special_topic(code) {
            name + " (Topic "@ + decimal(code_count(before, code, before.len()) + 1) + ")"@
        } else {
            name
        },
        grade: grade_of(row[5]),
        credit: credit_of(row[4]),
    }
}

/// The records of the first `k` rows; a row with fewer than six groups is skipped.
pub open spec fn records_of(rows: Seq<Seq<Seq<char>>>, k: nat) -> Seq<RecordView>
    decreases k,
{
    if k == 0 || k > rows.len() {
        Seq::empty()
    } else {
        let before = records_of(rows, (k - 1) as nat);
        if rows[k - 1].len() >= 6 {
            before.push(record_of(rows[k - 1], before))
        } else {
            before
        }
    }
}

fn normalize_code(raw: &str) -> (r: String)
    ensures
        r@ == normalized_code(raw@),
{
    let n = raw.unicode_len();
    let mut k: usize = 0;
    while k < n
        invariant
            k <= n,
            n == raw@.len(),
            first_letter(raw@, k as nat) == first_letter(raw@, 0),
        decreases n - k,
    {
        let c = raw.get_char(k);
        let x = c as u32;
        if (65 <= x && x <= 90) || (97 <= x && x <= 122) {
            if k >= 7 {
                return String::from_str(raw.substring_char(0, 7));
            }
            return String::from_str(raw);
        }
        k += 1;
    }
    String::from_str(raw)
}

fn special_topic(code: &str) -> (r: bool)
    ensures
        r == is_special_topic(code@),
{
    proof {
        reveal_strlit("344-49");
    }
    if code.unicode_len() < 6 || !starts_with_text(code, "344-49") {
        return false;
    }
    assert(code@.subrange(0, 6) == code@.take(6));
    !(equals_text(code, "344-491") || equals_text(code, "344-492") || equals_text(code, "344-493")
        || equals_text(code, "344-494") || equals_text(code, "344-495"))
}

proof fn lemma_numeral_grows(s: Seq<char>, k: nat)
    requires
        0 < k <= s.len(),
    ensures
        numeral_value(s, (k - 1) as nat) <= numeral_value(s, k),
{
}

proof fn lemma_numeral_mono(s: Seq<char>, a: nat, b: nat)
    requires
        a <= b <= s.len(),
    ensures
        numeral_value(s, a) <= numeral_value(s, b),
    decreases b - a,
{
    if a < b {
        lemma_numeral_mono(s, a, (b - 1) as nat);
        lemma_numeral_grows(s, b);
    }
}

fn read_credit(s: &str) -> (r: u32)
    ensures
        r == credit_of(s@),
{
    let n = s.unicode_len();
    if n == 0 {
        return 3;
    }
    let mut value: u64 = 0;
    let mut k: usize = 0;
    while k < n
        invariant
            k <= n,
            n == s@.len(),
            value == numeral_value(s@, k as nat),
            value <= u32::MAX,
            forall|i: int| 0 <= i < k ==> is_digit(#[trigger] s@[i]),
        decreases n - k,
    {
        let c = s.get_char(k);
        let d = c as u32;
        if d < 48 || d > 57 {
            return 3;
        }
        value = value * 10 + (d - 48) as u64;
        if value > 0xffff_ffff {
            proof {
                lemma_numeral_mono(s@, (k + 1) as nat, n as nat);
            }
            return 3;
        }
        k += 1;
    }
    value as u32
}

/// Builds the records from captured rows, in order: the code normalized, the
/// name trimmed and numbered for special topics, the grade classified, and
/// the credit field read.
pub fn courses_from_captures(rows: &Vec<Vec<String>>) -> (r: Vec<ParsedCourse>)
    ensures
        r@.map_values(|c: ParsedCourse| c@) == records_of(rows_view(rows@), rows@.len()),
{
    let ghost rv = rows_view(rows@);
    let mut out: Vec<ParsedCourse> = Vec::new();
    let mut k: usize = 0;
    while k < rows.len()
        invariant
            k <= rows@.len(),
            rv == rows_view(rows@),
            out@.len() <= k,
            out@.map_values(|c: ParsedCourse| c@) == records_of(rv, k as nat),
        decreases rows@.len() - k,
    {
        let row = &rows[k];
        assert(rv[k as int] == row@.map_values(|s: String| s@));
        if row.len() >= 6 {
            let ghost before = out@.map_values(|c: ParsedCourse| c@);
            let code = normalize_code(row[1].as_str());
            let mut name = trim_text(row[2].as_str());
            if special_topic(code.as_str()) {
                let mut seen: u64 = 0;
                let mut j: usize = 0;
                while j < out.len()
                    invariant
                        j <= out@.len(),
                        out@.len() <= k,
                        k < rows@.len(),
                        before == out@.map_values(|c: ParsedCourse| c@),
                        seen == code_count(before, code@, j as nat),
                        seen <= j,
                    decreases out@.len() - j,
                {
                    if out[j].code == code {
                        seen += 1;
                    }
                    j += 1;
                }
                name.append(" (Topic ");
                push_decimal(&mut name, seen + 1);
                name.append(")");
            }
            let grade = Grade::from_mark(row[5].as_str());
            let credit = read_credit(row[4].as_str());
            let rec = ParsedCourse { code, name, grade, parsed_credit: credit };
            out.push(rec);
            assert(out@.map_values(|c: ParsedCourse| c@) =~= before.push(rec@));
        }
        k += 1;
        assert(out@.map_values(|c: ParsedCourse| c@) == records_of(rv, k as nat));
    }
    out
}

/// Parses transcript text into course records, one for each match of the
/// transcript line pattern.
pub fn parse_transcript(text: &str) -> (r: Vec<ParsedCourse>)
    ensures
        pattern_compiles(TRANSCRIPT_LINE_PATTERN@) ==> r@.map_values(|c: ParsedCourse| c@)
            == records_of(
            regex_captures(TRANSCRIPT_LINE_PATTERN@, text@),
            regex_captures(TRANSCRIPT_LINE_PATTERN@, text@).len(),
        ),
        !pattern_compiles(TRANSCRIPT_LINE_PATTERN@) ==> r@.len() == 0,
{
    match find_captures(TRANSCRIPT_LINE_PATTERN, text) {
        Some(rows) => courses_from_captures(&rows),
        None => Vec::new(),
    }
}

} // verus!
