//! The free-elective collector: the passed records that no requirement
//! consumed, one per course key.

use vstd::prelude::*;
use vstd::string::*;
use crate::matching::{credit_prefix, transcript_credit, used_credit, used_prefix};
use crate::models::ParsedCourse;
use crate::text::{decimal, push_decimal};

verus! {

/// Two characters that are equal once ASCII letters are put in one case.
pub open spec fn same_letter(a: char, b: char) -> bool {
    let (x, y) = (a as u32, b as u32);
    ||| x == y
    ||| 97 <= x <= 122 && x == y + 32
    ||| 97 <= y <= 122 && y == x + 32
}

/// Two names that are equal once ASCII letters are put in one case.
pub open spec fn same_name(a: Seq<char>, b: Seq<char>) -> bool {
    a.len() == b.len() && forall|i: int| 0 <= i < a.len() ==> same_letter(#[trigger] a[i], b[i])
}

/// Two records of the same course: equal codes, and names equal but for case.
pub open spec fn same_key(a: ParsedCourse, b: ParsedCourse) -> bool {
    a.code@ == b.code@ && same_name(a.name@, b.name@)
}

/// Record `i` is unused and passed.
pub open spec fn free_candidate(cs: Seq<ParsedCourse>, used: Seq<bool>, i: int) -> bool {
    !used[i] && cs[i].grade.passes()
}

/// Record `i` is a free elective: unused, passed, and no earlier unused
/// passed record has its key.
pub open spec fn counts_as_free(cs: Seq<ParsedCourse>, used: Seq<bool>, i: int) -> bool {
    &&& free_candidate(cs, used, i)
    &&& forall|j: int| 0 <= j < i ==> !(free_candidate(cs, used, j) && #[trigger] same_key(cs[j], cs[i]))
}

/// Transcript credits of the free electives among the first `k` records.
pub open spec fn free_prefix(cs: Seq<ParsedCourse>, used: Seq<bool>, k: nat) -> nat
    decreases k,
{
    if k == 0 || k > cs.len() {
        0
    } else {
        free_prefix(cs, used, (k - 1) as nat) + if counts_as_free(cs, used, k - 1) {
            cs[k - 1].parsed_credit as nat
        } else {
            0
        }
    }
}

/// Transcript credits of all free electives.
pub open spec fn free_credit(cs: Seq<ParsedCourse>, used: Seq<bool>) -> nat {
    free_prefix(cs, used, cs.len())
}

/// A free elective listed as "code (Grade: mark, credits cr)".
pub open spec fn free_label(c: ParsedCourse) -> Seq<char> {
    c.code@ + " (Grade: "@ + c.grade.mark() + ", "@ + decimal(c.parsed_credit as nat) + " cr)"@
}

/// The labels of the free electives among the first `k` records.
pub open spec fn free_labels(cs: Seq<ParsedCourse>, used: Seq<bool>, k: nat) -> Seq<Seq<char>>
    decreases k,
{
    if k == 0 || k > cs.len() {
        Seq::empty()
    } else if counts_as_free(cs, used, k - 1) {
        free_labels(cs, used, (k - 1) as nat).push(free_label(cs[k - 1]))
    } else {
        free_labels(cs, used, (k - 1) as nat)
    }
}

proof fn lemma_free_prefix_bound(cs: Seq<ParsedCourse>, used: Seq<bool>, k: nat)
    requires
        k <= cs.len(),
        used.len() == cs.len(),
    ensures
        free_prefix(cs, used, k) + used_prefix(cs, used, k) <= credit_prefix(cs, k),
    decreases k,
{
    if k > 0 {
        lemma_free_prefix_bound(cs, used, (k - 1) as nat);
    }
}

/// Free electives and used records together never carry more transcript
/// credit than the transcript.
pub proof fn lemma_free_credit_bound(cs: Seq<ParsedCourse>, used: Seq<bool>)
    requires
        used.len() == cs.len(),
    ensures
        free_credit(cs, used) + used_credit(cs, used) <= transcript_credit(cs),
{
    lemma_free_prefix_bound(cs, used, cs.len());
}

fn same_letter_exec(a: char, b: char) -> (r: bool)
    ensures
        r == same_letter(a, b),
{
    let x = a as u32;
    let y = b as u32;
    x == y || (97 <= x && x <= 122 && x == y + 32) || (97 <= y && y <= 122 && y == x + 32)
}

fn same_name_exec(a: &str, b: &str) -> (r: bool)
    ensures
        r == same_name(a@, b@),
{
    let n = a.unicode_len();
    if n != b.unicode_len() {
        return false;
    }
    let mut i: usize = 0;
    while i < n
        invariant
            i <= n,
            n == a@.len(),
            n == b@.len(),
            forall|j: int| 0 <= j < i ==> same_letter(#[trigger] a@[j], b@[j]),
        decreases n - i,
    {
        if !same_letter_exec(a.get_char(i), b.get_char(i)) {
            return false;
        }
        i += 1;
    }
    true
}

/// Whether records `a` and `b` are the same course for free-elective purposes.
pub fn same_key_exec(a: &ParsedCourse, b: &ParsedCourse) -> (r: bool)
    ensures
        r == same_key(*a, *b),
{
    a.code == b.code && same_name_exec(a.name.as_str(), b.name.as_str())
}

/// Flags the records that count as free electives when `used` marks the
/// records consumed by requirements.
pub fn free_elective_flags(courses: &[ParsedCourse], used: &Vec<bool>) -> (r: Vec<bool>)
    requires
        used@.len() == courses@.len(),
    ensures
        r@.len() == courses@.len(),
        forall|i: int| 0 <= i < courses@.len() ==> r@[i] == counts_as_free(courses@, used@, i),
{
    let mut r: Vec<bool> = Vec::new();
    let mut i: usize = 0;
    while i < courses.len()
        invariant
            i <= courses@.len(),
            used@.len() == courses@.len(),
            r@.len() == i,
            forall|k: int| 0 <= k < i ==> r@[k] == counts_as_free(courses@, used@, k),
        decreases courses@.len() - i,
    {
        let mut free = !used[i] && courses[i].grade.is_passing();
        if free {
            let mut j: usize = 0;
            while j < i
                invariant
                    j <= i,
                    i < courses@.len(),
                    used@.len() == courses@.len(),
                    free_candidate(courses@, used@, i as int),
                    free ==> forall|k: int| 0 <= k < j ==> !(free_candidate(courses@, used@, k)
                        && #[trigger] same_key(courses@[k], courses@[i as int])),
                    !free ==> !counts_as_free(courses@, used@, i as int),
                decreases i - j,
            {
                if free && !used[j] && courses[j].grade.is_passing() && same_key_exec(&courses[j], &courses[i]) {
                    free = false;
                }
                j += 1;
            }
        }
        r.push(free);
        i += 1;
    }
    r
}

/// Collects the free electives among the records not flagged in
/// `used_indices`: each unused passed record counts with its transcript
/// credit, unless an earlier one had the same key. Returns their credit total
/// and their labels.
pub fn calculate_free_electives(courses: &[ParsedCourse], used_indices: &Vec<bool>) -> (r: (u64, Vec<String>))
    requires
        used_indices@.len() == courses@.len(),
        transcript_credit(courses@) <= u64::MAX,
    ensures
        r.0 == free_credit(courses@, used_indices@),
        r.1@.map_values(|s: String| s@) == free_labels(courses@, used_indices@, courses@.len()),
{
    let flags = free_elective_flags(courses, used_indices);
    proof {
        lemma_free_credit_bound(courses@, used_indices@);
    }
    let mut total: u64 = 0;
    let mut list: Vec<String> = Vec::new();
    let mut i: usize = 0;
    while i < courses.len()
        invariant
            i <= courses@.len(),
            used_indices@.len() == courses@.len(),
            flags@.len() == courses@.len(),
            forall|k: int| 0 <= k < courses@.len() ==> flags@[k] == counts_as_free(courses@, used_indices@, k),
            total == free_prefix(courses@, used_indices@, i as nat),
            free_credit(courses@, used_indices@) <= u64::MAX,
            list@.map_values(|s: String| s@) == free_labels(courses@, used_indices@, i as nat),
        decreases courses@.len() - i,
    {
        proof {
            lemma_free_prefix_mono(courses@, used_indices@, (i + 1) as nat, courses@.len());
        }
        if flags[i] {
            let c = &courses[i];
            total = total + c.parsed_credit as u64;
            let mut s = c.code.clone();
            s.append(" (Grade: ");
            let mark = c.grade.label();
            s.append(mark.as_str());
            s.append(", ");
            push_decimal(&mut s, c.parsed_credit as u64);
            s.append(" cr)");
            let ghost before = list@;
            list.push(s);
            assert(list@.map_values(|s: String| s@) =~= before.map_values(|s: String| s@).push(s@));
        }
        i += 1;
    }
    (total, list)
}

proof fn lemma_free_prefix_mono(cs: Seq<ParsedCourse>, used: Seq<bool>, a: nat, b: nat)
    requires
        a <= b,
    ensures
        free_prefix(cs, used, a) <= free_prefix(cs, used, b) || b > cs.len(),
    decreases b - a,
{
    if a < b {
        lemma_free_prefix_mono(cs, used, a, (b - 1) as nat);
    }
}

} // verus!
