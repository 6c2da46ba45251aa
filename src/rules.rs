//! The selection rules that requirements apply to the record pool: every
//! course, the first course found, a credit quota, every course once, every
//! matching record, and one whole pair.

use vstd::prelude::*;
use crate::matching::{
    award, eligible, find_unused, first_match, index_of, lemma_first_match,
    matched_course_credits, Alloc, Allocation,
};
use crate::models::{CurriculumCourse, ParsedCourse};
use crate::text::{course_label, course_label_text, or_join, push_option};

verus! {

/// Every one of the first `k` courses: each takes its first match, and each
/// course without one is reported under `category` as `prefix` followed by
/// "code - name".
pub open spec fn require_all(
    cs: Seq<ParsedCourse>,
    st: Alloc,
    category: Seq<char>,
    prefix: Seq<char>,
    courses: Seq<CurriculumCourse>,
    k: nat,
) -> Alloc
    decreases k,
{
    if k == 0 || k > courses.len() {
        st
    } else {
        let s = require_all(cs, st, category, prefix, courses, (k - 1) as nat);
        let c = courses[k - 1];
        match first_match(cs, s.used, c.code@) {
            Some(i) => s.consume(i, award(c.credits, cs[i as int].parsed_credit)),
            None => s.report(category, prefix + course_label(c)),
        }
    }
}

/// Each of the first `k` courses takes its first match, if it has one.
pub open spec fn take_each(cs: Seq<ParsedCourse>, st: Alloc, courses: Seq<CurriculumCourse>, k: nat) -> Alloc
    decreases k,
{
    if k == 0 || k > courses.len() {
        st
    } else {
        let s = take_each(cs, st, courses, (k - 1) as nat);
        let c = courses[k - 1];
        match first_match(cs, s.used, c.code@) {
            Some(i) => s.consume(i, award(c.credits, cs[i as int].parsed_credit)),
            None => s,
        }
    }
}

/// The first `k` courses in order, each taking its first match, until the
/// credits gained since `start` reach `required`.
pub open spec fn take_until(
    cs: Seq<ParsedCourse>,
    start: Alloc,
    required: nat,
    courses: Seq<CurriculumCourse>,
    k: nat,
) -> Alloc
    decreases k,
{
    if k == 0 || k > courses.len() {
        start
    } else {
        let s = take_until(cs, start, required, courses, (k - 1) as nat);
        let c = courses[k - 1];
        if s.credits >= start.credits + required {
            s
        } else {
            match first_match(cs, s.used, c.code@) {
                Some(i) => s.consume(i, award(c.credits, cs[i as int].parsed_credit)),
                None => s,
            }
        }
    }
}

/// The labels of the first `k` courses that `take_until` tried and found no
/// match for, joined by "OR".
pub open spec fn unmatched_options(
    cs: Seq<ParsedCourse>,
    start: Alloc,
    required: nat,
    courses: Seq<CurriculumCourse>,
    k: nat,
) -> Seq<char>
    decreases k,
{
    if k == 0 || k > courses.len() {
        Seq::empty()
    } else {
        let prev = unmatched_options(cs, start, required, courses, (k - 1) as nat);
        let s = take_until(cs, start, required, courses, (k - 1) as nat);
        let c = courses[k - 1];
        if s.credits < start.credits + required && first_match(cs, s.used, c.code@) is None {
            or_join(prev, course_label(c))
        } else {
            prev
        }
    }
}

/// The first course at position `k` or later that has a match, with the
/// record it matches.
pub open spec fn pick_one(cs: Seq<ParsedCourse>, used: Seq<bool>, courses: Seq<CurriculumCourse>, k: nat) -> Option<(nat, nat)>
    decreases courses.len() - k,
{
    if k >= courses.len() {
        None
    } else {
        match first_match(cs, used, courses[k as int].code@) {
            Some(i) => Some((k, i)),
            None => pick_one(cs, used, courses, k + 1),
        }
    }
}

/// One course out of a list: the first one listed that has a match.
pub open spec fn take_one(cs: Seq<ParsedCourse>, st: Alloc, courses: Seq<CurriculumCourse>) -> Alloc {
    match pick_one(cs, st.used, courses, 0) {
        Some((k, i)) => st.consume(i, award(courses[k as int].credits, cs[i as int].parsed_credit)),
        None => st,
    }
}

/// Every record from the first `k` that is eligible under `c` when reached.
pub open spec fn sweep(cs: Seq<ParsedCourse>, st: Alloc, c: CurriculumCourse, k: nat) -> Alloc
    decreases k,
{
    if k == 0 || k > cs.len() {
        st
    } else {
        let s = sweep(cs, st, c, (k - 1) as nat);
        if eligible(cs, s.used, k - 1, c.code@) {
            s.consume((k - 1) as nat, award(c.credits, cs[k - 1].parsed_credit))
        } else {
            s
        }
    }
}

/// The position of the first course that carries `code`.
pub open spec fn course_position(courses: Seq<CurriculumCourse>, code: Seq<char>, k: nat) -> Option<nat>
    decreases courses.len() - k,
{
    if k >= courses.len() {
        None
    } else if courses[k as int].code@ == code {
        Some(k)
    } else {
        course_position(courses, code, k + 1)
    }
}

/// A pair `p` matched: the records taken by its two codes, and the credit of
/// each. Each code must be a course of `courses` and have a match; the second
/// code's match is sought once the first code's record is taken.
pub open spec fn pair_match(cs: Seq<ParsedCourse>, used: Seq<bool>, courses: Seq<CurriculumCourse>, p: Seq<String>) -> Option<(nat, nat, nat, nat)> {
    if p.len() != 2 {
        None
    } else {
        match (course_position(courses, p[0]@, 0), course_position(courses, p[1]@, 0)) {
            (Some(da), Some(db)) => match first_match(cs, used, p[0]@) {
                Some(ia) => match first_match(cs, used.update(ia as int, true), p[1]@) {
                    Some(ib) => Some(
                        (
                            ia,
                            award(courses[da as int].credits, cs[ia as int].parsed_credit),
                            ib,
                            award(courses[db as int].credits, cs[ib as int].parsed_credit),
                        ),
                    ),
                    None => None,
                },
                None => None,
            },
            _ => None,
        }
    }
}

/// The first pair at position `k` or later that matches.
pub open spec fn pick_pair(
    cs: Seq<ParsedCourse>,
    used: Seq<bool>,
    courses: Seq<CurriculumCourse>,
    groups: Seq<Vec<String>>,
    k: nat,
) -> Option<(nat, nat, nat, nat)>
    decreases groups.len() - k,
{
    if k >= groups.len() {
        None
    } else {
        match pair_match(cs, used, courses, groups[k as int]@) {
            Some(m) => Some(m),
            None => pick_pair(cs, used, courses, groups, k + 1),
        }
    }
}

/// The first pair that matches, with both of its records taken.
pub open spec fn take_pair(cs: Seq<ParsedCourse>, st: Alloc, courses: Seq<CurriculumCourse>, groups: Seq<Vec<String>>) -> Alloc {
    match pick_pair(cs, st.used, courses, groups, 0) {
        Some((ia, ca, ib, cb)) => st.consume(ia, ca).consume(ib, cb),
        None => st,
    }
}

/// Applies `require_all` to every course of `courses`.
pub fn apply_require_all(
    alloc: &mut Allocation,
    cs: &[ParsedCourse],
    Ghost(base): Ghost<nat>,
    category: &str,
    prefix: &String,
    courses: &Vec<CurriculumCourse>,
)
    requires
        old(alloc)@.wf(cs@, base),
    ensures
        final(alloc)@ == require_all(cs@, old(alloc)@, category@, prefix@, courses@, courses@.len()),
        final(alloc)@.wf(cs@, base),
{
    let ghost st = alloc@;
    let mut k: usize = 0;
    while k < courses.len()
        invariant
            k <= courses@.len(),
            alloc@ == require_all(cs@, st, category@, prefix@, courses@, k as nat),
            alloc@.wf(cs@, base),
        decreases courses@.len() - k,
    {
        let c = &courses[k];
        match find_unused(cs, &alloc.used, &c.code) {
            Some(i) => {
                proof {
                    lemma_first_match(cs@, alloc.used@, c.code@);
                }
                let credit = matched_course_credits(c.credits, &cs[i]);
                alloc.consume(Ghost(cs@), Ghost(base), i, credit);
            },
            None => {
                let mut d = prefix.clone();
                let label = course_label_text(c);
                d.append(label.as_str());
                alloc.report(Ghost(cs@), Ghost(base), category, d);
            },
        }
        k += 1;
    }
}

/// Applies `take_each` to every course of `courses`.
pub fn apply_take_each(alloc: &mut Allocation, cs: &[ParsedCourse], Ghost(base): Ghost<nat>, courses: &Vec<CurriculumCourse>)
    requires
        old(alloc)@.wf(cs@, base),
    ensures
        final(alloc)@ == take_each(cs@, old(alloc)@, courses@, courses@.len()),
        final(alloc)@.wf(cs@, base),
        final(alloc)@.credits >= old(alloc)@.credits,
{
    let ghost st = alloc@;
    let mut k: usize = 0;
    while k < courses.len()
        invariant
            k <= courses@.len(),
            alloc@ == take_each(cs@, st, courses@, k as nat),
            alloc@.wf(cs@, base),
            alloc@.credits >= st.credits,
        decreases courses@.len() - k,
    {
        let c = &courses[k];
        if let Some(i) = find_unused(cs, &alloc.used, &c.code) {
            proof {
                lemma_first_match(cs@, alloc.used@, c.code@);
            }
            let credit = matched_course_credits(c.credits, &cs[i]);
            alloc.consume(Ghost(cs@), Ghost(base), i, credit);
        }
        k += 1;
    }
}

/// Applies `take_until` to every course of `courses`; returns the labels of
/// the courses tried without a match.
pub fn apply_take_until(
    alloc: &mut Allocation,
    cs: &[ParsedCourse],
    Ghost(base): Ghost<nat>,
    required: u32,
    courses: &Vec<CurriculumCourse>,
) -> (unmatched: String)
    requires
        old(alloc)@.wf(cs@, base),
    ensures
        final(alloc)@ == take_until(cs@, old(alloc)@, required as nat, courses@, courses@.len()),
        final(alloc)@.wf(cs@, base),
        final(alloc)@.credits >= old(alloc)@.credits,
        unmatched@ == unmatched_options(cs@, old(alloc)@, required as nat, courses@, courses@.len()),
{
    let ghost st = alloc@;
    let start = alloc.credits;
    let mut unmatched = String::new();
    let mut k: usize = 0;
    while k < courses.len()
        invariant
            k <= courses@.len(),
            start == st.credits,
            alloc@ == take_until(cs@, st, required as nat, courses@, k as nat),
            alloc@.wf(cs@, base),
            alloc.credits >= start,
            unmatched@ == unmatched_options(cs@, st, required as nat, courses@, k as nat),
        decreases courses@.len() - k,
    {
        let c = &courses[k];
        if alloc.credits - start < required as u64 {
            match find_unused(cs, &alloc.used, &c.code) {
                Some(i) => {
                    proof {
                        lemma_first_match(cs@, alloc.used@, c.code@);
                    }
                    let credit = matched_course_credits(c.credits, &cs[i]);
                    alloc.consume(Ghost(cs@), Ghost(base), i, credit);
                },
                None => {
                    let label = course_label_text(c);
                    push_option(&mut unmatched, &label);
                },
            }
        }
        k += 1;
    }
    unmatched
}

/// Applies `take_one`; tells whether a course was taken.
pub fn apply_take_one(alloc: &mut Allocation, cs: &[ParsedCourse], Ghost(base): Ghost<nat>, courses: &Vec<CurriculumCourse>) -> (found: bool)
    requires
        old(alloc)@.wf(cs@, base),
    ensures
        final(alloc)@ == take_one(cs@, old(alloc)@, courses@),
        found == pick_one(cs@, old(alloc)@.used, courses@, 0) is Some,
        final(alloc)@.wf(cs@, base),
{
    let mut k: usize = 0;
    while k < courses.len()
        invariant
            k <= courses@.len(),
            alloc@ == old(alloc)@,
            alloc@.wf(cs@, base),
            pick_one(cs@, alloc@.used, courses@, k as nat) == pick_one(cs@, alloc@.used, courses@, 0),
        decreases courses@.len() - k,
    {
        let c = &courses[k];
        if let Some(i) = find_unused(cs, &alloc.used, &c.code) {
            proof {
                lemma_first_match(cs@, alloc.used@, c.code@);
            }
            let credit = matched_course_credits(c.credits, &cs[i]);
            alloc.consume(Ghost(cs@), Ghost(base), i, credit);
            return true;
        }
        k += 1;
    }
    false
}

/// Applies `sweep` over every record.
pub fn apply_sweep(alloc: &mut Allocation, cs: &[ParsedCourse], Ghost(base): Ghost<nat>, c: &CurriculumCourse)
    requires
        old(alloc)@.wf(cs@, base),
    ensures
        final(alloc)@ == sweep(cs@, old(alloc)@, *c, cs@.len()),
        final(alloc)@.wf(cs@, base),
        final(alloc)@.credits >= old(alloc)@.credits,
{
    let ghost st = alloc@;
    let mut j: usize = 0;
    while j < cs.len()
        invariant
            j <= cs@.len(),
            alloc@ == sweep(cs@, st, *c, j as nat),
            alloc@.wf(cs@, base),
            alloc@.credits >= st.credits,
        decreases cs@.len() - j,
    {
        if !alloc.used[j] && cs[j].code == c.code && cs[j].grade.is_passing() {
            let credit = matched_course_credits(c.credits, &cs[j]);
            alloc.consume(Ghost(cs@), Ghost(base), j, credit);
        }
        j += 1;
    }
}

fn course_position_exec(courses: &Vec<CurriculumCourse>, code: &String) -> (r: Option<usize>)
    ensures
        index_of(r) == course_position(courses@, code@, 0),
        r matches Some(d) ==> d < courses@.len(),
{
    let mut k: usize = 0;
    while k < courses.len()
        invariant
            k <= courses@.len(),
            course_position(courses@, code@, k as nat) == course_position(courses@, code@, 0),
        decreases courses@.len() - k,
    {
        if courses[k].code == *code {
            return Some(k);
        }
        k += 1;
    }
    None
}

proof fn lemma_course_position(courses: Seq<CurriculumCourse>, code: Seq<char>, k: nat)
    ensures
        course_position(courses, code, k) matches Some(d) ==> d < courses.len(),
    decreases courses.len() - k,
{
    if k < courses.len() && courses[k as int].code@ != code {
        lemma_course_position(courses, code, k + 1);
    }
}

/// Applies `take_pair`; tells whether a pair was taken.
pub fn apply_take_pair(
    alloc: &mut Allocation,
    cs: &[ParsedCourse],
    Ghost(base): Ghost<nat>,
    courses: &Vec<CurriculumCourse>,
    groups: &Vec<Vec<String>>,
) -> (found: bool)
    requires
        old(alloc)@.wf(cs@, base),
    ensures
        final(alloc)@ == take_pair(cs@, old(alloc)@, courses@, groups@),
        found == pick_pair(cs@, old(alloc)@.used, courses@, groups@, 0) is Some,
        final(alloc)@.wf(cs@, base),
{
    let mut k: usize = 0;
    while k < groups.len()
        invariant
            k <= groups@.len(),
            alloc@ == old(alloc)@,
            alloc@.wf(cs@, base),
            pick_pair(cs@, alloc@.used, courses@, groups@, k as nat) == pick_pair(
                cs@,
                alloc@.used,
                courses@,
                groups@,
                0,
            ),
        decreases groups@.len() - k,
    {
        let p = &groups[k];
        if p.len() == 2 {
            let da = course_position_exec(courses, &p[0]);
            let db = course_position_exec(courses, &p[1]);
            if let (Some(da), Some(db)) = (da, db) {
                if let Some(ia) = find_unused(cs, &alloc.used, &p[0]) {
                    proof {
                        lemma_first_match(cs@, alloc.used@, p[0]@);
                    }
                    let ca = matched_course_credits(courses[da].credits, &cs[ia]);
                    alloc.consume(Ghost(cs@), Ghost(base), ia, ca);
                    if let Some(ib) = find_unused(cs, &alloc.used, &p[1]) {
                        proof {
                            lemma_first_match(cs@, alloc.used@, p[1]@);
                        }
                        let cb = matched_course_credits(courses[db].credits, &cs[ib]);
                        alloc.consume(Ghost(cs@), Ghost(base), ib, cb);
                        return true;
                    }
                    alloc.used.set(ia, false);
                    alloc.credits = alloc.credits - ca as u64;
                    proof {
                        assert(alloc.used@ =~= old(alloc)@.used);
                    }
                }
            }
        }
        k += 1;
    }
    false
}

} // verus!
