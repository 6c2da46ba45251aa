//! The major allocator: basic science and core courses, the capstone, the
//! elective clusters of every domain, and the repeatable "others" bucket.

use vstd::prelude::*;
use vstd::string::*;
use crate::matching::{
    award, find_unused, first_match, lemma_first_match, matched_course_credits, passed_anywhere,
    passed_in_transcript, transcript_credit, used_credit, Alloc, Allocation,
};
use crate::models::{
    entries, CurriculumCourse, MajorCluster, MajorCurriculum, MajorDomain, MissingCourse,
    MissingEntry, ParsedCourse,
};
use crate::rules::{apply_require_all, apply_sweep, apply_take_one, pick_one, require_all, sweep, take_one};
use crate::text::{capstone_options, capstone_options_text, decimal, push_decimal};

verus! {

/// The first `k` courses of a cluster, each taking its first match; the count
/// of courses passed anywhere in the transcript, consumed or not.
pub open spec fn cluster_scan(cs: Seq<ParsedCourse>, st: Alloc, courses: Seq<CurriculumCourse>, k: nat) -> (Alloc, nat)
    decreases k,
{
    if k == 0 || k > courses.len() {
        (st, 0)
    } else {
        let (s, n) = cluster_scan(cs, st, courses, (k - 1) as nat);
        let c = courses[k - 1];
        match first_match(cs, s.used, c.code@) {
            Some(i) => (s.consume(i, award(c.credits, cs[i as int].parsed_credit)), n + 1),
            None => if passed_anywhere(cs, c.code@) {
                (s, n + 1)
            } else {
                (s, n)
            },
        }
    }
}

/// A cluster is completed when at least `min_courses` of its courses were passed.
pub open spec fn cluster_step(cs: Seq<ParsedCourse>, st: Alloc, cl: MajorCluster) -> (Alloc, bool) {
    let (t, found) = cluster_scan(cs, st, cl.courses@, cl.courses@.len());
    (t, found >= cl.min_courses)
}

/// The first `k` clusters; the count of completed ones.
pub open spec fn clusters_of(cs: Seq<ParsedCourse>, st: Alloc, cls: Seq<MajorCluster>, k: nat) -> (Alloc, nat)
    decreases k,
{
    if k == 0 || k > cls.len() {
        (st, 0)
    } else {
        let (s, done) = clusters_of(cs, st, cls, (k - 1) as nat);
        let (t, complete) = cluster_step(cs, s, cls[k - 1]);
        (t, if complete { done + 1 } else { done })
    }
}

/// The clusters of the first `k` domains; the count of completed ones.
pub open spec fn domains_of(cs: Seq<ParsedCourse>, st: Alloc, ds: Seq<MajorDomain>, k: nat) -> (Alloc, nat)
    decreases k,
{
    if k == 0 || k > ds.len() {
        (st, 0)
    } else {
        let (s, done) = domains_of(cs, st, ds, (k - 1) as nat);
        let (t, more) = clusters_of(cs, s, ds[k - 1].clusters@, ds[k - 1].clusters@.len());
        (t, done + more)
    }
}

/// Every eligible record for each of the first `k` "other" courses.
pub open spec fn others_of(cs: Seq<ParsedCourse>, st: Alloc, others: Seq<CurriculumCourse>, k: nat) -> Alloc
    decreases k,
{
    if k == 0 || k > others.len() {
        st
    } else {
        sweep(cs, others_of(cs, st, others, (k - 1) as nat), others[k - 1], cs.len())
    }
}

/// The cluster summary entry: the target and the count completed.
pub open spec fn cluster_shortfall(required: nat, completed: nat) -> Seq<char> {
    "Required: "@ + decimal(required) + " Clusters, Completed: "@ + decimal(completed)
        + ". Please complete all courses within at least "@ + decimal(required) + " clusters."@
}

/// What the major allocation yields.
pub struct MajorOutcome {
    /// Credits from basic science, core courses, and the capstone.
    pub completed: nat,
    /// Credits from clusters and "others".
    pub electives: nat,
    pub missing: Seq<MissingEntry>,
    /// Every consumed record, the excluded ones included.
    pub used: Seq<bool>,
}

/// A list of required courses under `category`: every course, each reported
/// when it has no match; a list without courses is reported as such.
pub open spec fn required_list(cs: Seq<ParsedCourse>, st: Alloc, category: Seq<char>, courses: Seq<CurriculumCourse>) -> Alloc {
    if courses.len() == 0 {
        st.report(category, "no courses listed"@)
    } else {
        require_all(cs, st, category, Seq::empty(), courses, courses.len())
    }
}

/// Basic science and core courses, every one required, over the records not
/// in `excluded`.
pub open spec fn major_required(cs: Seq<ParsedCourse>, cur: MajorCurriculum, excluded: Seq<bool>) -> Alloc {
    let s0 = Alloc { credits: 0, missing: Seq::empty(), used: excluded };
    let s1 = required_list(cs, s0, "Basic Science"@, cur.basic_science.courses@);
    required_list(cs, s1, "Core Courses"@, cur.core_courses.courses@)
}

/// Then the capstone: the first option that has a match, or one entry
/// listing all options.
pub open spec fn major_capstone(cs: Seq<ParsedCourse>, cur: MajorCurriculum, excluded: Seq<bool>) -> Alloc {
    let s2 = major_required(cs, cur, excluded);
    let options = cur.capstone.options@;
    if pick_one(cs, s2.used, options, 0) is Some {
        take_one(cs, s2, options)
    } else {
        s2.report("Capstone"@, "Choose 1: "@ + capstone_options(options, options.len()))
    }
}

/// The whole major allocation over the records not in `excluded`.
pub open spec fn major_outcome(cs: Seq<ParsedCourse>, cur: MajorCurriculum, excluded: Seq<bool>) -> MajorOutcome {
    let s3 = major_capstone(cs, cur, excluded);
    let (s4, done) = domains_of(cs, s3, cur.electives.domains@, cur.electives.domains@.len());
    let target = cur.electives.clusters_to_complete as nat;
    let s5 = if done < target {
        s4.report("Major Electives"@, cluster_shortfall(target, done))
    } else {
        s4
    };
    let s6 = others_of(cs, s5, cur.electives.others@, cur.electives.others@.len());
    MajorOutcome { completed: s3.credits, electives: (s6.credits - s3.credits) as nat, missing: s6.missing, used: s6.used }
}

/// The records flagged in `after` but not in `before`.
pub open spec fn newly_used(before: Seq<bool>, after: Seq<bool>) -> Seq<bool> {
    Seq::new(after.len(), |i: int| after[i] && !before[i])
}

fn apply_required_list(
    alloc: &mut Allocation,
    cs: &[ParsedCourse],
    Ghost(base): Ghost<nat>,
    category: &str,
    courses: &Vec<CurriculumCourse>,
)
    requires
        old(alloc)@.wf(cs@, base),
    ensures
        final(alloc)@ == required_list(cs@, old(alloc)@, category@, courses@),
        final(alloc)@.wf(cs@, base),
{
    if courses.len() == 0 {
        alloc.report(Ghost(cs@), Ghost(base), category, String::from_str("no courses listed"));
    } else {
        let empty = String::new();
        apply_require_all(alloc, cs, Ghost(base), category, &empty, courses);
    }
}

fn apply_cluster(alloc: &mut Allocation, cs: &[ParsedCourse], Ghost(base): Ghost<nat>, cl: &MajorCluster) -> (found: usize)
    requires
        old(alloc)@.wf(cs@, base),
    ensures
        (final(alloc)@, found as nat) == cluster_scan(cs@, old(alloc)@, cl.courses@, cl.courses@.len()),
        final(alloc)@.wf(cs@, base),
        final(alloc)@.credits >= old(alloc)@.credits,
{
    let ghost st = alloc@;
    let mut found: usize = 0;
    let mut k: usize = 0;
    while k < cl.courses.len()
        invariant
            k <= cl.courses@.len(),
            found <= k,
            (alloc@, found as nat) == cluster_scan(cs@, st, cl.courses@, k as nat),
            alloc@.wf(cs@, base),
            alloc@.credits >= st.credits,
        decreases cl.courses@.len() - k,
    {
        let c = &cl.courses[k];
        match find_unused(cs, &alloc.used, &c.code) {
            Some(i) => {
                proof {
                    lemma_first_match(cs@, alloc.used@, c.code@);
                }
                let credit = matched_course_credits(c.credits, &cs[i]);
                alloc.consume(Ghost(cs@), Ghost(base), i, credit);
                found += 1;
            },
            None => {
                if passed_in_transcript(cs, &c.code) {
                    found += 1;
                }
            },
        }
        k += 1;
    }
    found
}

/// Counts completed clusters of `ds`, capped at `cap`.
fn apply_domains(alloc: &mut Allocation, cs: &[ParsedCourse], Ghost(base): Ghost<nat>, ds: &Vec<MajorDomain>, cap: u32) -> (done: u32)
    requires
        old(alloc)@.wf(cs@, base),
    ensures
        ({
            let (t, n) = domains_of(cs@, old(alloc)@, ds@, ds@.len());
            final(alloc)@ == t && done as nat == if n < cap { n } else { cap as nat }
        }),
        final(alloc)@.wf(cs@, base),
        final(alloc)@.credits >= old(alloc)@.credits,
{
    let ghost st = alloc@;
    let mut done: u32 = 0;
    let mut d: usize = 0;
    while d < ds.len()
        invariant
            d <= ds@.len(),
            ({
                let (t, n) = domains_of(cs@, st, ds@, d as nat);
                alloc@ == t && done as nat == if n < cap { n } else { cap as nat }
            }),
            alloc@.wf(cs@, base),
            alloc@.credits >= st.credits,
        decreases ds@.len() - d,
    {
        let cls = &ds[d].clusters;
        let ghost before = alloc@;
        let ghost done_before = domains_of(cs@, st, ds@, d as nat).1;
        let mut k: usize = 0;
        while k < cls.len()
            invariant
                d < ds@.len(),
                cls == ds@[d as int].clusters,
                k <= cls@.len(),
                ({
                    let (t, n) = clusters_of(cs@, before, cls@, k as nat);
                    alloc@ == t && done as nat == if done_before + n < cap {
                        done_before + n
                    } else {
                        cap as nat
                    }
                }),
                alloc@.wf(cs@, base),
                alloc@.credits >= st.credits,
            decreases cls@.len() - k,
        {
            let cl = &cls[k];
            let found = apply_cluster(alloc, cs, Ghost(base), cl);
            if found as u64 >= cl.min_courses as u64 && done < cap {
                done += 1;
            }
            k += 1;
        }
        d += 1;
    }
    done
}

/// Allocates the records not flagged in `gen_ed_used` to the major
/// curriculum. Returns the credits from basic science, core courses and the
/// capstone; the elective credits; the missing entries; and which records
/// this allocation consumed.
pub fn audit_major(courses: &[ParsedCourse], curriculum: &MajorCurriculum, gen_ed_used: &Vec<bool>) -> (r: (
    u64,
    u64,
    Vec<MissingCourse>,
    Vec<bool>,
))
    requires
        gen_ed_used@.len() == courses@.len(),
        transcript_credit(courses@) <= u64::MAX,
    ensures
        ({
            let o = major_outcome(courses@, *curriculum, gen_ed_used@);
            &&& r.0 as nat == o.completed
            &&& r.1 as nat == o.electives
            &&& entries(r.2@) == o.missing
            &&& r.3@ == newly_used(gen_ed_used@, o.used)
            &&& o.used.len() == courses@.len()
            &&& r.0 + r.1 + used_credit(courses@, gen_ed_used@) <= used_credit(courses@, o.used)
        }),
{
    let ghost base = used_credit(courses@, gen_ed_used@);
    let mut alloc = Allocation::starting_from(courses, gen_ed_used);
    apply_required_list(&mut alloc, courses, Ghost(base), "Basic Science", &curriculum.basic_science.courses);
    apply_required_list(&mut alloc, courses, Ghost(base), "Core Courses", &curriculum.core_courses.courses);
    let options = &curriculum.capstone.options;
    if !apply_take_one(&mut alloc, courses, Ghost(base), options) {
        let mut d = String::from_str("Choose 1: ");
        let opts = capstone_options_text(options);
        d.append(opts.as_str());
        alloc.report(Ghost(courses@), Ghost(base), "Capstone", d);
    }
    let completed = alloc.credits;
    let ghost s3 = alloc@;
    let target = curriculum.electives.clusters_to_complete;
    let done = apply_domains(&mut alloc, courses, Ghost(base), &curriculum.electives.domains, target);
    if done < target {
        let mut d = String::from_str("Required: ");
        push_decimal(&mut d, target as u64);
        d.append(" Clusters, Completed: ");
        push_decimal(&mut d, done as u64);
        d.append(". Please complete all courses within at least ");
        push_decimal(&mut d, target as u64);
        d.append(" clusters.");
        alloc.report(Ghost(courses@), Ghost(base), "Major Electives", d);
    }
    let ghost s5 = alloc@;
    let others = &curriculum.electives.others;
    let mut k: usize = 0;
    while k < others.len()
        invariant
            k <= others@.len(),
            alloc@ == others_of(courses@, s5, others@, k as nat),
            alloc@.wf(courses@, base),
            alloc.credits >= completed,
        decreases others@.len() - k,
    {
        apply_sweep(&mut alloc, courses, Ghost(base), &others[k]);
        k += 1;
    }
    let electives = alloc.credits - completed;
    let mut mine: Vec<bool> = Vec::new();
    let mut i: usize = 0;
    while i < courses.len()
        invariant
            i <= courses@.len(),
            alloc.used@.len() == courses@.len(),
            gen_ed_used@.len() == courses@.len(),
            mine@ == newly_used(gen_ed_used@, alloc.used@).take(i as int),
        decreases courses@.len() - i,
    {
        mine.push(alloc.used[i] && !gen_ed_used[i]);
        i += 1;
        assert(mine@ =~= newly_used(gen_ed_used@, alloc.used@).take(i as int));
    }
    assert(mine@ =~= newly_used(gen_ed_used@, alloc.used@));
    (completed, electives, alloc.missing, mine)
}

} // verus!
