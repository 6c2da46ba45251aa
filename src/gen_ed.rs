//! The General Education allocator: strands by their selection rule, then
//! the elective sub-categories, then the category-wide summaries.

use vstd::prelude::*;
use vstd::string::*;
use crate::matching::{
    lemma_used_credit_none, transcript_credit, unused_mask, used_credit, Alloc, Allocation,
};
use crate::models::{
    entries, GenEdCurriculum, GenEdElectiveSubCategory, GenEdStrand, GenEdSubGroup, MissingCourse,
    MissingEntry, ParsedCourse, SelectionRule,
};
use crate::rules::{
    apply_require_all, apply_take_each, apply_take_one, apply_take_pair, apply_take_until,
    pick_one, pick_pair, require_all, unmatched_options, take_each, take_one, take_pair, take_until,
};
use crate::text::{
    course_options, course_options_text, credit_amount, pair_options, pair_options_text,
    push_credit_amount, equals_text, starts_with_text,
};

verus! {

/// The category of every General Education entry.
pub open spec fn gen_ed_category() -> Seq<char> {
    "General Education"@
}

/// An allocation with no credits, no entries, and no record consumed.
pub open spec fn fresh(n: nat) -> Alloc {
    Alloc { credits: 0, missing: Seq::empty(), used: Seq::new(n, |i: int| false) }
}

/// One sub-group: its courses in order until its quota is met, and an entry
/// naming the deficit and the options that found no match when it is not.
pub open spec fn sub_group_step(cs: Seq<ParsedCourse>, st: Alloc, strand_name: Seq<char>, g: GenEdSubGroup) -> Alloc {
    let t = take_until(cs, st, g.required_credits as nat, g.courses@, g.courses@.len());
    if t.credits < st.credits + g.required_credits {
        t.report(
            gen_ed_category(),
            strand_name + " > "@ + g.name@ + ": missing "@ + credit_amount(
                (st.credits + g.required_credits - t.credits) as nat,
            ) + " credits (options: "@ + unmatched_options(
                cs,
                st,
                g.required_credits as nat,
                g.courses@,
                g.courses@.len(),
            ) + ")"@,
        )
    } else {
        t
    }
}

/// The first `k` sub-groups of a strand, each on its own.
pub open spec fn sub_groups(cs: Seq<ParsedCourse>, st: Alloc, strand_name: Seq<char>, groups: Seq<GenEdSubGroup>, k: nat) -> Alloc
    decreases k,
{
    if k == 0 || k > groups.len() {
        st
    } else {
        sub_group_step(cs, sub_groups(cs, st, strand_name, groups, (k - 1) as nat), strand_name, groups[k - 1])
    }
}

/// One strand, by its selection rule.
pub open spec fn strand_step(cs: Seq<ParsedCourse>, st: Alloc, s: GenEdStrand) -> Alloc {
    let prefix = s.name@ + ": "@;
    match s.selection_rule {
        SelectionRule::ChooseAll => if s.courses@.len() == 0 {
            st.report(gen_ed_category(), prefix + "no courses listed"@)
        } else {
            require_all(cs, st, gen_ed_category(), prefix, s.courses@, s.courses@.len())
        },
        SelectionRule::ChooseOne => if pick_one(cs, st.used, s.courses@, 0) is Some {
            take_one(cs, st, s.courses@)
        } else {
            st.report(
                gen_ed_category(),
                prefix + "choose 1 ("@ + course_options(s.courses@, s.courses@.len()) + ")"@,
            )
        },
        SelectionRule::ChooseAllSubGroups => if s.sub_groups@.len() == 0 {
            st.report(gen_ed_category(), prefix + "no sub-groups listed"@)
        } else {
            sub_groups(cs, st, s.name@, s.sub_groups@, s.sub_groups@.len())
        },
        SelectionRule::ChooseSequentialPair => if pick_pair(cs, st.used, s.courses@, s.sequence_groups@, 0) is Some {
            take_pair(cs, st, s.courses@, s.sequence_groups@)
        } else {
            st.report(
                gen_ed_category(),
                prefix + "choose one pair ("@ + pair_options(s.sequence_groups@, s.sequence_groups@.len())
                    + ")"@,
            )
        },
    }
}

/// The first `k` strands in order.
pub open spec fn strands(cs: Seq<ParsedCourse>, st: Alloc, ss: Seq<GenEdStrand>, k: nat) -> Alloc
    decreases k,
{
    if k == 0 || k > ss.len() {
        st
    } else {
        strand_step(cs, strands(cs, st, ss, (k - 1) as nat), ss[k - 1])
    }
}

/// One elective sub-category: every listed course once, and an entry when
/// its credits fall short.
pub open spec fn elective_step(cs: Seq<ParsedCourse>, st: Alloc, sub: GenEdElectiveSubCategory) -> Alloc {
    let t = take_each(cs, st, sub.courses@, sub.courses@.len());
    if t.credits < st.credits + sub.required_credits {
        t.report(
            gen_ed_category(),
            "GenEd Elective > "@ + sub.name@ + ": missing "@ + credit_amount(
                (st.credits + sub.required_credits - t.credits) as nat,
            ) + " credits"@,
        )
    } else {
        t
    }
}

/// The first `k` elective sub-categories in order.
pub open spec fn electives(cs: Seq<ParsedCourse>, st: Alloc, subs: Seq<GenEdElectiveSubCategory>, k: nat) -> Alloc
    decreases k,
{
    if k == 0 || k > subs.len() {
        st
    } else {
        elective_step(cs, electives(cs, st, subs, (k - 1) as nat), subs[k - 1])
    }
}

/// How the overall summary entry begins.
pub open spec fn overall_heading() -> Seq<char> {
    "Overall General Education"@
}

/// A General Education entry whose description begins with the overall heading.
pub open spec fn is_overall_summary(m: MissingEntry) -> bool {
    &&& m.category == gen_ed_category()
    &&& overall_heading().len() <= m.description.len()
    &&& m.description.subrange(0, overall_heading().len() as int) == overall_heading()
}

/// Some entry is an overall summary.
pub open spec fn has_overall_summary(ms: Seq<MissingEntry>) -> bool {
    exists|i: int| 0 <= i < ms.len() && is_overall_summary(#[trigger] ms[i])
}

/// The whole General Education allocation: strands, then electives, then an
/// entry when elective credits fall short of the category-wide target, then
/// an overall entry when total credits fall short and no such entry exists.
pub open spec fn gen_ed_outcome(cs: Seq<ParsedCourse>, cur: GenEdCurriculum) -> Alloc {
    let s1 = strands(cs, fresh(cs.len()), cur.strands@, cur.strands@.len());
    let s2 = electives(cs, s1, cur.electives.sub_categories@, cur.electives.sub_categories@.len());
    let earned = s2.credits - s1.credits;
    let s3 = if earned < cur.electives.total_required_credits {
        s2.report(
            gen_ed_category(),
            cur.electives.name@ + ": missing "@ + credit_amount(
                (cur.electives.total_required_credits - earned) as nat,
            ) + " credits"@,
        )
    } else {
        s2
    };
    if s3.credits < cur.total_required_credits && !has_overall_summary(s3.missing) {
        s3.report(
            gen_ed_category(),
            overall_heading() + ": missing "@ + credit_amount(
                (cur.total_required_credits - s3.credits) as nat,
            ) + " credits"@,
        )
    } else {
        s3
    }
}

fn apply_strand(alloc: &mut Allocation, cs: &[ParsedCourse], s: &GenEdStrand)
    requires
        old(alloc)@.wf(cs@, 0),
    ensures
        final(alloc)@ == strand_step(cs@, old(alloc)@, *s),
        final(alloc)@.wf(cs@, 0),
{
    let mut prefix = s.name.clone();
    prefix.append(": ");
    match s.selection_rule {
        SelectionRule::ChooseAll => {
            if s.courses.len() == 0 {
                prefix.append("no courses listed");
                alloc.report(Ghost(cs@), Ghost(0), "General Education", prefix);
            } else {
                apply_require_all(alloc, cs, Ghost(0), "General Education", &prefix, &s.courses);
            }
        },
        SelectionRule::ChooseOne => {
            if !apply_take_one(alloc, cs, Ghost(0), &s.courses) {
                let opts = course_options_text(&s.courses);
                prefix.append("choose 1 (");
                prefix.append(opts.as_str());
                prefix.append(")");
                alloc.report(Ghost(cs@), Ghost(0), "General Education", prefix);
            }
        },
        SelectionRule::ChooseAllSubGroups => {
            if s.sub_groups.len() == 0 {
                prefix.append("no sub-groups listed");
                alloc.report(Ghost(cs@), Ghost(0), "General Education", prefix);
                return;
            }
            let ghost st = alloc@;
            let mut k: usize = 0;
            while k < s.sub_groups.len()
                invariant
                    k <= s.sub_groups@.len(),
                    alloc@ == sub_groups(cs@, st, s.name@, s.sub_groups@, k as nat),
                    alloc@.wf(cs@, 0),
                decreases s.sub_groups@.len() - k,
            {
                apply_sub_group(alloc, cs, &s.name, &s.sub_groups[k]);
                k += 1;
            }
        },
        SelectionRule::ChooseSequentialPair => {
            if !apply_take_pair(alloc, cs, Ghost(0), &s.courses, &s.sequence_groups) {
                let opts = pair_options_text(&s.sequence_groups);
                prefix.append("choose one pair (");
                prefix.append(opts.as_str());
                prefix.append(")");
                alloc.report(Ghost(cs@), Ghost(0), "General Education", prefix);
            }
        },
    }
}

fn apply_sub_group(alloc: &mut Allocation, cs: &[ParsedCourse], strand_name: &String, g: &GenEdSubGroup)
    requires
        old(alloc)@.wf(cs@, 0),
    ensures
        final(alloc)@ == sub_group_step(cs@, old(alloc)@, strand_name@, *g),
        final(alloc)@.wf(cs@, 0),
{
    let start = alloc.credits;
    let opts = apply_take_until(alloc, cs, Ghost(0), g.required_credits, &g.courses);
    let gained = alloc.credits - start;
    if gained < g.required_credits as u64 {
        let mut d = strand_name.clone();
        d.append(" > ");
        d.append(g.name.as_str());
        d.append(": missing ");
        push_credit_amount(&mut d, g.required_credits as u64 - gained);
        d.append(" credits (options: ");
        d.append(opts.as_str());
        d.append(")");
        alloc.report(Ghost(cs@), Ghost(0), "General Education", d);
    }
}

fn apply_elective(alloc: &mut Allocation, cs: &[ParsedCourse], sub: &GenEdElectiveSubCategory)
    requires
        old(alloc)@.wf(cs@, 0),
    ensures
        final(alloc)@ == elective_step(cs@, old(alloc)@, *sub),
        final(alloc)@.wf(cs@, 0),
        final(alloc)@.credits >= old(alloc)@.credits,
{
    let start = alloc.credits;
    apply_take_each(alloc, cs, Ghost(0), &sub.courses);
    let gained = alloc.credits - start;
    if gained < sub.required_credits as u64 {
        let mut d = String::from_str("GenEd Elective > ");
        d.append(sub.name.as_str());
        d.append(": missing ");
        push_credit_amount(&mut d, sub.required_credits as u64 - gained);
        d.append(" credits");
        alloc.report(Ghost(cs@), Ghost(0), "General Education", d);
    }
}

fn any_overall_summary(ms: &Vec<MissingCourse>) -> (r: bool)
    ensures
        r == has_overall_summary(entries(ms@)),
{
    let mut i: usize = 0;
    while i < ms.len()
        invariant
            i <= ms@.len(),
            forall|j: int| 0 <= j < i ==> !is_overall_summary(#[trigger] entries(ms@)[j]),
        decreases ms@.len() - i,
    {
        let m = &ms[i];
        if equals_text(m.category.as_str(), "General Education") && starts_with_text(
            m.description.as_str(),
            "Overall General Education",
        ) {
            assert(is_overall_summary(entries(ms@)[i as int]));
            return true;
        }
        i += 1;
    }
    false
}

/// Allocates records to the General Education curriculum: every strand by its
/// selection rule, then the elective sub-categories, then the summaries.
/// Returns the credits awarded, the missing entries, and which records were
/// consumed.
pub fn audit_gen_ed(courses: &[ParsedCourse], curriculum: &GenEdCurriculum) -> (r: (
    u64,
    Vec<MissingCourse>,
    Vec<bool>,
))
    requires
        transcript_credit(courses@) <= u64::MAX,
    ensures
        (Alloc { credits: r.0 as nat, missing: entries(r.1@), used: r.2@ }) == gen_ed_outcome(
            courses@,
            *curriculum,
        ),
        r.0 <= used_credit(courses@, r.2@),
        r.2@.len() == courses@.len(),
{
    let mask = unused_mask(courses.len());
    proof {
        lemma_used_credit_none(courses@, mask@);
    }
    let mut alloc = Allocation::starting_from(courses, &mask);
    let ghost s0 = alloc@;
    assert(s0 == fresh(courses@.len()));
    let mut k: usize = 0;
    while k < curriculum.strands.len()
        invariant
            k <= curriculum.strands@.len(),
            alloc@ == strands(courses@, s0, curriculum.strands@, k as nat),
            alloc@.wf(courses@, 0),
        decreases curriculum.strands@.len() - k,
    {
        apply_strand(&mut alloc, courses, &curriculum.strands[k]);
        k += 1;
    }
    let ghost s1 = alloc@;
    let after_strands = alloc.credits;
    let subs = &curriculum.electives.sub_categories;
    let mut k: usize = 0;
    while k < subs.len()
        invariant
            k <= subs@.len(),
            alloc@ == electives(courses@, s1, subs@, k as nat),
            alloc@.wf(courses@, 0),
            alloc.credits >= after_strands,
            after_strands == s1.credits,
        decreases subs@.len() - k,
    {
        apply_elective(&mut alloc, courses, &subs[k]);
        k += 1;
    }
    let earned = alloc.credits - after_strands;
    let target = curriculum.electives.total_required_credits as u64;
    if earned < target {
        let mut d = curriculum.electives.name.clone();
        d.append(": missing ");
        push_credit_amount(&mut d, target - earned);
        d.append(" credits");
        alloc.report(Ghost(courses@), Ghost(0), "General Education", d);
    }
    let total = curriculum.total_required_credits as u64;
    if alloc.credits < total && !any_overall_summary(&alloc.missing) {
        let mut d = String::from_str("Overall General Education");
        d.append(": missing ");
        push_credit_amount(&mut d, total - alloc.credits);
        d.append(" credits");
        alloc.report(Ghost(courses@), Ghost(0), "General Education", d);
    }
    (alloc.credits, alloc.missing, alloc.used)
}

} // verus!
