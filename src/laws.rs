//! Properties of the audit, proved over the specifications that the
//! allocators' contracts use.

use vstd::prelude::*;
use crate::audit::{audit_outcome, consumed, free_flags, gen_ed_used, kept, major_used};
use crate::free::{counts_as_free, free_candidate, same_key, same_letter};
use crate::gen_ed::{
    sub_group_step, electives, fresh, gen_ed_category, gen_ed_outcome, strand_step, strands, sub_groups,
};
use crate::major::cluster_shortfall;
use crate::major::{
    cluster_scan, clusters_of, domains_of, major_capstone, major_outcome, major_required, others_of,
    required_list,
};
use crate::matching::{
    award, eligible, first_match, lemma_first_match, lemma_used_credit_mark, lemma_used_credit_none,
    used_credit, Alloc,
};
use crate::models::{
    AuditResult, CurriculumCourse, GenEdCurriculum, GenEdElectiveSubCategory, GenEdStrand,
    GenEdSubGroup, MajorCluster, MajorCurriculum, MajorDomain, MissingEntry, ParsedCourse,
    SelectionRule,
};
use crate::rules::{
    pick_one, pick_pair, require_all, sweep, take_each, take_one, take_pair, take_until,
};

verus! {

proof fn lemma_require_all_len(cs: Seq<ParsedCourse>, st: Alloc, cat: Seq<char>, prefix: Seq<char>, courses: Seq<CurriculumCourse>, k: nat)
    ensures
        require_all(cs, st, cat, prefix, courses, k).used.len() == st.used.len(),
    decreases k,
{
    if k > 0 && k <= courses.len() {
        lemma_require_all_len(cs, st, cat, prefix, courses, (k - 1) as nat);
        lemma_first_match(cs, require_all(cs, st, cat, prefix, courses, (k - 1) as nat).used, courses[k - 1].code@);
    }
}

proof fn lemma_take_each_len(cs: Seq<ParsedCourse>, st: Alloc, courses: Seq<CurriculumCourse>, k: nat)
    ensures
        take_each(cs, st, courses, k).used.len() == st.used.len(),
    decreases k,
{
    if k > 0 && k <= courses.len() {
        lemma_take_each_len(cs, st, courses, (k - 1) as nat);
        lemma_first_match(cs, take_each(cs, st, courses, (k - 1) as nat).used, courses[k - 1].code@);
    }
}

proof fn lemma_take_until_len(cs: Seq<ParsedCourse>, st: Alloc, required: nat, courses: Seq<CurriculumCourse>, k: nat)
    ensures
        take_until(cs, st, required, courses, k).used.len() == st.used.len(),
    decreases k,
{
    if k > 0 && k <= courses.len() {
        lemma_take_until_len(cs, st, required, courses, (k - 1) as nat);
        lemma_first_match(cs, take_until(cs, st, required, courses, (k - 1) as nat).used, courses[k - 1].code@);
    }
}

proof fn lemma_sweep_len(cs: Seq<ParsedCourse>, st: Alloc, c: CurriculumCourse, k: nat)
    ensures
        sweep(cs, st, c, k).used.len() == st.used.len(),
    decreases k,
{
    if k > 0 && k <= cs.len() {
        lemma_sweep_len(cs, st, c, (k - 1) as nat);
    }
}

proof fn lemma_sub_groups_len(cs: Seq<ParsedCourse>, st: Alloc, name: Seq<char>, groups: Seq<GenEdSubGroup>, k: nat)
    ensures
        sub_groups(cs, st, name, groups, k).used.len() == st.used.len(),
    decreases k,
{
    if k > 0 && k <= groups.len() {
        lemma_sub_groups_len(cs, st, name, groups, (k - 1) as nat);
        let s = sub_groups(cs, st, name, groups, (k - 1) as nat);
        let g = groups[k - 1];
        lemma_take_until_len(cs, s, g.required_credits as nat, g.courses@, g.courses@.len());
    }
}

proof fn lemma_strand_len(cs: Seq<ParsedCourse>, st: Alloc, s: GenEdStrand)
    ensures
        strand_step(cs, st, s).used.len() == st.used.len(),
{
    lemma_require_all_len(cs, st, gen_ed_category(), s.name@ + ": "@, s.courses@, s.courses@.len());
    lemma_pick_one(cs, st.used, s.courses@, 0);
    lemma_pick_pair(cs, st.used, s.courses@, s.sequence_groups@, 0);
    lemma_sub_groups_len(cs, st, s.name@, s.sub_groups@, s.sub_groups@.len());
}

proof fn lemma_strands_len(cs: Seq<ParsedCourse>, st: Alloc, ss: Seq<GenEdStrand>, k: nat)
    ensures
        strands(cs, st, ss, k).used.len() == st.used.len(),
    decreases k,
{
    if k > 0 && k <= ss.len() {
        lemma_strands_len(cs, st, ss, (k - 1) as nat);
        lemma_strand_len(cs, strands(cs, st, ss, (k - 1) as nat), ss[k - 1]);
    }
}

proof fn lemma_electives_len(cs: Seq<ParsedCourse>, st: Alloc, subs: Seq<GenEdElectiveSubCategory>, k: nat)
    ensures
        electives(cs, st, subs, k).used.len() == st.used.len(),
    decreases k,
{
    if k > 0 && k <= subs.len() {
        lemma_electives_len(cs, st, subs, (k - 1) as nat);
        let s = electives(cs, st, subs, (k - 1) as nat);
        lemma_take_each_len(cs, s, subs[k - 1].courses@, subs[k - 1].courses@.len());
    }
}

proof fn lemma_gen_ed_len(cs: Seq<ParsedCourse>, g: GenEdCurriculum)
    ensures
        gen_ed_outcome(cs, g).used.len() == cs.len(),
{
    let s0 = fresh(cs.len());
    lemma_strands_len(cs, s0, g.strands@, g.strands@.len());
    let s1 = strands(cs, s0, g.strands@, g.strands@.len());
    lemma_electives_len(cs, s1, g.electives.sub_categories@, g.electives.sub_categories@.len());
}

proof fn lemma_cluster_scan_len(cs: Seq<ParsedCourse>, st: Alloc, courses: Seq<CurriculumCourse>, k: nat)
    ensures
        cluster_scan(cs, st, courses, k).0.used.len() == st.used.len(),
    decreases k,
{
    if k > 0 && k <= courses.len() {
        lemma_cluster_scan_len(cs, st, courses, (k - 1) as nat);
        lemma_first_match(cs, cluster_scan(cs, st, courses, (k - 1) as nat).0.used, courses[k - 1].code@);
    }
}

proof fn lemma_clusters_len(cs: Seq<ParsedCourse>, st: Alloc, cls: Seq<MajorCluster>, k: nat)
    ensures
        clusters_of(cs, st, cls, k).0.used.len() == st.used.len(),
    decreases k,
{
    if k > 0 && k <= cls.len() {
        lemma_clusters_len(cs, st, cls, (k - 1) as nat);
        let s = clusters_of(cs, st, cls, (k - 1) as nat).0;
        lemma_cluster_scan_len(cs, s, cls[k - 1].courses@, cls[k - 1].courses@.len());
    }
}

proof fn lemma_domains_len(cs: Seq<ParsedCourse>, st: Alloc, ds: Seq<MajorDomain>, k: nat)
    ensures
        domains_of(cs, st, ds, k).0.used.len() == st.used.len(),
    decreases k,
{
    if k > 0 && k <= ds.len() {
        lemma_domains_len(cs, st, ds, (k - 1) as nat);
        let s = domains_of(cs, st, ds, (k - 1) as nat).0;
        lemma_clusters_len(cs, s, ds[k - 1].clusters@, ds[k - 1].clusters@.len());
    }
}

proof fn lemma_others_len(cs: Seq<ParsedCourse>, st: Alloc, others: Seq<CurriculumCourse>, k: nat)
    ensures
        others_of(cs, st, others, k).used.len() == st.used.len(),
    decreases k,
{
    if k > 0 && k <= others.len() {
        lemma_others_len(cs, st, others, (k - 1) as nat);
        lemma_sweep_len(cs, others_of(cs, st, others, (k - 1) as nat), others[k - 1], cs.len());
    }
}

proof fn lemma_major_len(cs: Seq<ParsedCourse>, m: MajorCurriculum, excluded: Seq<bool>)
    ensures
        major_outcome(cs, m, excluded).used.len() == excluded.len(),
{
    let s0 = Alloc { credits: 0, missing: Seq::empty(), used: excluded };
    lemma_require_all_len(cs, s0, "Basic Science"@, Seq::empty(), m.basic_science.courses@, m.basic_science.courses@.len());
    let s1 = required_list(cs, s0, "Basic Science"@, m.basic_science.courses@);
    lemma_require_all_len(cs, s1, "Core Courses"@, Seq::empty(), m.core_courses.courses@, m.core_courses.courses@.len());
    let s2 = major_required(cs, m, excluded);
    lemma_pick_one(cs, s2.used, m.capstone.options@, 0);
    let s3 = major_capstone(cs, m, excluded);
    lemma_domains_len(cs, s3, m.electives.domains@, m.electives.domains@.len());
    let (s4, done) = domains_of(cs, s3, m.electives.domains@, m.electives.domains@.len());
    let target = m.electives.clusters_to_complete as nat;
    let s5 = if done < target {
        s4.report("Major Electives"@, cluster_shortfall(target, done))
    } else {
        s4
    };
    lemma_others_len(cs, s5, m.electives.others@, m.electives.others@.len());
}

/// Idempotence: two results that `audit_transcript` returns for the same
/// records and curricula agree in every part, since its contract fixes the
/// result as a function of those inputs.
pub proof fn lemma_audit_idempotent(
    cs: Seq<ParsedCourse>,
    gen_ed: GenEdCurriculum,
    major: MajorCurriculum,
    first: AuditResult,
    second: AuditResult,
)
    requires
        first@ == audit_outcome(cs, gen_ed, major),
        second@ == audit_outcome(cs, gen_ed, major),
    ensures
        first@ == second@,
        first.total_credits == second.total_credits,
        first.categories@.len() == second.categories@.len(),
        first.missing_subjects@.len() == second.missing_subjects@.len(),
{
    assert(first.categories@.len() == first@.categories.len());
    assert(first.missing_subjects@.len() == first@.missing.len());
}

/// At-most-once consumption: no record is in more than one of the General
/// Education set, the major set, and the free electives.
pub proof fn lemma_consumed_at_most_once(cs: Seq<ParsedCourse>, gen_ed: GenEdCurriculum, major: MajorCurriculum, i: int)
    requires
        0 <= i < cs.len(),
    ensures
        gen_ed_used(cs, gen_ed).len() == cs.len(),
        major_used(cs, gen_ed, major).len() == cs.len(),
        !(gen_ed_used(cs, gen_ed)[i] && major_used(cs, gen_ed, major)[i]),
        !(gen_ed_used(cs, gen_ed)[i] && free_flags(cs, consumed(cs, gen_ed, major))[i]),
        !(major_used(cs, gen_ed, major)[i] && free_flags(cs, consumed(cs, gen_ed, major))[i]),
{
    lemma_gen_ed_len(cs, gen_ed);
    lemma_major_len(cs, major, gen_ed_used(cs, gen_ed));
}

/// Credit cap: a structured match earns the lesser of the declared and the
/// transcript credit; in a ChooseAll step that is exactly what is added.
pub proof fn lemma_credit_cap(
    cs: Seq<ParsedCourse>,
    st: Alloc,
    category: Seq<char>,
    prefix: Seq<char>,
    courses: Seq<CurriculumCourse>,
    k: nat,
)
    requires
        0 < k <= courses.len(),
    ensures
        ({
            let before = require_all(cs, st, category, prefix, courses, (k - 1) as nat);
            let after = require_all(cs, st, category, prefix, courses, k);
            let c = courses[k - 1];
            match first_match(cs, before.used, c.code@) {
                Some(i) => after.credits == before.credits + if c.credits <= cs[i as int].parsed_credit {
                    c.credits as nat
                } else {
                    cs[i as int].parsed_credit as nat
                },
                None => after.credits == before.credits,
            }
        }),
        forall|d: u32, p: u32| #[trigger] award(d, p) <= d && award(d, p) <= p && (award(d, p) == d || award(d, p) == p),
{
}

proof fn lemma_pick_one(cs: Seq<ParsedCourse>, used: Seq<bool>, courses: Seq<CurriculumCourse>, k0: nat)
    ensures
        pick_one(cs, used, courses, k0) matches Some((k, i)) ==> k0 <= k < courses.len() && eligible(cs, used, i as int, courses[k as int].code@),
    decreases courses.len() - k0,
{
    if k0 < courses.len() {
        lemma_first_match(cs, used, courses[k0 as int].code@);
        lemma_pick_one(cs, used, courses, k0 + 1);
    }
}

/// ChooseOne awards credit for at most one course: a ChooseOne strand either
/// leaves credits and records as they were, or consumes one eligible record
/// for one listed course.
pub proof fn lemma_choose_one(cs: Seq<ParsedCourse>, st: Alloc, s: GenEdStrand)
    requires
        s.selection_rule == SelectionRule::ChooseOne,
    ensures
        ({
            let t = strand_step(cs, st, s);
            ||| t.credits == st.credits && t.used == st.used
            ||| exists|k: int, i: int|
                0 <= k < s.courses@.len() && #[trigger] eligible(cs, st.used, i, s.courses@[k].code@) && t == st.consume(
                    i as nat,
                    award(s.courses@[k].credits, cs[i].parsed_credit),
                )
        }),
{
    lemma_pick_one(cs, st.used, s.courses@, 0);
}

/// The capstone takes at most one option, under the same rule.
pub proof fn lemma_take_one(cs: Seq<ParsedCourse>, st: Alloc, courses: Seq<CurriculumCourse>)
    ensures
        ({
            let t = take_one(cs, st, courses);
            ||| t == st
            ||| exists|k: int, i: int|
                0 <= k < courses.len() && #[trigger] eligible(cs, st.used, i, courses[k].code@) && t == st.consume(
                    i as nat,
                    award(courses[k].credits, cs[i].parsed_credit),
                )
        }),
{
    lemma_pick_one(cs, st.used, courses, 0);
}

/// ChooseOne within the whole General Education allocation: the strand at
/// position `k`, when its rule is ChooseOne, either leaves credits and records
/// as the earlier strands left them, or consumes one eligible record for one
/// of its courses, adding that course's capped credit.
pub proof fn lemma_gen_ed_choose_one(cs: Seq<ParsedCourse>, cur: GenEdCurriculum, k: int)
    requires
        0 <= k < cur.strands@.len(),
        cur.strands@[k].selection_rule == SelectionRule::ChooseOne,
    ensures
        ({
            let s = cur.strands@[k];
            let before = strands(cs, fresh(cs.len()), cur.strands@, k as nat);
            let after = strands(cs, fresh(cs.len()), cur.strands@, (k + 1) as nat);
            ||| after.credits == before.credits && after.used == before.used
            ||| exists|c: int, i: int|
                0 <= c < s.courses@.len() && #[trigger] eligible(cs, before.used, i, s.courses@[c].code@)
                    && after == before.consume(i as nat, award(s.courses@[c].credits, cs[i].parsed_credit))
        }),
{
    let before = strands(cs, fresh(cs.len()), cur.strands@, k as nat);
    lemma_choose_one(cs, before, cur.strands@[k]);
}

/// The capstone within the whole major allocation: it either leaves credits
/// and records as basic science and core courses left them, or consumes one
/// eligible record for one option, adding that option's capped credit; the
/// major's completed credits are those after the capstone.
pub proof fn lemma_capstone_at_most_one(cs: Seq<ParsedCourse>, m: MajorCurriculum, excluded: Seq<bool>)
    ensures
        ({
            let opts = m.capstone.options@;
            let before = major_required(cs, m, excluded);
            let after = major_capstone(cs, m, excluded);
            &&& major_outcome(cs, m, excluded).completed == after.credits
            &&& {
                ||| after.credits == before.credits && after.used == before.used
                ||| exists|c: int, i: int|
                    0 <= c < opts.len() && #[trigger] eligible(cs, before.used, i, opts[c].code@)
                        && after == before.consume(i as nat, award(opts[c].credits, cs[i].parsed_credit))
            }
        }),
{
    lemma_take_one(cs, major_required(cs, m, excluded), m.capstone.options@);
}

proof fn lemma_pick_pair(cs: Seq<ParsedCourse>, used: Seq<bool>, courses: Seq<CurriculumCourse>, groups: Seq<Vec<String>>, k0: nat)
    ensures
        pick_pair(cs, used, courses, groups, k0) matches Some((ia, ca, ib, cb)) ==> (exists|k: int|
            k0 <= k < groups.len() && #[trigger] groups[k]@.len() == 2 && ia != ib
                && eligible(cs, used, ia as int, groups[k]@[0]@)
                && eligible(cs, used, ib as int, groups[k]@[1]@)) && ca <= cs[ia as int].parsed_credit
            && cb <= cs[ib as int].parsed_credit,
    decreases groups.len() - k0,
{
    if k0 < groups.len() {
        let p = groups[k0 as int]@;
        if p.len() == 2 {
            lemma_first_match(cs, used, p[0]@);
            if let Some(ia) = first_match(cs, used, p[0]@) {
                lemma_first_match(cs, used.update(ia as int, true), p[1]@);
            }
        }
        lemma_pick_pair(cs, used, courses, groups, k0 + 1);
    }
}

/// ChooseSequentialPair awards at most one whole pair, never a lone half: a
/// strand either leaves credits and records as they were, or consumes two
/// distinct eligible records, one for each code of one pair.
pub proof fn lemma_sequential_pair(cs: Seq<ParsedCourse>, st: Alloc, s: GenEdStrand)
    requires
        s.selection_rule == SelectionRule::ChooseSequentialPair,
    ensures
        ({
            let t = strand_step(cs, st, s);
            let groups = s.sequence_groups@;
            ||| t.credits == st.credits && t.used == st.used
            ||| exists|k: int, ia: nat, ca: nat, ib: nat, cb: nat|
                #![trigger groups[k], st.consume(ia, ca).consume(ib, cb)]
                0 <= k < groups.len() && groups[k]@.len() == 2 && ia != ib
                    && eligible(cs, st.used, ia as int, groups[k]@[0]@)
                    && eligible(cs, st.used, ib as int, groups[k]@[1]@)
                    && t == st.consume(ia, ca).consume(ib, cb)
        }),
{
    lemma_pick_pair(cs, st.used, s.courses@, s.sequence_groups@, 0);
}

/// ChooseSequentialPair within the whole General Education allocation: the
/// strand at position `k`, when it is a pair strand, either leaves credits and
/// records as the earlier strands left them, or consumes two distinct eligible
/// records, one for each code of one of its pairs.
pub proof fn lemma_gen_ed_sequential_pair(cs: Seq<ParsedCourse>, cur: GenEdCurriculum, k: int)
    requires
        0 <= k < cur.strands@.len(),
        cur.strands@[k].selection_rule == SelectionRule::ChooseSequentialPair,
    ensures
        ({
            let groups = cur.strands@[k].sequence_groups@;
            let before = strands(cs, fresh(cs.len()), cur.strands@, k as nat);
            let after = strands(cs, fresh(cs.len()), cur.strands@, (k + 1) as nat);
            ||| after.credits == before.credits && after.used == before.used
            ||| exists|g: int, ia: nat, ca: nat, ib: nat, cb: nat|
                #![trigger groups[g], before.consume(ia, ca).consume(ib, cb)]
                0 <= g < groups.len() && groups[g]@.len() == 2 && ia != ib
                    && eligible(cs, before.used, ia as int, groups[g]@[0]@)
                    && eligible(cs, before.used, ib as int, groups[g]@[1]@)
                    && after == before.consume(ia, ca).consume(ib, cb)
        }),
{
    let before = strands(cs, fresh(cs.len()), cur.strands@, k as nat);
    lemma_sequential_pair(cs, before, cur.strands@[k]);
}

proof fn lemma_same_key_equiv(a: ParsedCourse, b: ParsedCourse, c: ParsedCourse)
    ensures
        same_key(a, b) ==> same_key(b, a),
        same_key(a, b) && same_key(b, c) ==> same_key(a, c),
{
    if same_key(a, b) {
        assert forall|i: int| 0 <= i < b.name@.len() implies same_letter(#[trigger] b.name@[i], a.name@[i]) by {
            assert(same_letter(a.name@[i], b.name@[i]));
        }
    }
    if same_key(a, b) && same_key(b, c) {
        assert forall|i: int| 0 <= i < a.name@.len() implies same_letter(#[trigger] a.name@[i], c.name@[i]) by {
            assert(same_letter(a.name@[i], b.name@[i]));
            assert(same_letter(b.name@[i], c.name@[i]));
        }
    }
}

proof fn lemma_some_free_for(cs: Seq<ParsedCourse>, used: Seq<bool>, j: int)
    requires
        0 <= j < cs.len(),
        free_candidate(cs, used, j),
    ensures
        exists|k: int| 0 <= k <= j && counts_as_free(cs, used, k) && #[trigger] same_key(cs[k], cs[j]),
    decreases j,
{
    if !counts_as_free(cs, used, j) {
        let i = choose|i: int| 0 <= i < j && free_candidate(cs, used, i) && #[trigger] same_key(cs[i], cs[j]);
        lemma_some_free_for(cs, used, i);
        let k = choose|k: int| 0 <= k <= i && counts_as_free(cs, used, k) && #[trigger] same_key(cs[k], cs[i]);
        lemma_same_key_equiv(cs[k], cs[i], cs[j]);
        assert(0 <= k <= j && counts_as_free(cs, used, k) && same_key(cs[k], cs[j]));
    } else {
        assert forall|i: int| 0 <= i < cs[j].name@.len() implies same_letter(#[trigger] cs[j].name@[i], cs[j].name@[i]) by {}
        assert(same_key(cs[j], cs[j]));
    }
}

/// Free-elective dedupe: of two unused passed records with the same key, at
/// most one counts, and for each such record some record of its key counts.
pub proof fn lemma_free_dedupe(cs: Seq<ParsedCourse>, used: Seq<bool>, i: int, j: int)
    requires
        0 <= i < j < cs.len(),
        free_candidate(cs, used, i),
        free_candidate(cs, used, j),
        same_key(cs[i], cs[j]),
    ensures
        !counts_as_free(cs, used, j),
        exists|k: int| 0 <= k <= i && counts_as_free(cs, used, k) && #[trigger] same_key(cs[k], cs[j]),
{
    lemma_some_free_for(cs, used, i);
    let k = choose|k: int| 0 <= k <= i && counts_as_free(cs, used, k) && #[trigger] same_key(cs[k], cs[i]);
    lemma_same_key_equiv(cs[k], cs[i], cs[j]);
}

/// Free-elective dedupe, counted: for every unused passed record, exactly one
/// record of its key counts as a free elective.
pub proof fn lemma_free_exactly_one(cs: Seq<ParsedCourse>, used: Seq<bool>, j: int)
    requires
        0 <= j < cs.len(),
        free_candidate(cs, used, j),
    ensures
        exists|k: int| 0 <= k <= j && counts_as_free(cs, used, k) && #[trigger] same_key(cs[k], cs[j]),
        forall|k1: int, k2: int|
            0 <= k1 < cs.len() && 0 <= k2 < cs.len() && counts_as_free(cs, used, k1) && counts_as_free(cs, used, k2)
                && #[trigger] same_key(cs[k1], cs[j]) && #[trigger] same_key(cs[k2], cs[j]) ==> k1 == k2,
{
    lemma_some_free_for(cs, used, j);
    assert forall|k1: int, k2: int|
        0 <= k1 < cs.len() && 0 <= k2 < cs.len() && counts_as_free(cs, used, k1) && counts_as_free(cs, used, k2)
            && #[trigger] same_key(cs[k1], cs[j]) && #[trigger] same_key(cs[k2], cs[j]) implies k1 == k2 by {
        lemma_same_key_equiv(cs[k2], cs[j], cs[k1]);
        lemma_same_key_equiv(cs[k1], cs[j], cs[k2]);
        lemma_same_key_equiv(cs[j], cs[k1], cs[k2]);
        lemma_same_key_equiv(cs[j], cs[k2], cs[k1]);
        lemma_same_key_equiv(cs[k1], cs[k2], cs[j]);
        lemma_same_key_equiv(cs[k2], cs[k1], cs[j]);
        if k1 < k2 {
            assert(same_key(cs[k1], cs[k2]));
            assert(!(free_candidate(cs, used, k1) && same_key(cs[k1], cs[k2])));
        } else if k2 < k1 {
            assert(same_key(cs[k2], cs[k1]));
            assert(!(free_candidate(cs, used, k2) && same_key(cs[k2], cs[k1])));
        }
    }
}

proof fn lemma_kept_drops(ms: Seq<MissingEntry>, k: nat)
    ensures
        forall|i: int| 0 <= i < kept(ms, true, k).len() ==> #[trigger] kept(ms, true, k)[i].category != gen_ed_category(),
    decreases k,
{
    if k > 0 && k <= ms.len() {
        lemma_kept_drops(ms, (k - 1) as nat);
        let prev = kept(ms, true, (k - 1) as nat);
        let cur = kept(ms, true, k);
        assert forall|i: int| 0 <= i < cur.len() implies #[trigger] cur[i].category != gen_ed_category() by {
            if i < prev.len() {
                assert(cur[i] == prev[i]);
            }
        }
    }
}

/// Suppression: once General Education credits reach its required total, no
/// General Education entry remains in the missing list.
pub proof fn lemma_suppression(cs: Seq<ParsedCourse>, gen_ed: GenEdCurriculum, major: MajorCurriculum)
    requires
        gen_ed_outcome(cs, gen_ed).credits >= gen_ed.total_required_credits,
    ensures
        forall|i: int| 0 <= i < audit_outcome(cs, gen_ed, major).missing.len()
            ==> #[trigger] audit_outcome(cs, gen_ed, major).missing[i].category != gen_ed_category(),
{
    let g = gen_ed_outcome(cs, gen_ed);
    let m = major_outcome(cs, major, g.used);
    lemma_kept_drops(g.missing + m.missing, (g.missing.len() + m.missing.len()) as nat);
}

/// From `a` to `b`, an allocation only adds: records consumed in `a` stay
/// consumed, every record newly consumed was passed, credits never go down,
/// and the credits gained never exceed the transcript credits of the records
/// newly consumed.
pub open spec fn grows(cs: Seq<ParsedCourse>, a: Alloc, b: Alloc) -> bool {
    &&& a.used.len() == cs.len()
    &&& b.used.len() == cs.len()
    &&& forall|i: int| 0 <= i < cs.len() && a.used[i] ==> #[trigger] b.used[i]
    &&& forall|i: int| 0 <= i < cs.len() && #[trigger] b.used[i] && !a.used[i] ==> cs[i].grade.passes()
    &&& a.credits <= b.credits
    &&& b.credits + used_credit(cs, a.used) <= a.credits + used_credit(cs, b.used)
}

proof fn lemma_grows_refl(cs: Seq<ParsedCourse>, a: Alloc)
    requires
        a.used.len() == cs.len(),
    ensures
        grows(cs, a, a),
{
}

proof fn lemma_grows_trans(cs: Seq<ParsedCourse>, a: Alloc, b: Alloc, c: Alloc)
    requires
        grows(cs, a, b),
        grows(cs, b, c),
    ensures
        grows(cs, a, c),
{
    assert forall|i: int| 0 <= i < cs.len() && #[trigger] c.used[i] && !a.used[i] implies cs[i].grade.passes() by {
        if b.used[i] {
        }
    }
}

proof fn lemma_grows_consume(cs: Seq<ParsedCourse>, a: Alloc, i: int, credit: nat)
    requires
        a.used.len() == cs.len(),
        0 <= i < cs.len(),
        !a.used[i],
        cs[i].grade.passes(),
        credit <= cs[i].parsed_credit,
    ensures
        grows(cs, a, a.consume(i as nat, credit)),
{
    lemma_used_credit_mark(cs, a.used, i);
}

proof fn lemma_grows_report(cs: Seq<ParsedCourse>, a: Alloc, category: Seq<char>, description: Seq<char>)
    requires
        a.used.len() == cs.len(),
    ensures
        grows(cs, a, a.report(category, description)),
{
}

proof fn lemma_grows_take(cs: Seq<ParsedCourse>, s: Alloc, c: CurriculumCourse)
    requires
        s.used.len() == cs.len(),
    ensures
        first_match(cs, s.used, c.code@) matches Some(i) ==> grows(
            cs,
            s,
            s.consume(i, award(c.credits, cs[i as int].parsed_credit)),
        ),
{
    lemma_first_match(cs, s.used, c.code@);
    if let Some(i) = first_match(cs, s.used, c.code@) {
        lemma_grows_consume(cs, s, i as int, award(c.credits, cs[i as int].parsed_credit));
    }
}

proof fn lemma_require_all_grows(cs: Seq<ParsedCourse>, st: Alloc, cat: Seq<char>, prefix: Seq<char>, courses: Seq<CurriculumCourse>, k: nat)
    requires
        st.used.len() == cs.len(),
    ensures
        grows(cs, st, require_all(cs, st, cat, prefix, courses, k)),
    decreases k,
{
    if k > 0 && k <= courses.len() {
        lemma_require_all_grows(cs, st, cat, prefix, courses, (k - 1) as nat);
        let s = require_all(cs, st, cat, prefix, courses, (k - 1) as nat);
        lemma_grows_take(cs, s, courses[k - 1]);
        lemma_grows_report(cs, s, cat, prefix + crate::text::course_label(courses[k - 1]));
        lemma_grows_trans(cs, st, s, require_all(cs, st, cat, prefix, courses, k));
    } else {
        lemma_grows_refl(cs, st);
    }
}

proof fn lemma_take_each_grows(cs: Seq<ParsedCourse>, st: Alloc, courses: Seq<CurriculumCourse>, k: nat)
    requires
        st.used.len() == cs.len(),
    ensures
        grows(cs, st, take_each(cs, st, courses, k)),
    decreases k,
{
    if k > 0 && k <= courses.len() {
        lemma_take_each_grows(cs, st, courses, (k - 1) as nat);
        let s = take_each(cs, st, courses, (k - 1) as nat);
        lemma_grows_take(cs, s, courses[k - 1]);
        lemma_grows_refl(cs, s);
        lemma_grows_trans(cs, st, s, take_each(cs, st, courses, k));
    } else {
        lemma_grows_refl(cs, st);
    }
}

proof fn lemma_take_until_grows(cs: Seq<ParsedCourse>, st: Alloc, required: nat, courses: Seq<CurriculumCourse>, k: nat)
    requires
        st.used.len() == cs.len(),
    ensures
        grows(cs, st, take_until(cs, st, required, courses, k)),
    decreases k,
{
    if k > 0 && k <= courses.len() {
        lemma_take_until_grows(cs, st, required, courses, (k - 1) as nat);
        let s = take_until(cs, st, required, courses, (k - 1) as nat);
        lemma_grows_take(cs, s, courses[k - 1]);
        lemma_grows_refl(cs, s);
        lemma_grows_trans(cs, st, s, take_until(cs, st, required, courses, k));
    } else {
        lemma_grows_refl(cs, st);
    }
}

proof fn lemma_sweep_grows(cs: Seq<ParsedCourse>, st: Alloc, c: CurriculumCourse, k: nat)
    requires
        st.used.len() == cs.len(),
    ensures
        grows(cs, st, sweep(cs, st, c, k)),
    decreases k,
{
    if k > 0 && k <= cs.len() {
        lemma_sweep_grows(cs, st, c, (k - 1) as nat);
        let s = sweep(cs, st, c, (k - 1) as nat);
        if eligible(cs, s.used, k - 1, c.code@) {
            lemma_grows_consume(cs, s, k - 1, award(c.credits, cs[k - 1].parsed_credit));
        } else {
            lemma_grows_refl(cs, s);
        }
        lemma_grows_trans(cs, st, s, sweep(cs, st, c, k));
    } else {
        lemma_grows_refl(cs, st);
    }
}

proof fn lemma_take_one_grows(cs: Seq<ParsedCourse>, st: Alloc, courses: Seq<CurriculumCourse>)
    requires
        st.used.len() == cs.len(),
    ensures
        grows(cs, st, take_one(cs, st, courses)),
{
    lemma_pick_one(cs, st.used, courses, 0);
    if let Some((k, i)) = pick_one(cs, st.used, courses, 0) {
        lemma_grows_consume(cs, st, i as int, award(courses[k as int].credits, cs[i as int].parsed_credit));
    } else {
        lemma_grows_refl(cs, st);
    }
}

proof fn lemma_take_pair_grows(cs: Seq<ParsedCourse>, st: Alloc, courses: Seq<CurriculumCourse>, groups: Seq<Vec<String>>)
    requires
        st.used.len() == cs.len(),
    ensures
        grows(cs, st, take_pair(cs, st, courses, groups)),
{
    lemma_pick_pair(cs, st.used, courses, groups, 0);
    if let Some((ia, ca, ib, cb)) = pick_pair(cs, st.used, courses, groups, 0) {
        lemma_grows_consume(cs, st, ia as int, ca);
        let s = st.consume(ia, ca);
        lemma_grows_consume(cs, s, ib as int, cb);
        lemma_grows_trans(cs, st, s, s.consume(ib, cb));
    } else {
        lemma_grows_refl(cs, st);
    }
}

proof fn lemma_sub_groups_grows(cs: Seq<ParsedCourse>, st: Alloc, name: Seq<char>, groups: Seq<GenEdSubGroup>, k: nat)
    requires
        st.used.len() == cs.len(),
    ensures
        grows(cs, st, sub_groups(cs, st, name, groups, k)),
    decreases k,
{
    if k > 0 && k <= groups.len() {
        lemma_sub_groups_grows(cs, st, name, groups, (k - 1) as nat);
        let s = sub_groups(cs, st, name, groups, (k - 1) as nat);
        let g = groups[k - 1];
        lemma_take_until_grows(cs, s, g.required_credits as nat, g.courses@, g.courses@.len());
        let t = take_until(cs, s, g.required_credits as nat, g.courses@, g.courses@.len());
        let u = sub_group_step(cs, s, name, g);
        if u != t {
            lemma_grows_report(cs, t, u.missing.last().category, u.missing.last().description);
            assert(u == t.report(u.missing.last().category, u.missing.last().description));
            lemma_grows_trans(cs, s, t, u);
        }
        lemma_grows_trans(cs, st, s, u);
    } else {
        lemma_grows_refl(cs, st);
    }
}

proof fn lemma_strand_grows(cs: Seq<ParsedCourse>, st: Alloc, s: GenEdStrand)
    requires
        st.used.len() == cs.len(),
    ensures
        grows(cs, st, strand_step(cs, st, s)),
{
    let t = strand_step(cs, st, s);
    match s.selection_rule {
        SelectionRule::ChooseAll => {
            lemma_require_all_grows(cs, st, gen_ed_category(), s.name@ + ": "@, s.courses@, s.courses@.len());
        },
        SelectionRule::ChooseOne => {
            lemma_take_one_grows(cs, st, s.courses@);
            lemma_grows_report(cs, st, t.missing.last().category, t.missing.last().description);
        },
        SelectionRule::ChooseAllSubGroups => {
            lemma_sub_groups_grows(cs, st, s.name@, s.sub_groups@, s.sub_groups@.len());
        },
        SelectionRule::ChooseSequentialPair => {
            lemma_take_pair_grows(cs, st, s.courses@, s.sequence_groups@);
            lemma_grows_report(cs, st, t.missing.last().category, t.missing.last().description);
        },
    }
}

proof fn lemma_strands_grows(cs: Seq<ParsedCourse>, st: Alloc, ss: Seq<GenEdStrand>, k: nat)
    requires
        st.used.len() == cs.len(),
    ensures
        grows(cs, st, strands(cs, st, ss, k)),
    decreases k,
{
    if k > 0 && k <= ss.len() {
        lemma_strands_grows(cs, st, ss, (k - 1) as nat);
        let s = strands(cs, st, ss, (k - 1) as nat);
        lemma_strand_grows(cs, s, ss[k - 1]);
        lemma_grows_trans(cs, st, s, strands(cs, st, ss, k));
    } else {
        lemma_grows_refl(cs, st);
    }
}

proof fn lemma_electives_grows(cs: Seq<ParsedCourse>, st: Alloc, subs: Seq<GenEdElectiveSubCategory>, k: nat)
    requires
        st.used.len() == cs.len(),
    ensures
        grows(cs, st, electives(cs, st, subs, k)),
    decreases k,
{
    if k > 0 && k <= subs.len() {
        lemma_electives_grows(cs, st, subs, (k - 1) as nat);
        let s = electives(cs, st, subs, (k - 1) as nat);
        let sub = subs[k - 1];
        lemma_take_each_grows(cs, s, sub.courses@, sub.courses@.len());
        let t = take_each(cs, s, sub.courses@, sub.courses@.len());
        let u = electives(cs, st, subs, k);
        if u != t {
            lemma_grows_report(cs, t, u.missing.last().category, u.missing.last().description);
            assert(u == t.report(u.missing.last().category, u.missing.last().description));
            lemma_grows_trans(cs, s, t, u);
        }
        lemma_grows_trans(cs, st, s, u);
    } else {
        lemma_grows_refl(cs, st);
    }
}

/// Consumption by the whole General Education allocation: it consumes only
/// passed records, and its credits never exceed the transcript credits of the
/// records it consumed.
pub proof fn lemma_gen_ed_consumption(cs: Seq<ParsedCourse>, cur: GenEdCurriculum)
    ensures
        grows(cs, fresh(cs.len()), gen_ed_outcome(cs, cur)),
        gen_ed_outcome(cs, cur).credits <= used_credit(cs, gen_ed_outcome(cs, cur).used),
{
    let s0 = fresh(cs.len());
    lemma_used_credit_none(cs, s0.used);
    lemma_strands_grows(cs, s0, cur.strands@, cur.strands@.len());
    let s1 = strands(cs, s0, cur.strands@, cur.strands@.len());
    lemma_electives_grows(cs, s1, cur.electives.sub_categories@, cur.electives.sub_categories@.len());
    let s2 = electives(cs, s1, cur.electives.sub_categories@, cur.electives.sub_categories@.len());
    lemma_grows_trans(cs, s0, s1, s2);
    let out = gen_ed_outcome(cs, cur);
    assert(out.used == s2.used && out.credits == s2.credits);
}

proof fn lemma_cluster_scan_grows(cs: Seq<ParsedCourse>, st: Alloc, courses: Seq<CurriculumCourse>, k: nat)
    requires
        st.used.len() == cs.len(),
    ensures
        grows(cs, st, cluster_scan(cs, st, courses, k).0),
    decreases k,
{
    if k > 0 && k <= courses.len() {
        lemma_cluster_scan_grows(cs, st, courses, (k - 1) as nat);
        let s = cluster_scan(cs, st, courses, (k - 1) as nat).0;
        lemma_grows_take(cs, s, courses[k - 1]);
        lemma_grows_refl(cs, s);
        lemma_grows_trans(cs, st, s, cluster_scan(cs, st, courses, k).0);
    } else {
        lemma_grows_refl(cs, st);
    }
}

proof fn lemma_clusters_grows(cs: Seq<ParsedCourse>, st: Alloc, cls: Seq<MajorCluster>, k: nat)
    requires
        st.used.len() == cs.len(),
    ensures
        grows(cs, st, clusters_of(cs, st, cls, k).0),
    decreases k,
{
    if k > 0 && k <= cls.len() {
        lemma_clusters_grows(cs, st, cls, (k - 1) as nat);
        let s = clusters_of(cs, st, cls, (k - 1) as nat).0;
        lemma_cluster_scan_grows(cs, s, cls[k - 1].courses@, cls[k - 1].courses@.len());
        lemma_grows_trans(cs, st, s, clusters_of(cs, st, cls, k).0);
    } else {
        lemma_grows_refl(cs, st);
    }
}

proof fn lemma_domains_grows(cs: Seq<ParsedCourse>, st: Alloc, ds: Seq<MajorDomain>, k: nat)
    requires
        st.used.len() == cs.len(),
    ensures
        grows(cs, st, domains_of(cs, st, ds, k).0),
    decreases k,
{
    if k > 0 && k <= ds.len() {
        lemma_domains_grows(cs, st, ds, (k - 1) as nat);
        let s = domains_of(cs, st, ds, (k - 1) as nat).0;
        lemma_clusters_grows(cs, s, ds[k - 1].clusters@, ds[k - 1].clusters@.len());
        lemma_grows_trans(cs, st, s, domains_of(cs, st, ds, k).0);
    } else {
        lemma_grows_refl(cs, st);
    }
}

proof fn lemma_others_grows(cs: Seq<ParsedCourse>, st: Alloc, others: Seq<CurriculumCourse>, k: nat)
    requires
        st.used.len() == cs.len(),
    ensures
        grows(cs, st, others_of(cs, st, others, k)),
    decreases k,
{
    if k > 0 && k <= others.len() {
        lemma_others_grows(cs, st, others, (k - 1) as nat);
        let s = others_of(cs, st, others, (k - 1) as nat);
        lemma_sweep_grows(cs, s, others[k - 1], cs.len());
        lemma_grows_trans(cs, st, s, others_of(cs, st, others, k));
    } else {
        lemma_grows_refl(cs, st);
    }
}

/// Consumption by the whole major allocation: records excluded stay
/// consumed, every record it newly consumes was passed, and its credits
/// (completed plus electives) never exceed the transcript credits of the
/// records it newly consumed.
pub proof fn lemma_major_consumption(cs: Seq<ParsedCourse>, m: MajorCurriculum, excluded: Seq<bool>)
    requires
        excluded.len() == cs.len(),
    ensures
        ({
            let o = major_outcome(cs, m, excluded);
            &&& o.used.len() == cs.len()
            &&& forall|i: int| 0 <= i < cs.len() && excluded[i] ==> #[trigger] o.used[i]
            &&& forall|i: int| 0 <= i < cs.len() && #[trigger] o.used[i] && !excluded[i] ==> cs[i].grade.passes()
            &&& o.completed + o.electives + used_credit(cs, excluded) <= used_credit(cs, o.used)
        }),
{
    let s0 = Alloc { credits: 0, missing: Seq::empty(), used: excluded };
    lemma_require_all_grows(cs, s0, "Basic Science"@, Seq::empty(), m.basic_science.courses@, m.basic_science.courses@.len());
    let s1 = required_list(cs, s0, "Basic Science"@, m.basic_science.courses@);
    lemma_require_all_grows(cs, s1, "Core Courses"@, Seq::empty(), m.core_courses.courses@, m.core_courses.courses@.len());
    let s2 = major_required(cs, m, excluded);
    lemma_grows_trans(cs, s0, s1, s2);
    lemma_take_one_grows(cs, s2, m.capstone.options@);
    let s3 = major_capstone(cs, m, excluded);
    assert(grows(cs, s2, s3));
    lemma_grows_trans(cs, s0, s2, s3);
    lemma_domains_grows(cs, s3, m.electives.domains@, m.electives.domains@.len());
    let (s4, done) = domains_of(cs, s3, m.electives.domains@, m.electives.domains@.len());
    lemma_grows_trans(cs, s0, s3, s4);
    let target = m.electives.clusters_to_complete as nat;
    let s5 = if done < target {
        s4.report("Major Electives"@, cluster_shortfall(target, done))
    } else {
        s4
    };
    assert(grows(cs, s0, s5));
    lemma_others_grows(cs, s5, m.electives.others@, m.electives.others@.len());
    let s6 = others_of(cs, s5, m.electives.others@, m.electives.others@.len());
    lemma_grows_trans(cs, s0, s5, s6);
    lemma_grows_trans(cs, s3, s5, s6);
}

} // verus!
