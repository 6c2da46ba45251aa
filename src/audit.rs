//! The result aggregator: runs the three allocators in order and assembles
//! totals, display buckets, and the missing-requirement list.

use vstd::prelude::*;
use vstd::string::*;
use crate::free::{
    calculate_free_electives, counts_as_free, free_credit, free_elective_flags,
    lemma_free_credit_bound,
};
use crate::gen_ed::{audit_gen_ed, gen_ed_category, gen_ed_outcome};
use crate::major::{audit_major, major_outcome, newly_used};
use crate::matching::{transcript_credit, used_prefix};
use crate::models::{
    entries, AuditResult, Category, Course, GenEdCurriculum, Grade, MajorCurriculum,
    MissingCourse, MissingEntry, ParsedCourse,
};
use crate::text::equals_text;

verus! {

/// The credit target of the free-elective category.
pub const FREE_ELECTIVE_CREDITS: u32 = 6;

/// What a listed record shows.
pub struct CourseEntry {
    pub code: Seq<char>,
    pub name: Seq<char>,
    pub credit: nat,
    pub grade: Grade,
}

impl View for Course {
    type V = CourseEntry;

    open spec fn view(&self) -> CourseEntry {
        CourseEntry { code: self.code@, name: self.name@, credit: self.credit as nat, grade: self.grade }
    }
}

/// What a result category shows.
pub struct CategoryEntry {
    pub name: Seq<char>,
    pub required: nat,
    pub collected: nat,
    pub courses: Seq<CourseEntry>,
}

impl View for Category {
    type V = CategoryEntry;

    open spec fn view(&self) -> CategoryEntry {
        CategoryEntry {
            name: self.name@,
            required: self.required_credits as nat,
            collected: self.collected_credits as nat,
            courses: self.courses@.map_values(|c: Course| c@),
        }
    }
}

/// What an audit result shows.
pub struct AuditOutcome {
    pub total: nat,
    pub categories: Seq<CategoryEntry>,
    pub missing: Seq<MissingEntry>,
}

impl View for AuditResult {
    type V = AuditOutcome;

    open spec fn view(&self) -> AuditOutcome {
        AuditOutcome {
            total: self.total_credits as nat,
            categories: self.categories@.map_values(|c: Category| c@),
            missing: entries(self.missing_subjects@),
        }
    }
}

/// How a record is listed in a category.
pub open spec fn listed(c: ParsedCourse) -> CourseEntry {
    CourseEntry { code: c.code@, name: c.name@, credit: c.parsed_credit as nat, grade: c.grade }
}

/// The flagged records among the first `k`, in transcript order.
pub open spec fn bucket(cs: Seq<ParsedCourse>, flags: Seq<bool>, k: nat) -> Seq<CourseEntry>
    decreases k,
{
    if k == 0 || k > cs.len() {
        Seq::empty()
    } else if flags[k - 1] {
        bucket(cs, flags, (k - 1) as nat).push(listed(cs[k - 1]))
    } else {
        bucket(cs, flags, (k - 1) as nat)
    }
}

/// The first `k` entries, without the General Education ones when `suppress`.
pub open spec fn kept(ms: Seq<MissingEntry>, suppress: bool, k: nat) -> Seq<MissingEntry>
    decreases k,
{
    if k == 0 || k > ms.len() {
        Seq::empty()
    } else if suppress && ms[k - 1].category == gen_ed_category() {
        kept(ms, suppress, (k - 1) as nat)
    } else {
        kept(ms, suppress, (k - 1) as nat).push(ms[k - 1])
    }
}

/// Records flagged in either mask.
pub open spec fn union(a: Seq<bool>, b: Seq<bool>) -> Seq<bool> {
    Seq::new(a.len(), |i: int| a[i] || b[i])
}

/// The records that count as free electives.
pub open spec fn free_flags(cs: Seq<ParsedCourse>, used: Seq<bool>) -> Seq<bool> {
    Seq::new(cs.len(), |i: int| counts_as_free(cs, used, i))
}

/// The records the General Education allocator consumed.
pub open spec fn gen_ed_used(cs: Seq<ParsedCourse>, gen_ed: GenEdCurriculum) -> Seq<bool> {
    gen_ed_outcome(cs, gen_ed).used
}

/// The records the major allocator consumed.
pub open spec fn major_used(cs: Seq<ParsedCourse>, gen_ed: GenEdCurriculum, major: MajorCurriculum) -> Seq<bool> {
    let g = gen_ed_used(cs, gen_ed);
    newly_used(g, major_outcome(cs, major, g).used)
}

/// The records that structured requirements consumed.
pub open spec fn consumed(cs: Seq<ParsedCourse>, gen_ed: GenEdCurriculum, major: MajorCurriculum) -> Seq<bool> {
    union(gen_ed_used(cs, gen_ed), major_used(cs, gen_ed, major))
}

/// The audit: General Education first, then the major over the records left,
/// then free electives over the records left after both. General Education
/// entries are dropped once its credits reach its required total.
pub open spec fn audit_outcome(cs: Seq<ParsedCourse>, gen_ed: GenEdCurriculum, major: MajorCurriculum) -> AuditOutcome {
    let g = gen_ed_outcome(cs, gen_ed);
    let m = major_outcome(cs, major, g.used);
    let all = consumed(cs, gen_ed, major);
    let free = free_credit(cs, all);
    let suppress = g.credits >= gen_ed.total_required_credits;
    AuditOutcome {
        total: g.credits + m.completed + m.electives + free,
        categories: seq![
            CategoryEntry {
                name: "General Education"@,
                required: gen_ed.total_required_credits as nat,
                collected: g.credits,
                courses: bucket(cs, g.used, cs.len()),
            },
            CategoryEntry {
                name: "Major Courses"@,
                required: major.total_required_credits as nat,
                collected: m.completed + m.electives,
                courses: bucket(cs, major_used(cs, gen_ed, major), cs.len()),
            },
            CategoryEntry {
                name: "Free Electives"@,
                required: FREE_ELECTIVE_CREDITS as nat,
                collected: free,
                courses: bucket(cs, free_flags(cs, all), cs.len()),
            },
        ],
        missing: kept(g.missing + m.missing, suppress, (g.missing.len() + m.missing.len()) as nat),
    }
}

proof fn lemma_used_prefix_superset(cs: Seq<ParsedCourse>, a: Seq<bool>, b: Seq<bool>, k: nat)
    requires
        a.len() == cs.len(),
        b.len() == cs.len(),
        k <= cs.len(),
        forall|i: int| 0 <= i < cs.len() && a[i] ==> b[i],
    ensures
        used_prefix(cs, a, k) <= used_prefix(cs, b, k),
    decreases k,
{
    if k > 0 {
        lemma_used_prefix_superset(cs, a, b, (k - 1) as nat);
    }
}

fn copy_missing(m: &MissingCourse) -> (r: MissingCourse)
    ensures
        r@ == m@,
{
    MissingCourse { category: m.category.clone(), description: m.description.clone() }
}

fn listing(c: &ParsedCourse) -> (r: Course)
    ensures
        r@ == listed(*c),
{
    Course { code: c.code.clone(), name: c.name.clone(), credit: c.parsed_credit, grade: c.grade }
}

fn push_listed(v: &mut Vec<Course>, c: &ParsedCourse)
    ensures
        final(v)@.map_values(|x: Course| x@) == old(v)@.map_values(|x: Course| x@).push(listed(*c)),
{
    let e = listing(c);
    v.push(e);
    assert(final(v)@.map_values(|x: Course| x@) =~= old(v)@.map_values(|x: Course| x@).push(listed(*c)));
}

/// Runs a whole audit of `courses` against both curricula.
pub fn audit_transcript(courses: &[ParsedCourse], gen_ed: &GenEdCurriculum, major: &MajorCurriculum) -> (r: AuditResult)
    requires
        transcript_credit(courses@) <= u64::MAX,
    ensures
        r@ == audit_outcome(courses@, *gen_ed, *major),
{
    let ghost cs = courses@;
    let (g_credits, g_missing, g_used) = audit_gen_ed(courses, gen_ed);
    let (m_completed, m_electives, m_missing, m_used) = audit_major(courses, major, &g_used);
    let ghost mo = major_outcome(cs, *major, g_used@);
    let n = courses.len();
    let mut all: Vec<bool> = Vec::new();
    let mut i: usize = 0;
    while i < n
        invariant
            n == cs.len(),
            i <= n,
            g_used@.len() == n,
            m_used@.len() == n,
            all@ == union(g_used@, m_used@).take(i as int),
        decreases n - i,
    {
        all.push(g_used[i] || m_used[i]);
        i += 1;
        assert(all@ =~= union(g_used@, m_used@).take(i as int));
    }
    assert(all@ =~= union(g_used@, m_used@));
    let (free, _labels) = calculate_free_electives(courses, &all);
    let flags = free_elective_flags(courses, &all);
    proof {
        lemma_free_credit_bound(cs, all@);
        lemma_used_prefix_superset(cs, g_used@, all@, cs.len());
        lemma_used_prefix_superset(cs, mo.used, all@, cs.len());
    }
    let total = g_credits + m_completed + m_electives + free;
    let mut gen_courses: Vec<Course> = Vec::new();
    let mut major_courses: Vec<Course> = Vec::new();
    let mut free_courses: Vec<Course> = Vec::new();
    let mut i: usize = 0;
    while i < n
        invariant
            n == cs.len(),
            i <= n,
            g_used@.len() == n,
            m_used@.len() == n,
            flags@.len() == n,
            courses@ == cs,
            gen_courses@.map_values(|x: Course| x@) == bucket(cs, g_used@, i as nat),
            major_courses@.map_values(|x: Course| x@) == bucket(cs, m_used@, i as nat),
            free_courses@.map_values(|x: Course| x@) == bucket(cs, flags@, i as nat),
        decreases n - i,
    {
        if g_used[i] {
            push_listed(&mut gen_courses, &courses[i]);
        }
        if m_used[i] {
            push_listed(&mut major_courses, &courses[i]);
        }
        if flags[i] {
            push_listed(&mut free_courses, &courses[i]);
        }
        i += 1;
    }
    assert(flags@ =~= free_flags(cs, all@));
    let suppress = g_credits >= gen_ed.total_required_credits as u64;
    let ghost ms = entries(g_missing@) + entries(m_missing@);
    let mut missing: Vec<MissingCourse> = Vec::new();
    let mut k: usize = 0;
    while k < g_missing.len()
        invariant
            k <= g_missing@.len(),
            ms == entries(g_missing@) + entries(m_missing@),
            entries(missing@) == kept(ms, suppress, k as nat),
        decreases g_missing@.len() - k,
    {
        let m = &g_missing[k];
        if !(suppress && equals_text(m.category.as_str(), "General Education")) {
            missing.push(copy_missing(m));
            assert(entries(missing@) =~= kept(ms, suppress, (k + 1) as nat));
        }
        k += 1;
    }
    let mut k: usize = 0;
    while k < m_missing.len()
        invariant
            k <= m_missing@.len(),
            ms == entries(g_missing@) + entries(m_missing@),
            entries(missing@) == kept(ms, suppress, (g_missing@.len() + k) as nat),
        decreases m_missing@.len() - k,
    {
        let m = &m_missing[k];
        assert(ms[g_missing@.len() + k] == m@);
        if !(suppress && equals_text(m.category.as_str(), "General Education")) {
            missing.push(copy_missing(m));
            assert(entries(missing@) =~= kept(ms, suppress, (g_missing@.len() + k + 1) as nat));
        }
        k += 1;
    }
    let categories = vec![
        Category {
            name: String::from_str("General Education"),
            required_credits: gen_ed.total_required_credits as u64,
            collected_credits: g_credits,
            courses: gen_courses,
        },
        Category {
            name: String::from_str("Major Courses"),
            required_credits: major.total_required_credits as u64,
            collected_credits: m_completed + m_electives,
            courses: major_courses,
        },
        Category {
            name: String::from_str("Free Electives"),
            required_credits: FREE_ELECTIVE_CREDITS as u64,
            collected_credits: free,
            courses: free_courses,
        },
    ];
    let r = AuditResult { total_credits: total, categories, missing_subjects: missing };
    assert(r@.categories =~= audit_outcome(cs, *gen_ed, *major).categories);
    r
}

} // verus!
