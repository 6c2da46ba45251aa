//! First-match search over the record pool and the consumption state that
//! every allocator threads through its work.

use vstd::prelude::*;
use crate::models::{entries, MissingCourse, MissingEntry, ParsedCourse};

verus! {

/// Record `i` is unused, passed, and carries `code`.
pub open spec fn eligible(cs: Seq<ParsedCourse>, used: Seq<bool>, i: int, code: Seq<char>) -> bool {
    0 <= i < cs.len() && i < used.len() && !used[i] && cs[i].code@ == code
        && cs[i].grade.passes()
}

/// The first eligible record at position `k` or later.
pub open spec fn find_from(cs: Seq<ParsedCourse>, used: Seq<bool>, code: Seq<char>, k: nat) -> Option<nat>
    decreases cs.len() - k,
{
    if k >= cs.len() {
        None
    } else if eligible(cs, used, k as int, code) {
        Some(k)
    } else {
        find_from(cs, used, code, k + 1)
    }
}

/// The first record in transcript order that is unused, passed, and carries `code`.
pub open spec fn first_match(cs: Seq<ParsedCourse>, used: Seq<bool>, code: Seq<char>) -> Option<nat> {
    find_from(cs, used, code, 0)
}

/// Whether some record, used or not, was passed under `code`.
pub open spec fn passed_anywhere(cs: Seq<ParsedCourse>, code: Seq<char>) -> bool {
    exists|i: int| 0 <= i < cs.len() && #[trigger] cs[i].code@ == code && cs[i].grade.passes()
}

/// An optional position as a natural number.
pub open spec fn index_of(r: Option<usize>) -> Option<nat> {
    match r {
        Some(i) => Some(i as nat),
        None => None,
    }
}

proof fn lemma_find_from(cs: Seq<ParsedCourse>, used: Seq<bool>, code: Seq<char>, k: nat)
    ensures
        match find_from(cs, used, code, k) {
            Some(i) => k <= i && eligible(cs, used, i as int, code) && forall|j: int|
                k <= j < i ==> !eligible(cs, used, j, code),
            None => forall|j: int| k <= j < cs.len() ==> !eligible(cs, used, j, code),
        },
    decreases cs.len() - k,
{
    if k < cs.len() && !eligible(cs, used, k as int, code) {
        lemma_find_from(cs, used, code, k + 1);
    }
}

/// The first match is eligible and no earlier record is; no match means no
/// record is eligible.
pub proof fn lemma_first_match(cs: Seq<ParsedCourse>, used: Seq<bool>, code: Seq<char>)
    ensures
        match first_match(cs, used, code) {
            Some(i) => eligible(cs, used, i as int, code) && forall|j: int|
                0 <= j < i ==> !eligible(cs, used, j, code),
            None => forall|j: int| 0 <= j < cs.len() ==> !eligible(cs, used, j, code),
        },
{
    lemma_find_from(cs, used, code, 0);
}

/// Finds the first record in transcript order that is unused, passed, and
/// carries `code`.
pub fn find_unused(cs: &[ParsedCourse], used: &Vec<bool>, code: &String) -> (r: Option<usize>)
    requires
        used@.len() == cs@.len(),
    ensures
        index_of(r) == first_match(cs@, used@, code@),
{
    let mut i: usize = 0;
    while i < cs.len()
        invariant
            i <= cs@.len(),
            used@.len() == cs@.len(),
            find_from(cs@, used@, code@, i as nat) == first_match(cs@, used@, code@),
        decreases cs@.len() - i,
    {
        if !used[i] && cs[i].code == *code && cs[i].grade.is_passing() {
            return Some(i);
        }
        i += 1;
    }
    None
}

/// Whether some record, used or not, was passed under `code`.
pub fn passed_in_transcript(cs: &[ParsedCourse], code: &String) -> (r: bool)
    ensures
        r == passed_anywhere(cs@, code@),
{
    let mut i: usize = 0;
    while i < cs.len()
        invariant
            i <= cs@.len(),
            forall|j: int| 0 <= j < i ==> !(#[trigger] cs@[j].code@ == code@ && cs@[j].grade.passes()),
        decreases cs@.len() - i,
    {
        if cs[i].code == *code && cs[i].grade.is_passing() {
            return true;
        }
        i += 1;
    }
    false
}

/// A mask with no record flagged.
pub fn unused_mask(n: usize) -> (r: Vec<bool>)
    ensures
        r@ == Seq::new(n as nat, |i: int| false),
{
    let mut r: Vec<bool> = Vec::new();
    let mut i: usize = 0;
    while i < n
        invariant
            i <= n,
            r@ == Seq::new(i as nat, |j: int| false),
        decreases n - i,
    {
        r.push(false);
        i += 1;
        assert(r@ =~= Seq::new(i as nat, |j: int| false));
    }
    r
}

/// Credit awarded for a structured match: the curriculum's value, capped by
/// the transcript's.
pub open spec fn award(declared: u32, parsed: u32) -> nat {
    if declared <= parsed {
        declared as nat
    } else {
        parsed as nat
    }
}

/// The lesser of the curriculum's credit value and the record's, which
/// guards against credits misread from the transcript.
pub fn matched_course_credits(curriculum_credits: u32, parsed: &ParsedCourse) -> (r: u32)
    ensures
        r == award(curriculum_credits, parsed.parsed_credit),
{
    if curriculum_credits <= parsed.parsed_credit {
        curriculum_credits
    } else {
        parsed.parsed_credit
    }
}

/// Sum of the transcript credits of the first `k` records.
pub open spec fn credit_prefix(cs: Seq<ParsedCourse>, k: nat) -> nat
    decreases k,
{
    if k == 0 || k > cs.len() {
        0
    } else {
        credit_prefix(cs, (k - 1) as nat) + cs[k - 1].parsed_credit as nat
    }
}

/// Sum of the transcript credits of all records.
pub open spec fn transcript_credit(cs: Seq<ParsedCourse>) -> nat {
    credit_prefix(cs, cs.len())
}

/// Sum of the transcript credits of the used records among the first `k`.
pub open spec fn used_prefix(cs: Seq<ParsedCourse>, used: Seq<bool>, k: nat) -> nat
    decreases k,
{
    if k == 0 || k > cs.len() {
        0
    } else {
        used_prefix(cs, used, (k - 1) as nat) + if used[k - 1] {
            cs[k - 1].parsed_credit as nat
        } else {
            0
        }
    }
}

/// Sum of the transcript credits of the used records.
pub open spec fn used_credit(cs: Seq<ParsedCourse>, used: Seq<bool>) -> nat {
    used_prefix(cs, used, cs.len())
}

proof fn lemma_used_prefix_mark(cs: Seq<ParsedCourse>, used: Seq<bool>, j: int, k: nat)
    requires
        used.len() == cs.len(),
        0 <= j < cs.len(),
        !used[j],
        k <= cs.len(),
    ensures
        used_prefix(cs, used.update(j, true), k) == used_prefix(cs, used, k) + if j < k {
            cs[j].parsed_credit as nat
        } else {
            0
        },
    decreases k,
{
    if k > 0 {
        lemma_used_prefix_mark(cs, used, j, (k - 1) as nat);
    }
}

proof fn lemma_used_prefix_bound(cs: Seq<ParsedCourse>, used: Seq<bool>, k: nat)
    requires
        k <= cs.len(),
    ensures
        used_prefix(cs, used, k) <= credit_prefix(cs, k),
    decreases k,
{
    if k > 0 {
        lemma_used_prefix_bound(cs, used, (k - 1) as nat);
    }
}

proof fn lemma_unused_prefix(cs: Seq<ParsedCourse>, used: Seq<bool>, k: nat)
    requires
        k <= cs.len(),
        forall|i: int| 0 <= i < k ==> !used[i],
    ensures
        used_prefix(cs, used, k) == 0,
    decreases k,
{
    if k > 0 {
        lemma_unused_prefix(cs, used, (k - 1) as nat);
    }
}

/// Consuming an unused record adds its transcript credit to the used credit,
/// which never exceeds the transcript's total.
pub proof fn lemma_used_credit_mark(cs: Seq<ParsedCourse>, used: Seq<bool>, j: int)
    requires
        used.len() == cs.len(),
        0 <= j < cs.len(),
        !used[j],
    ensures
        used_credit(cs, used.update(j, true)) == used_credit(cs, used) + cs[j].parsed_credit,
        used_credit(cs, used.update(j, true)) <= transcript_credit(cs),
{
    lemma_used_prefix_mark(cs, used, j, cs.len());
    lemma_used_prefix_bound(cs, used.update(j, true), cs.len());
}

/// A pool where nothing is used yet carries no used credit.
pub proof fn lemma_used_credit_none(cs: Seq<ParsedCourse>, used: Seq<bool>)
    requires
        used.len() == cs.len(),
        forall|i: int| 0 <= i < used.len() ==> !used[i],
    ensures
        used_credit(cs, used) == 0,
{
    lemma_unused_prefix(cs, used, cs.len());
}

/// The state of an allocation: credits awarded, requirements reported
/// missing, and which records are consumed.
pub struct Alloc {
    pub credits: nat,
    pub missing: Seq<MissingEntry>,
    pub used: Seq<bool>,
}

/// An allocation in progress over one transcript. Its `used` mask has one
/// flag per record; a record is consumed at most once.
pub struct Allocation {
    pub credits: u64,
    pub missing: Vec<MissingCourse>,
    pub used: Vec<bool>,
}

impl View for Allocation {
    type V = Alloc;

    open spec fn view(&self) -> Alloc {
        Alloc { credits: self.credits as nat, missing: entries(self.missing@), used: self.used@ }
    }
}

impl Alloc {
    /// The mask fits the transcript, and the credits awarded never exceed
    /// the transcript credits of the consumed records.
    /// `base` is the transcript credit of the records that were consumed
    /// before this allocation started.
    pub open spec fn wf(self, cs: Seq<ParsedCourse>, base: nat) -> bool {
        &&& self.used.len() == cs.len()
        &&& self.credits + base <= used_credit(cs, self.used)
        &&& transcript_credit(cs) <= u64::MAX
    }

    /// Record `i` consumed for `credit`.
    pub open spec fn consume(self, i: nat, credit: nat) -> Alloc {
        Alloc { credits: self.credits + credit, missing: self.missing, used: self.used.update(i as int, true) }
    }

    /// An entry appended to the missing list.
    pub open spec fn report(self, category: Seq<char>, description: Seq<char>) -> Alloc {
        Alloc {
            missing: self.missing.push(MissingEntry { category, description }),
            ..self
        }
    }
}

impl Allocation {
    /// A fresh allocation where the records flagged in `excluded` count as
    /// consumed already.
    pub fn starting_from(cs: &[ParsedCourse], excluded: &Vec<bool>) -> (r: Allocation)
        requires
            excluded@.len() == cs@.len(),
            transcript_credit(cs@) <= u64::MAX,
        ensures
            r@ == (Alloc { credits: 0, missing: Seq::empty(), used: excluded@ }),
            r@.wf(cs@, used_credit(cs@, excluded@)),
    {
        let r = Allocation { credits: 0, missing: Vec::new(), used: excluded.clone() };
        assert(entries(r.missing@) =~= Seq::empty());
        r
    }

    /// Consumes the unused record `i` for `credit`, at most its transcript credit.
    pub fn consume(&mut self, Ghost(cs): Ghost<Seq<ParsedCourse>>, Ghost(base): Ghost<nat>, i: usize, credit: u32)
        requires
            old(self)@.wf(cs, base),
            i < cs.len(),
            !old(self)@.used[i as int],
            credit <= cs[i as int].parsed_credit,
        ensures
            final(self)@ == old(self)@.consume(i as nat, credit as nat),
            final(self)@.wf(cs, base),
    {
        proof {
            lemma_used_credit_mark(cs, self.used@, i as int);
        }
        self.used.set(i, true);
        self.credits = self.credits + credit as u64;
    }

    /// Appends a missing-requirement entry.
    pub fn report(&mut self, Ghost(cs): Ghost<Seq<ParsedCourse>>, Ghost(base): Ghost<nat>, category: &str, description: String)
        requires
            old(self)@.wf(cs, base),
        ensures
            final(self)@ == old(self)@.report(category@, description@),
            final(self)@.wf(cs, base),
    {
        let m = MissingCourse { category: String::from_str(category), description };
        self.missing.push(m);
        assert(entries(self.missing@) =~= old(self)@.missing.push(m@));
    }
}

} // verus!
