//! The wording of missing-requirement entries: decimal numbers, course
//! labels, and option lists joined by "OR".

use vstd::prelude::*;
use vstd::string::*;
use crate::models::CurriculumCourse;

verus! {

/// The decimal digit for `d`.
pub open spec fn digit_char(d: nat) -> char {
    seq!['0', '1', '2', '3', '4', '5', '6', '7', '8', '9'][d as int]
}

/// The decimal numeral of `n`, without leading zeros.
pub open spec fn decimal(n: nat) -> Seq<char>
    decreases n,
{
    if n < 10 {
        seq![digit_char(n)]
    } else {
        decimal(n / 10).push(digit_char(n % 10))
    }
}

/// A whole number of credits written with one decimal place, as in "3.0".
pub open spec fn credit_amount(n: nat) -> Seq<char> {
    decimal(n) + ".0"@
}

fn digit_str(d: u64) -> (r: &'static str)
    requires
        d < 10,
    ensures
        r@ == seq![digit_char(d as nat)],
{
    proof {
        reveal_strlit("0");
        reveal_strlit("1");
        reveal_strlit("2");
        reveal_strlit("3");
        reveal_strlit("4");
        reveal_strlit("5");
        reveal_strlit("6");
        reveal_strlit("7");
        reveal_strlit("8");
        reveal_strlit("9");
    }
    let r = match d {
        0 => "0",
        1 => "1",
        2 => "2",
        3 => "3",
        4 => "4",
        5 => "5",
        6 => "6",
        7 => "7",
        8 => "8",
        _ => "9",
    };
    assert(r@ =~= seq![digit_char(d as nat)]);
    r
}

/// Appends the decimal numeral of `n`.
pub fn push_decimal(s: &mut String, n: u64)
    ensures
        final(s)@ == old(s)@ + decimal(n as nat),
    decreases n,
{
    if n < 10 {
        s.append(digit_str(n));
    } else {
        push_decimal(s, n / 10);
        s.append(digit_str(n % 10));
        assert(old(s)@ + decimal(n as nat) =~= old(s)@ + decimal((n / 10) as nat) + seq![
            digit_char((n % 10) as nat),
        ]);
    }
}

/// Appends a credit amount such as "3.0".
pub fn push_credit_amount(s: &mut String, n: u64)
    ensures
        final(s)@ == old(s)@ + credit_amount(n as nat),
{
    push_decimal(s, n);
    s.append(".0");
    assert(old(s)@ + credit_amount(n as nat) =~= old(s)@ + decimal(n as nat) + ".0"@);
}

/// `item` added to an "OR" list.
pub open spec fn or_join(acc: Seq<char>, item: Seq<char>) -> Seq<char> {
    if acc.len() == 0 {
        item
    } else {
        acc + " OR "@ + item
    }
}

/// Adds `item` to an "OR" list.
pub fn push_option(acc: &mut String, item: &String)
    ensures
        final(acc)@ == or_join(old(acc)@, item@),
{
    if acc.unicode_len() != 0 {
        acc.append(" OR ");
    }
    acc.append(item.as_str());
    assert(final(acc)@ =~= or_join(old(acc)@, item@));
}

/// A course as "code - name".
pub open spec fn course_label(c: CurriculumCourse) -> Seq<char> {
    c.code@ + " - "@ + c.name@
}

/// A capstone option as "code (name)".
pub open spec fn option_label(c: CurriculumCourse) -> Seq<char> {
    c.code@ + " ("@ + c.name@ + ")"@
}

/// A pair of codes as "first + second".
pub open spec fn pair_label(p: Seq<String>) -> Seq<char> {
    p[0]@ + " + "@ + p[1]@
}

/// Builds "code - name".
pub fn course_label_text(c: &CurriculumCourse) -> (r: String)
    ensures
        r@ == course_label(*c),
{
    let mut r = c.code.clone();
    r.append(" - ");
    r.append(c.name.as_str());
    r
}

/// The labels of the first `k` courses, joined by "OR".
pub open spec fn course_options(cs: Seq<CurriculumCourse>, k: nat) -> Seq<char>
    decreases k,
{
    if k == 0 || k > cs.len() {
        Seq::empty()
    } else {
        or_join(course_options(cs, (k - 1) as nat), course_label(cs[k - 1]))
    }
}

/// The option labels of the first `k` capstone courses, joined by "OR".
pub open spec fn capstone_options(cs: Seq<CurriculumCourse>, k: nat) -> Seq<char>
    decreases k,
{
    if k == 0 || k > cs.len() {
        Seq::empty()
    } else {
        or_join(capstone_options(cs, (k - 1) as nat), option_label(cs[k - 1]))
    }
}

/// The first `k` entries that are pairs, as "A + B", joined by "OR".
pub open spec fn pair_options(groups: Seq<Vec<String>>, k: nat) -> Seq<char>
    decreases k,
{
    if k == 0 || k > groups.len() {
        Seq::empty()
    } else if groups[k - 1]@.len() == 2 {
        or_join(pair_options(groups, (k - 1) as nat), pair_label(groups[k - 1]@))
    } else {
        pair_options(groups, (k - 1) as nat)
    }
}

/// All courses as "code - name", joined by "OR".
pub fn course_options_text(cs: &Vec<CurriculumCourse>) -> (r: String)
    ensures
        r@ == course_options(cs@, cs@.len()),
{
    let mut r = String::new();
    let mut i: usize = 0;
    while i < cs.len()
        invariant
            i <= cs@.len(),
            r@ == course_options(cs@, i as nat),
        decreases cs@.len() - i,
    {
        let label = course_label_text(&cs[i]);
        push_option(&mut r, &label);
        i += 1;
    }
    r
}

/// All capstone options as "code (name)", joined by "OR".
pub fn capstone_options_text(cs: &Vec<CurriculumCourse>) -> (r: String)
    ensures
        r@ == capstone_options(cs@, cs@.len()),
{
    let mut r = String::new();
    let mut i: usize = 0;
    while i < cs.len()
        invariant
            i <= cs@.len(),
            r@ == capstone_options(cs@, i as nat),
        decreases cs@.len() - i,
    {
        let mut label = cs[i].code.clone();
        label.append(" (");
        label.append(cs[i].name.as_str());
        label.append(")");
        push_option(&mut r, &label);
        i += 1;
    }
    r
}

/// All pairs as "A + B", joined by "OR"; entries that are not pairs are left out.
pub fn pair_options_text(groups: &Vec<Vec<String>>) -> (r: String)
    ensures
        r@ == pair_options(groups@, groups@.len()),
{
    let mut r = String::new();
    let mut i: usize = 0;
    while i < groups.len()
        invariant
            i <= groups@.len(),
            r@ == pair_options(groups@, i as nat),
        decreases groups@.len() - i,
    {
        let p = &groups[i];
        if p.len() == 2 {
            let mut label = p[0].clone();
            label.append(" + ");
            label.append(p[1].as_str());
            push_option(&mut r, &label);
        }
        i += 1;
    }
    r
}

/// Whether `s` begins with `p`.
pub fn starts_with_text(s: &str, p: &str) -> (r: bool)
    ensures
        r == (p@.len() <= s@.len() && s@.subrange(0, p@.len() as int) == p@),
{
    let n = p.unicode_len();
    if n > s.unicode_len() {
        return false;
    }
    let mut i: usize = 0;
    while i < n
        invariant
            i <= n,
            n == p@.len(),
            n <= s@.len(),
            forall|j: int| 0 <= j < i ==> s@[j] == p@[j],
        decreases n - i,
    {
        if s.get_char(i) != p.get_char(i) {
            assert(s@.subrange(0, n as int)[i as int] != p@[i as int]);
            return false;
        }
        i += 1;
    }
    assert(s@.subrange(0, n as int) =~= p@);
    true
}

/// Whether `s` reads exactly `p`.
pub fn equals_text(s: &str, p: &str) -> (r: bool)
    ensures
        r == (s@ == p@),
{
    if s.unicode_len() != p.unicode_len() {
        return false;
    }
    let r = starts_with_text(s, p);
    assert(s@.subrange(0, p@.len() as int) =~= s@);
    r
}

} // verus!
