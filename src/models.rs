//! Data model of transcript records, curricula, and audit results.

use vstd::prelude::*;
use vstd::string::*;

verus! {

/// A transcript mark, classified once when the record is built.
#[derive(Debug, Clone, Copy, PartialEq, Eq, Structural)]
pub enum Grade {
    A,
    BPlus,
    B,
    CPlus,
    C,
    DPlus,
    D,
    F,
    Withdrawn,
    Pass,
    Satisfactory,
    Unsatisfactory,
    Unknown,
}

impl Grade {
    /// Whether the mark earns the course's credit.
    pub open spec fn passes(self) -> bool {
        match self {
            Grade::A | Grade::BPlus | Grade::B | Grade::CPlus | Grade::C | Grade::DPlus | Grade::D
            | Grade::Pass | Grade::Satisfactory => true,
            Grade::F | Grade::Withdrawn | Grade::Unsatisfactory | Grade::Unknown => false,
        }
    }

    /// Whether the mark earns the course's credit.
    pub fn is_passing(&self) -> (r: bool)
        ensures
            r == self.passes(),
    {
        match self {
            Grade::A | Grade::BPlus | Grade::B | Grade::CPlus | Grade::C | Grade::DPlus | Grade::D
            | Grade::Pass | Grade::Satisfactory => true,
            Grade::F | Grade::Withdrawn | Grade::Unsatisfactory | Grade::Unknown => false,
        }
    }

    /// The transcript mark as printed: "A", "B+", ..., "W", "P", "S", "U".
    pub open spec fn mark(self) -> Seq<char> {
        match self {
            Grade::A => seq!['A'],
            Grade::BPlus => seq!['B', '+'],
            Grade::B => seq!['B'],
            Grade::CPlus => seq!['C', '+'],
            Grade::C => seq!['C'],
            Grade::DPlus => seq!['D', '+'],
            Grade::D => seq!['D'],
            Grade::F => seq!['F'],
            Grade::Withdrawn => seq!['W'],
            Grade::Pass => seq!['P'],
            Grade::Satisfactory => seq!['S'],
            Grade::Unsatisfactory => seq!['U'],
            Grade::Unknown => seq!['?'],
        }
    }
}

/// The grade of a one-letter mark.
pub open spec fn letter_grade_of(c: char) -> Grade {
    match c {
        'A' => Grade::A,
        'B' => Grade::B,
        'C' => Grade::C,
        'D' => Grade::D,
        'F' => Grade::F,
        'W' => Grade::Withdrawn,
        'P' => Grade::Pass,
        'S' => Grade::Satisfactory,
        'U' => Grade::Unsatisfactory,
        _ => Grade::Unknown,
    }
}

/// The grade of a mark written as a letter followed by `+`.
pub open spec fn plus_grade_of(c: char) -> Grade {
    match c {
        'B' => Grade::BPlus,
        'C' => Grade::CPlus,
        'D' => Grade::DPlus,
        _ => Grade::Unknown,
    }
}

/// The grade that a printed mark denotes; any mark not listed is `Unknown`.
pub open spec fn grade_of(m: Seq<char>) -> Grade {
    if m.len() == 1 {
        letter_grade_of(m[0])
    } else if m.len() == 2 && m[1] == '+' {
        plus_grade_of(m[0])
    } else {
        Grade::Unknown
    }
}

impl Grade {
    /// Classifies a printed transcript mark.
    pub fn from_mark(m: &str) -> (r: Grade)
        ensures
            r == grade_of(m@),
    {
        let n = m.unicode_len();
        if n == 1 {
            match m.get_char(0) {
                'A' => Grade::A,
                'B' => Grade::B,
                'C' => Grade::C,
                'D' => Grade::D,
                'F' => Grade::F,
                'W' => Grade::Withdrawn,
                'P' => Grade::Pass,
                'S' => Grade::Satisfactory,
                'U' => Grade::Unsatisfactory,
                _ => Grade::Unknown,
            }
        } else if n == 2 && m.get_char(1) == '+' {
            match m.get_char(0) {
                'B' => Grade::BPlus,
                'C' => Grade::CPlus,
                'D' => Grade::DPlus,
                _ => Grade::Unknown,
            }
        } else {
            Grade::Unknown
        }
    }
}

impl Grade {
    /// The printed mark, for display.
    pub fn label(&self) -> (r: String)
        ensures
            r@ == self.mark(),
    {
        let s = match self {
            Grade::A => "A",
            Grade::BPlus => "B+",
            Grade::B => "B",
            Grade::CPlus => "C+",
            Grade::C => "C",
            Grade::DPlus => "D+",
            Grade::D => "D",
            Grade::F => "F",
            Grade::Withdrawn => "W",
            Grade::Pass => "P",
            Grade::Satisfactory => "S",
            Grade::Unsatisfactory => "U",
            Grade::Unknown => "?",
        };
        proof {
            reveal_strlit("A");
            reveal_strlit("B+");
            reveal_strlit("B");
            reveal_strlit("C+");
            reveal_strlit("C");
            reveal_strlit("D+");
            reveal_strlit("D");
            reveal_strlit("F");
            reveal_strlit("W");
            reveal_strlit("P");
            reveal_strlit("S");
            reveal_strlit("U");
            reveal_strlit("?");
        }
        String::from_str(s)
    }
}

/// One course line read from a transcript. Records are identified by their
/// position in the transcript.
#[derive(Debug, Clone)]
pub struct ParsedCourse {
    pub code: String,
    pub name: String,
    pub grade: Grade,
    /// Credits as printed on the transcript.
    pub parsed_credit: u32,
}

/// What a transcript record holds.
pub struct RecordView {
    pub code: Seq<char>,
    pub name: Seq<char>,
    pub grade: Grade,
    pub credit: nat,
}

impl View for ParsedCourse {
    type V = RecordView;

    open spec fn view(&self) -> RecordView {
        RecordView { code: self.code@, name: self.name@, grade: self.grade, credit: self.parsed_credit as nat }
    }
}

/// A course listed by a curriculum, with its declared credits.
#[derive(Debug, Clone)]
pub struct CurriculumCourse {
    pub code: String,
    pub name: String,
    pub credits: u32,
}

/// A course of the General Education curriculum.
pub type GenEdCourse = CurriculumCourse;

/// A course of the major curriculum.
pub type MajorCourse = CurriculumCourse;

/// A quota group nested in a strand: met once its courses reach `required_credits`.
#[derive(Debug, Clone)]
pub struct GenEdSubGroup {
    pub name: String,
    pub required_credits: u32,
    pub courses: Vec<GenEdCourse>,
}

/// How a strand selects courses.
#[derive(Debug, Clone, Copy, PartialEq, Eq, Structural)]
pub enum SelectionRule {
    /// Every listed course is required.
    ChooseAll,
    /// The first listed course that was passed is enough.
    ChooseOne,
    /// Each sub-group must reach its own credit quota.
    ChooseAllSubGroups,
    /// One whole pair of `sequence_groups` is required.
    ChooseSequentialPair,
}

/// A top-level General Education requirement with its selection rule.
#[derive(Debug, Clone)]
pub struct GenEdStrand {
    pub id: u32,
    pub name: String,
    pub required_credits: u32,
    pub sub_groups: Vec<GenEdSubGroup>,
    pub courses: Vec<GenEdCourse>,
    pub selection_rule: SelectionRule,
    /// Candidate pairs of course codes; an entry that does not hold exactly
    /// two codes is not a pair and is skipped.
    pub sequence_groups: Vec<Vec<String>>,
}

/// A General Education elective sub-category.
#[derive(Debug, Clone)]
pub struct GenEdElectiveSubCategory {
    pub name: String,
    pub required_credits: u32,
    pub min_courses: u32,
    pub max_courses: u32,
    pub courses: Vec<GenEdCourse>,
}

/// The General Education electives with their category-wide credit target.
#[derive(Debug, Clone)]
pub struct GenEdElectives {
    pub name: String,
    pub total_required_credits: u32,
    pub sub_categories: Vec<GenEdElectiveSubCategory>,
}

/// The whole General Education curriculum.
#[derive(Debug, Clone)]
pub struct GenEdCurriculum {
    pub name: String,
    pub total_required_credits: u32,
    pub strands: Vec<GenEdStrand>,
    pub electives: GenEdElectives,
}

/// An elective cluster: completed once `min_courses` of its courses were passed.
#[derive(Debug, Clone)]
pub struct MajorCluster {
    pub id: String,
    pub name: String,
    pub min_courses: u32,
    pub description: Option<String>,
    pub courses: Vec<MajorCourse>,
}

/// A domain grouping elective clusters.
#[derive(Debug, Clone)]
pub struct MajorDomain {
    pub id: u32,
    pub name: String,
    pub description: Option<String>,
    pub clusters: Vec<MajorCluster>,
}

/// The basic science courses of the major; all are required.
#[derive(Debug, Clone)]
pub struct MajorBasicScience {
    pub name: String,
    pub required_credits: u32,
    pub courses: Vec<MajorCourse>,
}

/// The core courses of the major; all are required.
#[derive(Debug, Clone)]
pub struct MajorCoreCourses {
    pub name: String,
    pub required_credits: u32,
    pub courses: Vec<MajorCourse>,
}

/// The capstone options; one of them is required.
#[derive(Debug, Clone)]
pub struct MajorCapstone {
    pub name: String,
    pub credits_per_option: u32,
    pub options: Vec<MajorCourse>,
}

/// Major electives: clusters grouped in domains, and repeatable `others`.
#[derive(Debug, Clone)]
pub struct MajorElectives {
    pub name: String,
    pub total_required_credits: u32,
    pub clusters_to_complete: u32,
    pub domains: Vec<MajorDomain>,
    pub others: Vec<MajorCourse>,
}

/// The whole major curriculum.
#[derive(Debug, Clone)]
pub struct MajorCurriculum {
    pub name: String,
    pub total_required_credits: u32,
    pub basic_science: MajorBasicScience,
    pub core_courses: MajorCoreCourses,
    pub capstone: MajorCapstone,
    pub electives: MajorElectives,
}

/// A requirement that the transcript does not meet.
#[derive(Debug, Clone)]
pub struct MissingCourse {
    pub category: String,
    pub description: String,
}

/// What a missing-requirement entry says.
pub struct MissingEntry {
    pub category: Seq<char>,
    pub description: Seq<char>,
}

impl View for MissingCourse {
    type V = MissingEntry;

    open spec fn view(&self) -> MissingEntry {
        MissingEntry { category: self.category@, description: self.description@ }
    }
}

/// The entries of a list of missing requirements.
pub open spec fn entries(v: Seq<MissingCourse>) -> Seq<MissingEntry> {
    v.map_values(|m: MissingCourse| m@)
}

/// A transcript record as listed in a result category.
#[derive(Debug, Clone)]
pub struct Course {
    pub code: String,
    pub name: String,
    pub credit: u32,
    pub grade: Grade,
}

/// A result category with its credit target, credits collected, and records.
#[derive(Debug, Clone)]
pub struct Category {
    pub name: String,
    pub required_credits: u64,
    pub collected_credits: u64,
    pub courses: Vec<Course>,
}

/// The outcome of one audit.
#[derive(Debug, Clone)]
pub struct AuditResult {
    pub total_credits: u64,
    pub categories: Vec<Category>,
    pub missing_subjects: Vec<MissingCourse>,
}

} // verus!
