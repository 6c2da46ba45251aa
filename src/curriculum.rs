//! The curricula of the Computer Science programme, as static data.

use vstd::prelude::*;
use crate::models::{
    CurriculumCourse, GenEdCourse, GenEdCurriculum, GenEdElectiveSubCategory, GenEdElectives, GenEdStrand,
    GenEdSubGroup, MajorBasicScience, MajorCapstone, MajorCluster, MajorCoreCourses, MajorCourse,
    MajorCurriculum, MajorDomain, MajorElectives, SelectionRule,
};

verus! {

/// Sum of the declared credits of the first `k` courses.
pub open spec fn course_credits(cs: Seq<CurriculumCourse>, k: nat) -> nat
    decreases k,
{
    if k == 0 || k > cs.len() {
        0
    } else {
        course_credits(cs, (k - 1) as nat) + cs[k - 1].credits as nat
    }
}

/// Sum of the credit quotas of the first `k` sub-groups.
pub open spec fn quota_sum(gs: Seq<GenEdSubGroup>, k: nat) -> nat
    decreases k,
{
    if k == 0 || k > gs.len() {
        0
    } else {
        quota_sum(gs, (k - 1) as nat) + gs[k - 1].required_credits as nat
    }
}

/// Sum of the credit requirements of the first `k` strands.
pub open spec fn strand_requirements(ss: Seq<GenEdStrand>, k: nat) -> nat
    decreases k,
{
    if k == 0 || k > ss.len() {
        0
    } else {
        strand_requirements(ss, (k - 1) as nat) + ss[k - 1].required_credits as nat
    }
}

/// A pair of a pair strand: two codes, each the code of a course of the
/// strand worth half the strand's requirement.
pub open spec fn pair_wf(s: GenEdStrand, g: Seq<String>) -> bool {
    &&& g.len() == 2
    &&& forall|h: int|
        #![trigger g[h]]
        0 <= h < 2 ==> exists|p: int|
            0 <= p < s.courses@.len() && #[trigger] s.courses@[p].code@ == g[h]@ && 2
                * s.courses@[p].credits == s.required_credits
}

/// A strand whose lists fit its rule. A sub-group strand lists sub-groups and
/// no courses; every other strand lists courses and no sub-groups; only a pair
/// strand lists pairs. A ChooseAll strand's courses add up to its
/// requirement; each ChooseOne option meets it alone; sub-group quotas add up
/// to it; every pair is a pair of its own courses that together meet it.
pub open spec fn strand_wf(s: GenEdStrand) -> bool {
    &&& (s.selection_rule == SelectionRule::ChooseAllSubGroups) == (s.courses@.len() == 0)
    &&& (s.selection_rule == SelectionRule::ChooseAllSubGroups) == (0 < s.sub_groups@.len())
    &&& (s.selection_rule == SelectionRule::ChooseSequentialPair) == (0 < s.sequence_groups@.len())
    &&& match s.selection_rule {
        SelectionRule::ChooseAll => course_credits(s.courses@, s.courses@.len()) == s.required_credits,
        SelectionRule::ChooseOne => forall|c: int|
            0 <= c < s.courses@.len() ==> #[trigger] s.courses@[c].credits == s.required_credits,
        SelectionRule::ChooseAllSubGroups => quota_sum(s.sub_groups@, s.sub_groups@.len())
            == s.required_credits,
        SelectionRule::ChooseSequentialPair => forall|g: int|
            0 <= g < s.sequence_groups@.len() ==> pair_wf(s, #[trigger] s.sequence_groups@[g]@),
    }
}

/// A General Education curriculum whose strands are numbered from 1 in order,
/// each fitting its rule, and whose strand requirements and elective target
/// add up to its total.
pub open spec fn gen_ed_wf(c: GenEdCurriculum) -> bool {
    &&& strand_requirements(c.strands@, c.strands@.len()) + c.electives.total_required_credits
        == c.total_required_credits
    &&& forall|k: int|
        0 <= k < c.strands@.len() ==> #[trigger] c.strands@[k].id == k + 1 && strand_wf(
            c.strands@[k],
        )
}

/// A strand's number, rule, and credit requirement.
pub open spec fn strand_is(s: GenEdStrand, id: u32, rule: SelectionRule, required: u32) -> bool {
    s.id == id && s.selection_rule == rule && s.required_credits == required
}

/// The number of clusters in the first `k` domains.
pub open spec fn cluster_count(ds: Seq<MajorDomain>, k: nat) -> nat
    decreases k,
{
    if k == 0 || k > ds.len() {
        0
    } else {
        cluster_count(ds, (k - 1) as nat) + ds[k - 1].clusters@.len()
    }
}

/// No course code is listed in both `a` and `b`.
pub open spec fn codes_apart(a: Seq<CurriculumCourse>, b: Seq<CurriculumCourse>) -> bool {
    forall|i: int, j: int| 0 <= i < a.len() && 0 <= j < b.len() ==> #[trigger] a[i].code@ != #[trigger] b[j].code@
}

/// A number that tells apart codes of the form "ddd-ddd".
pub open spec fn code_key(s: Seq<char>) -> int {
    (s[0] as u32) as int * 1_000_000_000_000 + (s[1] as u32) as int * 10_000_000_000 + (s[2] as u32) as int
        * 100_000_000 + (s[4] as u32) as int * 10_000 + (s[5] as u32) as int * 100 + (s[6] as u32) as int
}

proof fn lemma_apart_by_key(a: Seq<CurriculumCourse>, b: Seq<CurriculumCourse>)
    requires
        forall|i: int, j: int|
            0 <= i < a.len() && 0 <= j < b.len() ==> code_key(#[trigger] a[i].code@) != code_key(
                #[trigger] b[j].code@,
            ),
    ensures
        codes_apart(a, b),
{
}

/// A major curriculum whose basic science courses add up to its requirement,
/// whose capstone has options, whose clusters can each be completed and are
/// enough in number, and whose basic science, core, capstone and "others"
/// lists share no course code.
pub open spec fn major_wf(m: MajorCurriculum) -> bool {
    let ds = m.electives.domains@;
    &&& course_credits(m.basic_science.courses@, m.basic_science.courses@.len())
        == m.basic_science.required_credits
    &&& 0 < m.capstone.options@.len()
    &&& m.electives.clusters_to_complete <= cluster_count(ds, ds.len())
    &&& forall|d: int, c: int|
        0 <= d < ds.len() && 0 <= c < ds[d].clusters@.len() ==> #[trigger] ds[d].clusters@[c].min_courses
            <= ds[d].clusters@[c].courses@.len()
    &&& codes_apart(m.basic_science.courses@, m.core_courses.courses@)
    &&& codes_apart(m.basic_science.courses@, m.capstone.options@)
    &&& codes_apart(m.basic_science.courses@, m.electives.others@)
    &&& codes_apart(m.core_courses.courses@, m.capstone.options@)
    &&& codes_apart(m.core_courses.courses@, m.electives.others@)
    &&& codes_apart(m.capstone.options@, m.electives.others@)
}

/// The General Education curriculum of the Computer Science programme.
pub fn get_gen_ed_curriculum() -> (r: GenEdCurriculum)
    ensures
        r.total_required_credits == 30,
        r.strands@.len() == 7,
        r.electives.total_required_credits == 6,
        gen_ed_wf(r),
        strand_is(r.strands@[0], 1, SelectionRule::ChooseAll, 4),
        strand_is(r.strands@[1], 2, SelectionRule::ChooseAll, 5),
        strand_is(r.strands@[2], 3, SelectionRule::ChooseAll, 1),
        strand_is(r.strands@[3], 4, SelectionRule::ChooseAllSubGroups, 4),
        strand_is(r.strands@[4], 5, SelectionRule::ChooseAllSubGroups, 4),
        strand_is(r.strands@[5], 6, SelectionRule::ChooseSequentialPair, 4),
        strand_is(r.strands@[6], 7, SelectionRule::ChooseOne, 2),
        r.strands@[0].courses@.len() == 2,
        r.strands@[0].courses@[0].code@ == "003-001"@,
        r.strands@[0].courses@[0].credits == 3,
        r.strands@[0].courses@[1].code@ == "388-100"@,
        r.strands@[0].courses@[1].credits == 1,
        r.strands@[0].name@ == "King's Philosophy and Benefits for Mankind"@,
        r.strands@[1].name@ == "Citizenship and Peaceful Life"@,
        r.strands@[2].name@ == "Entrepreneurship"@,
        r.strands@[3].name@ == "Living with Awareness and Digital Literacy"@,
        r.strands@[4].name@ == "Systems Thinking, Logical and Numerical Thinking"@,
        r.strands@[5].name@ == "Language and Communication"@,
        r.strands@[6].name@ == "Aesthetics and Sports"@,
        r.electives.name@ == "GenEd Electives (GE8)"@,
        r.electives.sub_categories@.len() == 6,
        r.electives.sub_categories@[0].name@ == "English Language"@,
        r.electives.sub_categories@[1].name@ == "Foreign Languages"@,
        r.electives.sub_categories@[2].name@ == "Humanities and Social Sciences"@,
        r.electives.sub_categories@[3].name@ == "Science and Health"@,
        r.electives.sub_categories@[4].name@ == "Law"@,
        r.electives.sub_categories@[5].name@ == "Interdisciplinary and Others"@,
{
    let r = GenEdCurriculum {
        name: "General Education".to_string(),
        total_required_credits: 30,
        strands: vec![
            GenEdStrand {
                id: 1,
                name: "King's Philosophy and Benefits for Mankind".to_string(),
                required_credits: 4,
                sub_groups: Vec::new(),
                courses: vec![
                    GenEdCourse {
                        code: "003-001".to_string(),
                        name: "Volunteer Leader for Sustainable Community Development".to_string(),
                        credits: 3,
                    },
                    GenEdCourse {
                        code: "388-100".to_string(),
                        name: "Health for All".to_string(),
                        credits: 1,
                    },
                ],
                selection_rule: SelectionRule::ChooseAll,
                sequence_groups: Vec::new(),
            },
            GenEdStrand {
                id: 2,
                name: "Citizenship and Peaceful Life".to_string(),
                required_credits: 5,
                sub_groups: Vec::new(),
                courses: vec![
                    GenEdCourse {
                        code: "895-001".to_string(),
                        name: "Good Citizens".to_string(),
                        credits: 2,
                    },
                    GenEdCourse {
                        code: "950-102".to_string(),
                        name: "Happy and Peaceful Life".to_string(),
                        credits: 3,
                    },
                ],
                selection_rule: SelectionRule::ChooseAll,
                sequence_groups: Vec::new(),
            },
            GenEdStrand {
                id: 3,
                name: "Entrepreneurship".to_string(),
                required_credits: 1,
                sub_groups: Vec::new(),
                courses: vec![GenEdCourse {
                    code: "460-001".to_string(),
                    name: "Idea to Entrepreneurship".to_string(),
                    credits: 1,
                }],
                selection_rule: SelectionRule::ChooseAll,
                sequence_groups: Vec::new(),
            },
            GenEdStrand {
                id: 4,
                name: "Living with Awareness and Digital Literacy".to_string(),
                required_credits: 4,
                sub_groups: vec![
                    GenEdSubGroup {
                        name: "Living with Awareness".to_string(),
                        required_credits: 2,
                        courses: vec![GenEdCourse {
                            code: "315-201".to_string(),
                            name: "Life in the Future".to_string(),
                            credits: 2,
                        }],
                    },
                    GenEdSubGroup {
                        name: "Digital Literacy".to_string(),
                        required_credits: 2,
                        courses: vec![GenEdCourse {
                            code: "315-104".to_string(),
                            name: "Digital Technology Literacy".to_string(),
                            credits: 2,
                        }],
                    },
                ],
                courses: Vec::new(),
                selection_rule: SelectionRule::ChooseAllSubGroups,
                sequence_groups: Vec::new(),
            },
            GenEdStrand {
                id: 5,
                name: "Systems Thinking, Logical and Numerical Thinking".to_string(),
                required_credits: 4,
                sub_groups: vec![
                    GenEdSubGroup {
                        name: "Logical and Numerical Thinking (GE2A)".to_string(),
                        required_credits: 2,
                        courses: vec![
                            GenEdCourse {
                                code: "895-211".to_string(),
                                name: "Thinking and Behavioral Prediction".to_string(),
                                credits: 2,
                            },
                            GenEdCourse {
                                code: "315-100".to_string(),
                                name: "The Art of Computing".to_string(),
                                credits: 2,
                            },
                            GenEdCourse {
                                code: "322-100".to_string(),
                                name: "Getting rich with mathematics".to_string(),
                                credits: 2,
                            },
                            GenEdCourse {
                                code: "473-001".to_string(),
                                name: "Financial Literacy for a Better Life".to_string(),
                                credits: 2,
                            },
                            GenEdCourse {
                                code: "473-002".to_string(),
                                name: "Reading Financial Statements for Investment".to_string(),
                                credits: 2,
                            },
                            GenEdCourse {
                                code: "142-010".to_string(),
                                name: "Organic Thinking".to_string(),
                                credits: 2,
                            },
                        ],
                    },
                    GenEdSubGroup {
                        name: "Systems Thinking (GE2B)".to_string(),
                        required_credits: 2,
                        courses: vec![
                            GenEdCourse {
                                code: "895-221".to_string(),
                                name: "Thinking and Systematic Problem Solving".to_string(),
                                credits: 2,
                            },
                            GenEdCourse {
                                code: "895-222".to_string(),
                                name: "Critical Thinking".to_string(),
                                credits: 2,
                            },
                            GenEdCourse {
                                code: "895-223".to_string(),
                                name: "Cultivating Happiness through Positivity".to_string(),
                                credits: 2,
                            },
                            GenEdCourse {
                                code: "895-224".to_string(),
                                name: "Logic in Daily Life".to_string(),
                                credits: 2,
                            },
                            GenEdCourse {
                                code: "895-225".to_string(),
                                name: "The World Today".to_string(),
                                credits: 2,
                            },
                            GenEdCourse {
                                code: "315-202".to_string(),
                                name: "Thinking and Reasoning".to_string(),
                                credits: 2,
                            },
                            GenEdCourse {
                                code: "200-108".to_string(),
                                name: "MOBA and Strategy Development".to_string(),
                                credits: 2,
                            },
                            GenEdCourse {
                                code: "142-009".to_string(),
                                name: "Creative Problem Solving".to_string(),
                                credits: 2,
                            },
                        ],
                    },
                ],
                courses: Vec::new(),
                selection_rule: SelectionRule::ChooseAllSubGroups,
                sequence_groups: Vec::new(),
            },
            GenEdStrand {
                id: 6,
                name: "Language and Communication".to_string(),
                required_credits: 4,
                sub_groups: Vec::new(),
                courses: vec![
                    GenEdCourse {
                        code: "890-101".to_string(),
                        name: "Essential English".to_string(),
                        credits: 0,
                    },
                    GenEdCourse {
                        code: "890-102".to_string(),
                        name: "Everyday English".to_string(),
                        credits: 2,
                    },
                    GenEdCourse {
                        code: "890-103".to_string(),
                        name: "English on the Go".to_string(),
                        credits: 2,
                    },
                    GenEdCourse {
                        code: "890-104".to_string(),
                        name: "English in the Digital World".to_string(),
                        credits: 2,
                    },
                    GenEdCourse {
                        code: "890-105".to_string(),
                        name: "English for Academic Success".to_string(),
                        credits: 2,
                    },
                ],
                selection_rule: SelectionRule::ChooseSequentialPair,
                sequence_groups: vec![
                    vec!["890-102".to_string(), "890-103".to_string()],
                    vec!["890-103".to_string(), "890-104".to_string()],
                    vec!["890-104".to_string(), "890-105".to_string()],
                ],
            },
            GenEdStrand {
                id: 7,
                name: "Aesthetics and Sports".to_string(),
                required_credits: 2,
                sub_groups: Vec::new(),
                courses: vec![
                    GenEdCourse {
                        code: "895-861".to_string(),
                        name: "The Guitar".to_string(),
                        credits: 2,
                    },
                    GenEdCourse {
                        code: "895-862".to_string(),
                        name: "The Ukulele".to_string(),
                        credits: 2,
                    },
                    GenEdCourse {
                        code: "895-863".to_string(),
                        name: "The Harmonica".to_string(),
                        credits: 2,
                    },
                    GenEdCourse {
                        code: "895-864".to_string(),
                        name: "Western Music".to_string(),
                        credits: 2,
                    },
                    GenEdCourse {
                        code: "895-865".to_string(),
                        name: "The Traditional Thai Dulcimer".to_string(),
                        credits: 2,
                    },
                    GenEdCourse {
                        code: "895-866".to_string(),
                        name: "Piphat Ensembles".to_string(),
                        credits: 2,
                    },
                    GenEdCourse {
                        code: "895-867".to_string(),
                        name: "Creative Music".to_string(),
                        credits: 2,
                    },
                    GenEdCourse {
                        code: "895-868".to_string(),
                        name: "ASEAN Music".to_string(),
                        credits: 2,
                    },
                    GenEdCourse {
                        code: "895-833".to_string(),
                        name: "Drama and Self-reflection".to_string(),
                        credits: 2,
                    },
                    GenEdCourse {
                        code: "895-834".to_string(),
                        name: "Creative Drawing".to_string(),
                        credits: 2,
                    },
                    GenEdCourse {
                        code: "895-843".to_string(),
                        name: "Appreciation of the Thai Language".to_string(),
                        credits: 2,
                    },
                    GenEdCourse {
                        code: "315-102".to_string(),
                        name: "The Aesthetic in Photography".to_string(),
                        credits: 2,
                    },
                    GenEdCourse {
                        code: "061-001".to_string(),
                        name: "Aesthetics of Thai Dance".to_string(),
                        credits: 2,
                    },
                    GenEdCourse {
                        code: "061-002".to_string(),
                        name: "Music aesthetics in Life".to_string(),
                        credits: 2,
                    },
                    GenEdCourse {
                        code: "061-003".to_string(),
                        name: "Nora for health".to_string(),
                        credits: 2,
                    },
                    GenEdCourse {
                        code: "895-871".to_string(),
                        name: "Pétanque".to_string(),
                        credits: 2,
                    },
                    GenEdCourse {
                        code: "895-872".to_string(),
                        name: "Takraw".to_string(),
                        credits: 2,
                    },
                    GenEdCourse {
                        code: "895-873".to_string(),
                        name: "Futsal".to_string(),
                        credits: 2,
                    },
                    GenEdCourse {
                        code: "895-874".to_string(),
                        name: "Social Dance".to_string(),
                        credits: 2,
                    },
                    GenEdCourse {
                        code: "895-875".to_string(),
                        name: "Badminton".to_string(),
                        credits: 2,
                    },
                    GenEdCourse {
                        code: "895-876".to_string(),
                        name: "Swimming".to_string(),
                        credits: 2,
                    },
                    GenEdCourse {
                        code: "895-877".to_string(),
                        name: "Swimming for Lifesaving".to_string(),
                        credits: 2,
                    },
                    GenEdCourse {
                        code: "895-878".to_string(),
                        name: "Table Tennis".to_string(),
                        credits: 2,
                    },
                    GenEdCourse {
                        code: "895-879".to_string(),
                        name: "Tennis".to_string(),
                        credits: 2,
                    },
                    GenEdCourse {
                        code: "895-880".to_string(),
                        name: "Exercise for Health".to_string(),
                        credits: 2,
                    },
                    GenEdCourse {
                        code: "895-881".to_string(),
                        name: "Fat to Fit".to_string(),
                        credits: 2,
                    },
                    GenEdCourse {
                        code: "895-882".to_string(),
                        name: "Fit and Firm".to_string(),
                        credits: 2,
                    },
                    GenEdCourse {
                        code: "895-883".to_string(),
                        name: "Happy Camping".to_string(),
                        credits: 2,
                    },
                    GenEdCourse {
                        code: "895-884".to_string(),
                        name: "Basketball".to_string(),
                        credits: 2,
                    },
                ],
                selection_rule: SelectionRule::ChooseOne,
                sequence_groups: Vec::new(),
            },
        ],
        electives: GenEdElectives {
            name: "GenEd Electives (GE8)".to_string(),
            total_required_credits: 6,
            sub_categories: vec![
                GenEdElectiveSubCategory {
                    name: "English Language".to_string(),
                    required_credits: 0,
                    min_courses: 0,
                    max_courses: 99,
                    courses: vec![
                        GenEdCourse {
                            code: "890-811".to_string(),
                            name: "English Grammar for Real Life Communication".to_string(),
                            credits: 2,
                        },
                        GenEdCourse {
                            code: "890-821".to_string(),
                            name: "English Pronunciation through Songs".to_string(),
                            credits: 2,
                        },
                        GenEdCourse {
                            code: "890-831".to_string(),
                            name: "Strategic Reading for Greater Comprehension".to_string(),
                            credits: 2,
                        },
                        GenEdCourse {
                            code: "890-841".to_string(),
                            name: "English for Presentations and Visual Aids Design".to_string(),
                            credits: 2,
                        },
                        GenEdCourse {
                            code: "890-842".to_string(),
                            name: "English Listening and Speaking for Digital Citizens".to_string(),
                            credits: 2,
                        },
                        GenEdCourse {
                            code: "890-843".to_string(),
                            name: "English Conversation".to_string(),
                            credits: 2,
                        },
                        GenEdCourse {
                            code: "890-851".to_string(),
                            name: "Reading to Write in English".to_string(),
                            credits: 2,
                        },
                        GenEdCourse {
                            code: "890-852".to_string(),
                            name: "Academic Reading and Writing in English".to_string(),
                            credits: 2,
                        },
                        GenEdCourse {
                            code: "890-861".to_string(),
                            name: "Consolidating English through News".to_string(),
                            credits: 2,
                        },
                        GenEdCourse {
                            code: "890-862".to_string(),
                            name: "English around the Clock".to_string(),
                            credits: 2,
                        },
                        GenEdCourse {
                            code: "890-863".to_string(),
                            name: "English for Digital Literacy".to_string(),
                            credits: 2,
                        },
                        GenEdCourse {
                            code: "890-871".to_string(),
                            name: "English Writing with Online Technology".to_string(),
                            credits: 2,
                        },
                        GenEdCourse {
                            code: "890-872".to_string(),
                            name: "English and Digital Tools".to_string(),
                            credits: 2,
                        },
                        GenEdCourse {
                            code: "890-873".to_string(),
                            name: "Discovering English with Online Corpora".to_string(),
                            credits: 2,
                        },
                        GenEdCourse {
                            code: "890-874".to_string(),
                            name: "Google Translate Me".to_string(),
                            credits: 2,
                        },
                        GenEdCourse {
                            code: "890-881".to_string(),
                            name: "English for Job Applications".to_string(),
                            credits: 2,
                        },
                        GenEdCourse {
                            code: "890-882".to_string(),
                            name: "English in the Workplace".to_string(),
                            credits: 2,
                        },
                        GenEdCourse {
                            code: "890-883".to_string(),
                            name: "English for Travelers".to_string(),
                            credits: 2,
                        },
                        GenEdCourse {
                            code: "890-884".to_string(),
                            name: "English for Entrepreneurs and Consumers".to_string(),
                            credits: 2,
                        },
                        GenEdCourse {
                            code: "890-885".to_string(),
                            name: "English Test Taking Strategies for Employment".to_string(),
                            credits: 2,
                        },
                        GenEdCourse {
                            code: "890-886".to_string(),
                            name: "Learning English through Cultures".to_string(),
                            credits: 2,
                        },
                    ],
                },
                GenEdElectiveSubCategory {
                    name: "Foreign Languages".to_string(),
                    required_credits: 0,
                    min_courses: 0,
                    max_courses: 99,
                    courses: vec![
                        GenEdCourse {
                            code: "891-811".to_string(),
                            name: "First Steps to Japanese".to_string(),
                            credits: 2,
                        },
                        GenEdCourse {
                            code: "891-812".to_string(),
                            name: "Japanese Conversation in Daily Life".to_string(),
                            credits: 2,
                        },
                        GenEdCourse {
                            code: "891-813".to_string(),
                            name: "Japanese Conversation in the Workplace".to_string(),
                            credits: 2,
                        },
                        GenEdCourse {
                            code: "891-821".to_string(),
                            name: "Basic Chinese".to_string(),
                            credits: 2,
                        },
                        GenEdCourse {
                            code: "891-822".to_string(),
                            name: "Chinese Conversation in Daily Life".to_string(),
                            credits: 2,
                        },
                        GenEdCourse {
                            code: "891-823".to_string(),
                            name: "Chinese Conversation in the Workplace".to_string(),
                            credits: 2,
                        },
                        GenEdCourse {
                            code: "891-824".to_string(),
                            name: "Chinese Calligraphy".to_string(),
                            credits: 2,
                        },
                        GenEdCourse {
                            code: "891-831".to_string(),
                            name: "Basic Malay".to_string(),
                            credits: 2,
                        },
                        GenEdCourse {
                            code: "891-832".to_string(),
                            name: "Malay Conversation in Daily Life".to_string(),
                            credits: 2,
                        },
                        GenEdCourse {
                            code: "891-833".to_string(),
                            name: "Malay Conversation for Tourism".to_string(),
                            credits: 2,
                        },
                        GenEdCourse {
                            code: "891-841".to_string(),
                            name: "Survival Korean for Thais".to_string(),
                            credits: 2,
                        },
                        GenEdCourse {
                            code: "891-842".to_string(),
                            name: "Korean Conversation for Beginners".to_string(),
                            credits: 2,
                        },
                        GenEdCourse {
                            code: "891-843".to_string(),
                            name: "Insights into Korean Language and Culture".to_string(),
                            credits: 2,
                        },
                        GenEdCourse {
                            code: "891-861".to_string(),
                            name: "Getting to Know Bahasa Indonesia".to_string(),
                            credits: 2,
                        },
                        GenEdCourse {
                            code: "891-862".to_string(),
                            name: "Bahasa Indonesia for Everyday Communication".to_string(),
                            credits: 2,
                        },
                        GenEdCourse {
                            code: "891-863".to_string(),
                            name: "Bahasa Indonesia in the Workplace".to_string(),
                            credits: 2,
                        },
                    ],
                },
                GenEdElectiveSubCategory {
                    name: "Humanities and Social Sciences".to_string(),
                    required_credits: 0,
                    min_courses: 0,
                    max_courses: 99,
                    courses: vec![
                        GenEdCourse {
                            code: "895-811".to_string(),
                            name: "Psychology of Love".to_string(),
                            credits: 2,
                        },
                        GenEdCourse {
                            code: "895-812".to_string(),
                            name: "Psychology for Good Life".to_string(),
                            credits: 2,
                        },
                        GenEdCourse {
                            code: "895-813".to_string(),
                            name: "Workplace Newcomers".to_string(),
                            credits: 2,
                        },
                        GenEdCourse {
                            code: "895-814".to_string(),
                            name: "Knowing Others and Yourself through Human Behaviors".to_string(),
                            credits: 2,
                        },
                        GenEdCourse {
                            code: "895-815".to_string(),
                            name: "Social Interaction".to_string(),
                            credits: 2,
                        },
                        GenEdCourse {
                            code: "895-816".to_string(),
                            name: "Development Studies".to_string(),
                            credits: 2,
                        },
                        GenEdCourse {
                            code: "895-817".to_string(),
                            name: "Charming Personality".to_string(),
                            credits: 2,
                        },
                        GenEdCourse {
                            code: "895-818".to_string(),
                            name: "Life Skills in Society 5.0".to_string(),
                            credits: 2,
                        },
                        GenEdCourse {
                            code: "895-819".to_string(),
                            name: "Me and Others".to_string(),
                            credits: 2,
                        },
                        GenEdCourse {
                            code: "895-821".to_string(),
                            name: "Tourism and Superstition".to_string(),
                            credits: 2,
                        },
                        GenEdCourse {
                            code: "895-822".to_string(),
                            name: "Backpacking Trips".to_string(),
                            credits: 2,
                        },
                        GenEdCourse {
                            code: "895-823".to_string(),
                            name: "Psychology for Service".to_string(),
                            credits: 2,
                        },
                        GenEdCourse {
                            code: "895-824".to_string(),
                            name: "Creative Tourism".to_string(),
                            credits: 2,
                        },
                        GenEdCourse {
                            code: "895-825".to_string(),
                            name: "Volunteer Tourism".to_string(),
                            credits: 2,
                        },
                        GenEdCourse {
                            code: "895-826".to_string(),
                            name: "Passengers Your attention Please".to_string(),
                            credits: 2,
                        },
                        GenEdCourse {
                            code: "895-827".to_string(),
                            name: "ASEAN World Heritage Sites".to_string(),
                            credits: 2,
                        },
                        GenEdCourse {
                            code: "895-831".to_string(),
                            name: "Ethics for Life".to_string(),
                            credits: 2,
                        },
                        GenEdCourse {
                            code: "895-832".to_string(),
                            name: "Religious Diversity".to_string(),
                            credits: 2,
                        },
                        GenEdCourse {
                            code: "895-835".to_string(),
                            name: "Art in Multicultural Society".to_string(),
                            credits: 2,
                        },
                        GenEdCourse {
                            code: "895-836".to_string(),
                            name: "China : Past, Present, and Future".to_string(),
                            credits: 2,
                        },
                        GenEdCourse {
                            code: "895-837".to_string(),
                            name: "Astrology and Life".to_string(),
                            credits: 2,
                        },
                        GenEdCourse {
                            code: "895-838".to_string(),
                            name: "History in Movies".to_string(),
                            credits: 2,
                        },
                        GenEdCourse {
                            code: "895-841".to_string(),
                            name: "Communication Skills".to_string(),
                            credits: 2,
                        },
                        GenEdCourse {
                            code: "895-842".to_string(),
                            name: "Thai Listening and Speaking Skills".to_string(),
                            credits: 2,
                        },
                        GenEdCourse {
                            code: "895-844".to_string(),
                            name: "The Art of Creative Writing".to_string(),
                            credits: 2,
                        },
                        GenEdCourse {
                            code: "895-845".to_string(),
                            name: "ASEAN Literature".to_string(),
                            credits: 2,
                        },
                        GenEdCourse {
                            code: "895-846".to_string(),
                            name: "Man and Literature".to_string(),
                            credits: 2,
                        },
                        GenEdCourse {
                            code: "895-847".to_string(),
                            name: "Culture in Literature".to_string(),
                            credits: 2,
                        },
                        GenEdCourse {
                            code: "895-848".to_string(),
                            name: "Thai Language and Culture".to_string(),
                            credits: 2,
                        },
                        GenEdCourse {
                            code: "895-849".to_string(),
                            name: "The Art of Listening".to_string(),
                            credits: 2,
                        },
                        GenEdCourse {
                            code: "895-850".to_string(),
                            name: "Thai Usage".to_string(),
                            credits: 2,
                        },
                        GenEdCourse {
                            code: "895-851".to_string(),
                            name: "The Charm of Southern Thai Dialects".to_string(),
                            credits: 2,
                        },
                    ],
                },
                GenEdElectiveSubCategory {
                    name: "Science and Health".to_string(),
                    required_credits: 0,
                    min_courses: 0,
                    max_courses: 99,
                    courses: vec![
                        GenEdCourse {
                            code: "315-103".to_string(),
                            name: "Introduction to Intellectual Property".to_string(),
                            credits: 2,
                        },
                        GenEdCourse {
                            code: "336-214".to_string(),
                            name: "Smart Eating and Being Healthy".to_string(),
                            credits: 2,
                        },
                        GenEdCourse {
                            code: "336-215".to_string(),
                            name: "Safety Life from Toxic Substances".to_string(),
                            credits: 2,
                        },
                        GenEdCourse {
                            code: "336-216".to_string(),
                            name: "Drug and Health".to_string(),
                            credits: 2,
                        },
                        GenEdCourse {
                            code: "315-203".to_string(),
                            name: "Key to Nature".to_string(),
                            credits: 2,
                        },
                        GenEdCourse {
                            code: "315-205".to_string(),
                            name: "Science Entrepreneur Pitching".to_string(),
                            credits: 2,
                        },
                        GenEdCourse {
                            code: "315-206".to_string(),
                            name: "Science Facts".to_string(),
                            credits: 2,
                        },
                        GenEdCourse {
                            code: "338-101".to_string(),
                            name: "My body and health".to_string(),
                            credits: 2,
                        },
                    ],
                },
                GenEdElectiveSubCategory {
                    name: "Law".to_string(),
                    required_credits: 0,
                    min_courses: 0,
                    max_courses: 99,
                    courses: vec![
                        GenEdCourse {
                            code: "874-191".to_string(),
                            name: "Introduction to Thai Legal System".to_string(),
                            credits: 2,
                        },
                        GenEdCourse {
                            code: "874-192".to_string(),
                            name: "Law relating to Occupations and Everyday Life".to_string(),
                            credits: 2,
                        },
                        GenEdCourse {
                            code: "874-193".to_string(),
                            name: "General Principles of Law and Judicial Process".to_string(),
                            credits: 2,
                        },
                        GenEdCourse {
                            code: "874-194".to_string(),
                            name: "Taxation and Life".to_string(),
                            credits: 2,
                        },
                        GenEdCourse {
                            code: "874-195".to_string(),
                            name: "Human Rights and Citizenship".to_string(),
                            credits: 2,
                        },
                    ],
                },
                GenEdElectiveSubCategory {
                    name: "Interdisciplinary and Others".to_string(),
                    required_credits: 0,
                    min_courses: 0,
                    max_courses: 99,
                    courses: vec![
                        GenEdCourse {
                            code: "193-031".to_string(),
                            name: "Natural Therapy".to_string(),
                            credits: 2,
                        },
                        GenEdCourse {
                            code: "003-002".to_string(),
                            name: "PSU FOR MANKIND".to_string(),
                            credits: 2,
                        },
                        GenEdCourse {
                            code: "001-101".to_string(),
                            name: "ASEAN Studies".to_string(),
                            credits: 2,
                        },
                        GenEdCourse {
                            code: "858-154".to_string(),
                            name: "Green packaging in daily life".to_string(),
                            credits: 2,
                        },
                        GenEdCourse {
                            code: "858-161".to_string(),
                            name: "Nutrition and Healthy Food in Daily Life".to_string(),
                            credits: 2,
                        },
                        GenEdCourse {
                            code: "858-162".to_string(),
                            name: "Being a Smart Consumer".to_string(),
                            credits: 2,
                        },
                        GenEdCourse {
                            code: "670-411".to_string(),
                            name: "Leading your life".to_string(),
                            credits: 2,
                        },
                        GenEdCourse {
                            code: "500-101".to_string(),
                            name: "Happy farm".to_string(),
                            credits: 2,
                        },
                    ],
                },
            ],
        },
    };
    proof {
        reveal_with_fuel(course_credits, 4);
        reveal_with_fuel(quota_sum, 4);
        reveal_with_fuel(strand_requirements, 9);
        let pairs = r.strands@[5].sequence_groups@;
        let pc = r.strands@[5].courses@;
        assert(pc[1].code@ == pairs[0]@[0]@ && pc[2].code@ == pairs[0]@[1]@);
        assert(pc[2].code@ == pairs[1]@[0]@ && pc[3].code@ == pairs[1]@[1]@);
        assert(pc[3].code@ == pairs[2]@[0]@ && pc[4].code@ == pairs[2]@[1]@);
        assert(strand_wf(r.strands@[5]));
    }
    r
}

/// The major curriculum of the Computer Science programme.
pub fn get_major_curriculum() -> (r: MajorCurriculum)
    ensures
        r.total_required_credits == 96,
        r.capstone.options@.len() == 2,
        major_wf(r),
        r.basic_science.required_credits == 12,
        r.electives.total_required_credits == 12,
        r.electives.clusters_to_complete == 2,
        cluster_count(r.electives.domains@, r.electives.domains@.len()) == 14,
{
    let r = MajorCurriculum {
        name: "Major Specific Courses - Computer Science".to_string(),
        total_required_credits: 96,

        basic_science: MajorBasicScience {
            name: "Basic Science".to_string(),
            required_credits: 12,
            courses: vec![
                MajorCourse {
                    code: "324-101".to_string(),
                    name: "General Chemistry I".to_string(),
                    credits: 3,
                },
                MajorCourse {
                    code: "325-101".to_string(),
                    name: "General Chemistry Laboratory I".to_string(),
                    credits: 1,
                },
                MajorCourse {
                    code: "330-101".to_string(),
                    name: "Principles of Biology I".to_string(),
                    credits: 3,
                },
                MajorCourse {
                    code: "331-101".to_string(),
                    name: "Principles of Biology Laboratory I".to_string(),
                    credits: 1,
                },
                MajorCourse {
                    code: "332-101".to_string(),
                    name: "Fundamental Physics".to_string(),
                    credits: 3,
                },
                MajorCourse {
                    code: "333-101".to_string(),
                    name: "Fundamental Physics Laboratory".to_string(),
                    credits: 1,
                },
            ],
        },

        core_courses: MajorCoreCourses {
            name: "Core Courses".to_string(),
            required_credits: 56,
            courses: vec![
                MajorCourse {
                    code: "322-101".to_string(),
                    name: "Calculus I".to_string(),
                    credits: 3,
                },
                MajorCourse {
                    code: "322-102".to_string(),
                    name: "Calculus II".to_string(),
                    credits: 3,
                },
                MajorCourse {
                    code: "344-201".to_string(),
                    name: "MODULE: Computing for Computer Science".to_string(),
                    credits: 6,
                },
                MajorCourse {
                    code: "344-111".to_string(),
                    name: "MODULE: Programming Concepts and Algorithms".to_string(),
                    credits: 6,
                },
                MajorCourse {
                    code: "344-181".to_string(),
                    name: "Communication Skill in Technology".to_string(),
                    credits: 1,
                },
                MajorCourse {
                    code: "344-233".to_string(),
                    name: "MODULE: Information Systems Analysis and Design and Principles of Database Systems".to_string(),
                    credits: 6,
                },
                MajorCourse {
                    code: "344-211".to_string(),
                    name: "Introduction to Object-Oriented Programming".to_string(),
                    credits: 2,
                },
                MajorCourse {
                    code: "344-243".to_string(),
                    name: "Software Interactive Design".to_string(),
                    credits: 1,
                },
                MajorCourse {
                    code: "344-221".to_string(),
                    name: "Computer Architectures and Organization".to_string(),
                    credits: 2,
                },
                MajorCourse {
                    code: "344-222".to_string(),
                    name: "Operating Systems".to_string(),
                    credits: 2,
                },
                MajorCourse {
                    code: "344-223".to_string(),
                    name: "Fundamentals of Computer Security".to_string(),
                    credits: 2,
                },
                MajorCourse {
                    code: "344-281".to_string(),
                    name: "Public Speaking in Computer Science".to_string(),
                    credits: 1,
                },
                MajorCourse {
                    code: "344-341".to_string(),
                    name: "Software Engineering".to_string(),
                    credits: 3,
                },
                MajorCourse {
                    code: "344-351".to_string(),
                    name: "Data Communications and Networking".to_string(),
                    credits: 3,
                },
                MajorCourse {
                    code: "344-361".to_string(),
                    name: "Principles of Artificial Intelligence".to_string(),
                    credits: 3,
                },
                MajorCourse {
                    code: "344-381".to_string(),
                    name: "Thinking and Creativity for Innovation Design".to_string(),
                    credits: 2,
                },
                MajorCourse {
                    code: "344-382".to_string(),
                    name: "Ethics for Digital Technology".to_string(),
                    credits: 1,
                },
                MajorCourse {
                    code: "344-491".to_string(),
                    name: "Seminar in Computer Science".to_string(),
                    credits: 1,
                },
            ],
        },

        capstone: MajorCapstone {
            name: "Capstone".to_string(),
            credits_per_option: 3,
            options: vec![
                MajorCourse {
                    code: "344-492".to_string(),
                    name: "Projects in Computer Science".to_string(),
                    credits: 3,
                },
                MajorCourse {
                    code: "344-495".to_string(),
                    name: "Cooperative Education".to_string(),
                    credits: 6,
                },
            ],
        },

        electives: MajorElectives {
            name: "Electives".to_string(),
            total_required_credits: 12,
            clusters_to_complete: 2,
            domains: vec![
                MajorDomain {
                    id: 1,
                    name: "Big Data & Business Intelligence".to_string(),
                    description: Some("Cluster-based electives for data-driven technologies".to_string()),
                    clusters: vec![
                        MajorCluster {
                            id: "1.1".to_string(),
                            name: "Big Data".to_string(),
                            description: None,
                            min_courses: 3,
                            courses: vec![
                                MajorCourse {
                                    code: "344-331".to_string(),
                                    name: "Data Science".to_string(),
                                    credits: 3,
                                },
                                MajorCourse {
                                    code: "344-332".to_string(),
                                    name: "Data Mining".to_string(),
                                    credits: 3,
                                },
                                MajorCourse {
                                    code: "344-431".to_string(),
                                    name: "Big Data".to_string(),
                                    credits: 3,
                                },
                            ],
                        },
                        MajorCluster {
                            id: "1.2".to_string(),
                            name: "Business Intelligence".to_string(),
                            description: None,
                            min_courses: 3,
                            courses: vec![
                                MajorCourse {
                                    code: "344-232".to_string(),
                                    name: "Knowledge Management and Decision Support Systems".to_string(),
                                    credits: 3,
                                },
                                MajorCourse {
                                    code: "344-333".to_string(),
                                    name: "Data Analytics and Visualization".to_string(),
                                    credits: 3,
                                },
                                MajorCourse {
                                    code: "344-334".to_string(),
                                    name: "Business Intelligent Systems".to_string(),
                                    credits: 3,
                                },
                            ],
                        },
                        MajorCluster {
                            id: "1.3".to_string(),
                            name: "Information-driven Technology".to_string(),
                            description: None,
                            min_courses: 3,
                            courses: vec![
                                MajorCourse {
                                    code: "344-311".to_string(),
                                    name: "Advanced Object-Oriented Programming".to_string(),
                                    credits: 3,
                                },
                                MajorCourse {
                                    code: "344-432".to_string(),
                                    name: "Next Generation Database Technologies".to_string(),
                                    credits: 3,
                                },
                                MajorCourse {
                                    code: "344-401".to_string(),
                                    name: "Cryptography and Security".to_string(),
                                    credits: 3,
                                },
                            ],
                        },
                    ],
                },

                MajorDomain {
                    id: 2,
                    name: "Internet & Network Technology".to_string(),
                    description: Some("Cluster-based electives for network and internet technologies".to_string()),
                    clusters: vec![
                        MajorCluster {
                            id: "2.1".to_string(),
                            name: "Network Technology".to_string(),
                            description: None,
                            min_courses: 3,
                            courses: vec![
                                MajorCourse {
                                    code: "344-352".to_string(),
                                    name: "Computer Network Systems".to_string(),
                                    credits: 3,
                                },
                                MajorCourse {
                                    code: "344-353".to_string(),
                                    name: "Computer Systems and Network Security".to_string(),
                                    credits: 3,
                                },
                                MajorCourse {
                                    code: "344-451".to_string(),
                                    name: "Internet Technology and Applications".to_string(),
                                    credits: 3,
                                },
                            ],
                        },
                        MajorCluster {
                            id: "2.2".to_string(),
                            name: "Wireless and Mobile Technology".to_string(),
                            description: None,
                            min_courses: 3,
                            courses: vec![
                                MajorCourse {
                                    code: "344-212".to_string(),
                                    name: "Web Application Programming".to_string(),
                                    credits: 3,
                                },
                                MajorCourse {
                                    code: "344-312".to_string(),
                                    name: "Mobile Application Development".to_string(),
                                    credits: 3,
                                },
                                MajorCourse {
                                    code: "344-321".to_string(),
                                    name: "Wireless Technology".to_string(),
                                    credits: 3,
                                },
                            ],
                        },
                        MajorCluster {
                            id: "2.3".to_string(),
                            name: "Internet Technology".to_string(),
                            description: None,
                            min_courses: 3,
                            courses: vec![
                                MajorCourse {
                                    code: "344-322".to_string(),
                                    name: "Embedded Systems".to_string(),
                                    credits: 3,
                                },
                                MajorCourse {
                                    code: "344-323".to_string(),
                                    name: "Internet of Things".to_string(),
                                    credits: 3,
                                },
                                MajorCourse {
                                    code: "344-324".to_string(),
                                    name: "Cloud Computing Systems".to_string(),
                                    credits: 3,
                                },
                            ],
                        },
                    ],
                },

                MajorDomain {
                    id: 3,
                    name: "Software Development".to_string(),
                    description: Some("Cluster-based electives for software development specialization".to_string()),
                    clusters: vec![
                        MajorCluster {
                            id: "3.1".to_string(),
                            name: "Software Assessment and QA".to_string(),
                            description: None,
                            min_courses: 3,
                            courses: vec![
                                MajorCourse {
                                    code: "344-342".to_string(),
                                    name: "Software Testing Techniques".to_string(),
                                    credits: 3,
                                },
                                MajorCourse {
                                    code: "344-441".to_string(),
                                    name: "Software Project and Quality Management".to_string(),
                                    credits: 3,
                                },
                                MajorCourse {
                                    code: "344-442".to_string(),
                                    name: "Software Measurement and Evaluation".to_string(),
                                    credits: 3,
                                },
                            ],
                        },
                        MajorCluster {
                            id: "3.2".to_string(),
                            name: "Software Development and Management".to_string(),
                            description: None,
                            min_courses: 3,
                            courses: vec![
                                MajorCourse {
                                    code: "344-242".to_string(),
                                    name: "Principles of Business Software Development".to_string(),
                                    credits: 3,
                                },
                                MajorCourse {
                                    code: "344-335".to_string(),
                                    name: "Database Application Development".to_string(),
                                    credits: 3,
                                },
                                MajorCourse {
                                    code: "344-443".to_string(),
                                    name: "Object-Oriented Analysis and Design".to_string(),
                                    credits: 3,
                                },
                            ],
                        },
                        MajorCluster {
                            id: "3.3".to_string(),
                            name: "UI/UX Design".to_string(),
                            description: None,
                            min_courses: 3,
                            courses: vec![
                                MajorCourse {
                                    code: "344-343".to_string(),
                                    name: "Introduction to User Experience Design".to_string(),
                                    credits: 3,
                                },
                                MajorCourse {
                                    code: "344-344".to_string(),
                                    name: "Usability Evaluation".to_string(),
                                    credits: 3,
                                },
                                MajorCourse {
                                    code: "344-444".to_string(),
                                    name: "Information Architecture for User Experience Design".to_string(),
                                    credits: 3,
                                },
                            ],
                        },
                        MajorCluster {
                            id: "3.4".to_string(),
                            name: "Database Development".to_string(),
                            description: None,
                            min_courses: 3,
                            courses: vec![
                                MajorCourse {
                                    code: "344-335".to_string(),
                                    name: "Database Application Development".to_string(),
                                    credits: 3,
                                },
                                MajorCourse {
                                    code: "344-433".to_string(),
                                    name: "Database Administration and Maintenance".to_string(),
                                    credits: 3,
                                },
                                MajorCourse {
                                    code: "344-434".to_string(),
                                    name: "Database Performance Tuning".to_string(),
                                    credits: 3,
                                },
                            ],
                        },
                    ],
                },

                MajorDomain {
                    id: 4,
                    name: "AI & Computer Vision".to_string(),
                    description: Some("Cluster-based electives for AI and computer vision specialization".to_string()),
                    clusters: vec![
                        MajorCluster {
                            id: "4.1".to_string(),
                            name: "AI".to_string(),
                            description: Some("Choose 1 from: Neural Networks / Pattern Recognition / Internet of Robotic Things".to_string()),
                            min_courses: 5,
                            courses: vec![
                                MajorCourse {
                                    code: "344-261".to_string(),
                                    name: "Artificial Intelligence for Everyone".to_string(),
                                    credits: 3,
                                },
                                MajorCourse {
                                    code: "344-362".to_string(),
                                    name: "Machine Learning".to_string(),
                                    credits: 3,
                                },
                                MajorCourse {
                                    code: "344-461".to_string(),
                                    name: "Neural Networks".to_string(),
                                    credits: 3,
                                },
                                MajorCourse {
                                    code: "344-462".to_string(),
                                    name: "Pattern Recognition".to_string(),
                                    credits: 3,
                                },
                                MajorCourse {
                                    code: "344-463".to_string(),
                                    name: "Internet of Robotic Things".to_string(),
                                    credits: 3,
                                },
                            ],
                        },
                        MajorCluster {
                            id: "4.2".to_string(),
                            name: "Linguistic Intelligence".to_string(),
                            description: None,
                            min_courses: 3,
                            courses: vec![
                                MajorCourse {
                                    code: "344-363".to_string(),
                                    name: "Natural Language Processing".to_string(),
                                    credits: 3,
                                },
                                MajorCourse {
                                    code: "344-464".to_string(),
                                    name: "Text Mining and Sentiment Analysis".to_string(),
                                    credits: 3,
                                },
                                MajorCourse {
                                    code: "344-465".to_string(),
                                    name: "Linguistic Intelligence and Machine Translation".to_string(),
                                    credits: 3,
                                },
                            ],
                        },
                        MajorCluster {
                            id: "4.3".to_string(),
                            name: "Game Programming".to_string(),
                            description: None,
                            min_courses: 3,
                            courses: vec![
                                MajorCourse {
                                    code: "344-271".to_string(),
                                    name: "3D Modeling and Animation".to_string(),
                                    credits: 3,
                                },
                                MajorCourse {
                                    code: "344-371".to_string(),
                                    name: "Introduction to Computer Game Programming".to_string(),
                                    credits: 3,
                                },
                                MajorCourse {
                                    code: "344-372".to_string(),
                                    name: "Advanced Game Development".to_string(),
                                    credits: 3,
                                },
                            ],
                        },
                        MajorCluster {
                            id: "4.4".to_string(),
                            name: "Computer Vision".to_string(),
                            description: None,
                            min_courses: 3,
                            courses: vec![
                                MajorCourse {
                                    code: "344-373".to_string(),
                                    name: "Fundamentals of Digital Image Processing".to_string(),
                                    credits: 3,
                                },
                                MajorCourse {
                                    code: "344-374".to_string(),
                                    name: "Advanced Digital Image Processing".to_string(),
                                    credits: 3,
                                },
                                MajorCourse {
                                    code: "344-471".to_string(),
                                    name: "Computer Vision and Applications".to_string(),
                                    credits: 3,
                                },
                            ],
                        },
                    ],
                },
            ],
            others: vec![
                MajorCourse {
                    code: "344-496".to_string(),
                    name: "Special Topics in Computer Science".to_string(),
                    credits: 3,
                },
                MajorCourse {
                    code: "344-493".to_string(),
                    name: "Selected Topic in Computer Science I".to_string(),
                    credits: 3,
                },
                MajorCourse {
                    code: "344-494".to_string(),
                    name: "Selected Topic in Computer Science II".to_string(),
                    credits: 3,
                },
            ],
        },
    };
    proof {
        reveal_with_fuel(course_credits, 8);
        reveal_with_fuel(cluster_count, 6);
        reveal_strlit("322-101");
        reveal_strlit("322-102");
        reveal_strlit("324-101");
        reveal_strlit("325-101");
        reveal_strlit("330-101");
        reveal_strlit("331-101");
        reveal_strlit("332-101");
        reveal_strlit("333-101");
        reveal_strlit("344-111");
        reveal_strlit("344-181");
        reveal_strlit("344-201");
        reveal_strlit("344-211");
        reveal_strlit("344-212");
        reveal_strlit("344-221");
        reveal_strlit("344-222");
        reveal_strlit("344-223");
        reveal_strlit("344-232");
        reveal_strlit("344-233");
        reveal_strlit("344-242");
        reveal_strlit("344-243");
        reveal_strlit("344-261");
        reveal_strlit("344-271");
        reveal_strlit("344-281");
        reveal_strlit("344-311");
        reveal_strlit("344-312");
        reveal_strlit("344-321");
        reveal_strlit("344-322");
        reveal_strlit("344-323");
        reveal_strlit("344-324");
        reveal_strlit("344-331");
        reveal_strlit("344-332");
        reveal_strlit("344-333");
        reveal_strlit("344-334");
        reveal_strlit("344-335");
        reveal_strlit("344-341");
        reveal_strlit("344-342");
        reveal_strlit("344-343");
        reveal_strlit("344-344");
        reveal_strlit("344-351");
        reveal_strlit("344-352");
        reveal_strlit("344-353");
        reveal_strlit("344-361");
        reveal_strlit("344-362");
        reveal_strlit("344-363");
        reveal_strlit("344-371");
        reveal_strlit("344-372");
        reveal_strlit("344-373");
        reveal_strlit("344-374");
        reveal_strlit("344-381");
        reveal_strlit("344-382");
        reveal_strlit("344-401");
        reveal_strlit("344-431");
        reveal_strlit("344-432");
        reveal_strlit("344-433");
        reveal_strlit("344-434");
        reveal_strlit("344-441");
        reveal_strlit("344-442");
        reveal_strlit("344-443");
        reveal_strlit("344-444");
        reveal_strlit("344-451");
        reveal_strlit("344-461");
        reveal_strlit("344-462");
        reveal_strlit("344-463");
        reveal_strlit("344-464");
        reveal_strlit("344-465");
        reveal_strlit("344-471");
        reveal_strlit("344-491");
        reveal_strlit("344-492");
        reveal_strlit("344-493");
        reveal_strlit("344-494");
        reveal_strlit("344-495");
        reveal_strlit("344-496");
        let m = r;
        lemma_apart_by_key(m.basic_science.courses@, m.core_courses.courses@);
        lemma_apart_by_key(m.basic_science.courses@, m.capstone.options@);
        lemma_apart_by_key(m.basic_science.courses@, m.electives.others@);
        lemma_apart_by_key(m.core_courses.courses@, m.capstone.options@);
        lemma_apart_by_key(m.core_courses.courses@, m.electives.others@);
        lemma_apart_by_key(m.capstone.options@, m.electives.others@);
    }
    r
}

} // verus!
