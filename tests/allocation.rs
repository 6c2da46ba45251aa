use course_audit::models::{
    CurriculumCourse, GenEdCurriculum, GenEdElectiveSubCategory, GenEdElectives, GenEdStrand,
    GenEdSubGroup, Grade, MajorBasicScience, MajorCapstone, MajorCluster, MajorCoreCourses,
    MajorCurriculum, MajorDomain, MajorElectives, ParsedCourse, SelectionRule,
};
use course_audit::{audit_gen_ed, audit_major, audit_transcript, calculate_free_electives};

fn rec(code: &str, name: &str, grade: Grade, credit: u32) -> ParsedCourse {
    ParsedCourse { code: code.to_string(), name: name.to_string(), grade, parsed_credit: credit }
}

fn course(code: &str, name: &str, credits: u32) -> CurriculumCourse {
    CurriculumCourse { code: code.to_string(), name: name.to_string(), credits }
}

fn strand(name: &str, rule: SelectionRule, courses: Vec<CurriculumCourse>) -> GenEdStrand {
    GenEdStrand {
        id: 1,
        name: name.to_string(),
        required_credits: 0,
        sub_groups: Vec::new(),
        courses,
        selection_rule: rule,
        sequence_groups: Vec::new(),
    }
}

fn gen_ed(total: u32, strands: Vec<GenEdStrand>) -> GenEdCurriculum {
    GenEdCurriculum {
        name: "General Education".to_string(),
        total_required_credits: total,
        strands,
        electives: GenEdElectives {
            name: "GenEd Electives".to_string(),
            total_required_credits: 0,
            sub_categories: Vec::new(),
        },
    }
}

fn major(
    basic: Vec<CurriculumCourse>,
    core: Vec<CurriculumCourse>,
    capstone: Vec<CurriculumCourse>,
    domains: Vec<MajorDomain>,
    clusters_to_complete: u32,
    others: Vec<CurriculumCourse>,
) -> MajorCurriculum {
    MajorCurriculum {
        name: "Major".to_string(),
        total_required_credits: 96,
        basic_science: MajorBasicScience { name: "Basic Science".to_string(), required_credits: 0, courses: basic },
        core_courses: MajorCoreCourses { name: "Core Courses".to_string(), required_credits: 0, courses: core },
        capstone: MajorCapstone { name: "Capstone".to_string(), credits_per_option: 6, options: capstone },
        electives: MajorElectives {
            name: "Major Electives".to_string(),
            total_required_credits: 0,
            clusters_to_complete,
            domains,
            others,
        },
    }
}

fn empty_major() -> MajorCurriculum {
    major(Vec::new(), Vec::new(), vec![course("CAP-001", "Project", 6)], Vec::new(), 0, Vec::new())
}

fn descriptions(ms: &[course_audit::models::MissingCourse]) -> Vec<String> {
    ms.iter().map(|m| format!("{}|{}", m.category, m.description)).collect()
}

#[test]
fn choose_all_two_courses_both_passed() {
    let cur = gen_ed(4, vec![strand("King", SelectionRule::ChooseAll, vec![
        course("003-001", "Volunteer", 3),
        course("388-100", "Health", 1),
    ])]);
    let cs = vec![rec("003-001", "VOLUNTEER", Grade::A, 3), rec("388-100", "HEALTH", Grade::B, 1)];
    let (credits, missing, used) = audit_gen_ed(&cs, &cur);
    assert_eq!(credits, 4);
    assert!(missing.is_empty());
    assert_eq!(used, vec![true, true]);
}

#[test]
fn choose_all_reports_each_missing_course() {
    let cur = gen_ed(0, vec![strand("King", SelectionRule::ChooseAll, vec![
        course("003-001", "Volunteer", 3),
        course("388-100", "Health", 1),
    ])]);
    let cs = vec![rec("003-001", "VOLUNTEER", Grade::F, 3)];
    let (credits, missing, used) = audit_gen_ed(&cs, &cur);
    assert_eq!(credits, 0);
    assert_eq!(used, vec![false]);
    assert_eq!(descriptions(&missing), vec![
        "General Education|King: 003-001 - Volunteer".to_string(),
        "General Education|King: 388-100 - Health".to_string(),
    ]);
}

#[test]
fn choose_one_takes_the_listed_course_that_was_passed() {
    let cur = gen_ed(2, vec![strand("Lang", SelectionRule::ChooseOne, vec![
        course("A-001", "Alpha", 2),
        course("B-001", "Beta", 2),
    ])]);
    let cs = vec![rec("B-001", "BETA", Grade::C, 2)];
    let (credits, missing, used) = audit_gen_ed(&cs, &cur);
    assert_eq!(credits, 2);
    assert!(missing.is_empty());
    assert_eq!(used, vec![true]);
}

#[test]
fn choose_one_awards_a_single_course() {
    let cur = gen_ed(0, vec![strand("Lang", SelectionRule::ChooseOne, vec![
        course("A-001", "Alpha", 2),
        course("B-001", "Beta", 2),
    ])]);
    let cs = vec![rec("B-001", "BETA", Grade::C, 2), rec("A-001", "ALPHA", Grade::A, 2)];
    let (credits, missing, used) = audit_gen_ed(&cs, &cur);
    assert_eq!(credits, 2);
    assert!(missing.is_empty());
    assert_eq!(used, vec![false, true]);
}

#[test]
fn choose_one_without_match_lists_all_options() {
    let cur = gen_ed(0, vec![strand("Lang", SelectionRule::ChooseOne, vec![
        course("A-001", "Alpha", 2),
        course("B-001", "Beta", 2),
    ])]);
    let (credits, missing, _) = audit_gen_ed(&[], &cur);
    assert_eq!(credits, 0);
    assert_eq!(descriptions(&missing), vec![
        "General Education|Lang: choose 1 (A-001 - Alpha OR B-001 - Beta)".to_string(),
    ]);
}

#[test]
fn choose_one_with_no_options_is_unmet() {
    let cur = gen_ed(0, vec![strand("Empty", SelectionRule::ChooseOne, Vec::new())]);
    let (_, missing, _) = audit_gen_ed(&[rec("A-001", "ALPHA", Grade::A, 2)], &cur);
    assert_eq!(descriptions(&missing), vec!["General Education|Empty: choose 1 ()".to_string()]);
}

fn pair_strand() -> GenEdStrand {
    let mut s = strand("English", SelectionRule::ChooseSequentialPair, vec![
        course("X", "Ex", 2),
        course("Y", "Why", 2),
        course("Z", "Zed", 3),
    ]);
    s.sequence_groups = vec![
        vec!["X".to_string(), "Y".to_string()],
        vec!["Y".to_string(), "Z".to_string()],
    ];
    s
}

#[test]
fn sequential_pair_matches_the_second_pair() {
    let cur = gen_ed(5, vec![pair_strand()]);
    let cs = vec![rec("Y", "WHY", Grade::A, 2), rec("Z", "ZED", Grade::B, 3)];
    let (credits, missing, used) = audit_gen_ed(&cs, &cur);
    assert_eq!(credits, 5);
    assert!(missing.is_empty());
    assert_eq!(used, vec![true, true]);
}

#[test]
fn sequential_pair_never_awards_half_a_pair() {
    let cur = gen_ed(0, vec![pair_strand()]);
    let cs = vec![rec("X", "EX", Grade::A, 2)];
    let (credits, missing, used) = audit_gen_ed(&cs, &cur);
    assert_eq!(credits, 0);
    assert_eq!(used, vec![false]);
    assert_eq!(descriptions(&missing), vec![
        "General Education|English: choose one pair (X + Y OR Y + Z)".to_string(),
    ]);
}

#[test]
fn sub_groups_stop_at_quota_and_report_deficit() {
    let mut s = strand("Thinking", SelectionRule::ChooseAllSubGroups, Vec::new());
    s.sub_groups = vec![
        GenEdSubGroup {
            name: "GE2A".to_string(),
            required_credits: 2,
            courses: vec![course("L-1", "Logic", 2), course("L-2", "Numbers", 2)],
        },
        GenEdSubGroup {
            name: "GE2B".to_string(),
            required_credits: 4,
            courses: vec![course("S-1", "Systems", 2), course("S-2", "Models", 2)],
        },
    ];
    let cur = gen_ed(0, vec![s]);
    let cs = vec![
        rec("L-1", "LOGIC", Grade::A, 2),
        rec("L-2", "NUMBERS", Grade::A, 2),
        rec("S-2", "MODELS", Grade::A, 2),
    ];
    let (credits, missing, used) = audit_gen_ed(&cs, &cur);
    assert_eq!(credits, 4);
    assert_eq!(used, vec![true, false, true]);
    assert_eq!(descriptions(&missing), vec![
        "General Education|Thinking > GE2B: missing 2.0 credits (options: S-1 - Systems)"
            .to_string(),
    ]);
}

#[test]
fn electives_and_overall_summaries() {
    let mut cur = gen_ed(10, Vec::new());
    cur.electives.total_required_credits = 6;
    cur.electives.sub_categories = vec![GenEdElectiveSubCategory {
        name: "English Language".to_string(),
        required_credits: 4,
        min_courses: 0,
        max_courses: 99,
        courses: vec![course("E-1", "Reading", 2), course("E-2", "Writing", 2)],
    }];
    let cs = vec![rec("E-2", "WRITING", Grade::BPlus, 2)];
    let (credits, missing, _) = audit_gen_ed(&cs, &cur);
    assert_eq!(credits, 2);
    assert_eq!(descriptions(&missing), vec![
        "General Education|GenEd Elective > English Language: missing 2.0 credits".to_string(),
        "General Education|GenEd Electives: missing 4.0 credits".to_string(),
        "General Education|Overall General Education: missing 8.0 credits".to_string(),
    ]);
}

#[test]
fn credit_is_capped_by_the_transcript_value() {
    let cur = gen_ed(0, vec![strand("King", SelectionRule::ChooseAll, vec![course("003-001", "Volunteer", 3)])]);
    let (credits, _, _) = audit_gen_ed(&[rec("003-001", "VOLUNTEER", Grade::A, 2)], &cur);
    assert_eq!(credits, 2);
    let (credits, _, _) = audit_gen_ed(&[rec("003-001", "VOLUNTEER", Grade::A, 5)], &cur);
    assert_eq!(credits, 3);
}

#[test]
fn failed_and_withdrawn_records_do_not_match() {
    let cur = gen_ed(0, vec![strand("King", SelectionRule::ChooseAll, vec![course("003-001", "Volunteer", 3)])]);
    let cs = vec![
        rec("003-001", "VOLUNTEER", Grade::F, 3),
        rec("003-001", "VOLUNTEER", Grade::Withdrawn, 3),
        rec("003-001", "VOLUNTEER", Grade::Satisfactory, 3),
    ];
    let (credits, _, used) = audit_gen_ed(&cs, &cur);
    assert_eq!(credits, 3);
    assert_eq!(used, vec![false, false, true]);
}

fn cluster(courses: Vec<CurriculumCourse>, min: u32) -> MajorCluster {
    MajorCluster { id: "1.1".to_string(), name: "Big Data".to_string(), min_courses: min, description: None, courses }
}

#[test]
fn cluster_with_two_of_three_is_completed() {
    let domains = vec![MajorDomain {
        id: 1,
        name: "Data".to_string(),
        description: None,
        clusters: vec![cluster(vec![course("D-1", "Science", 3), course("D-2", "Mining", 3), course("D-3", "Big", 3)], 2)],
    }];
    let m = major(Vec::new(), Vec::new(), Vec::new(), domains, 1, Vec::new());
    let cs = vec![rec("D-1", "SCIENCE", Grade::A, 3), rec("D-3", "BIG", Grade::B, 3)];
    let (completed, electives, missing, used) = audit_major(&cs, &m, &vec![false, false]);
    assert_eq!(completed, 0);
    assert_eq!(electives, 6);
    assert_eq!(used, vec![true, true]);
    assert_eq!(descriptions(&missing), vec![
        "Basic Science|no courses listed".to_string(),
        "Core Courses|no courses listed".to_string(),
        "Capstone|Choose 1: ".to_string(),
    ]);
}

#[test]
fn cluster_counts_courses_consumed_elsewhere() {
    let domains = vec![MajorDomain {
        id: 1,
        name: "Data".to_string(),
        description: None,
        clusters: vec![cluster(vec![course("D-1", "Science", 3), course("D-2", "Mining", 3)], 2)],
    }];
    let m = major(Vec::new(), Vec::new(), Vec::new(), domains, 1, Vec::new());
    let cs = vec![rec("D-1", "SCIENCE", Grade::A, 3), rec("D-2", "MINING", Grade::B, 3)];
    let (_, electives, missing, used) = audit_major(&cs, &m, &vec![true, false]);
    assert_eq!(electives, 3);
    assert_eq!(used, vec![false, true]);
    assert_eq!(descriptions(&missing), vec![
        "Basic Science|no courses listed".to_string(),
        "Core Courses|no courses listed".to_string(),
        "Capstone|Choose 1: ".to_string(),
    ]);
}

#[test]
fn too_few_clusters_gives_one_summary_entry() {
    let domains = vec![MajorDomain {
        id: 1,
        name: "Data".to_string(),
        description: None,
        clusters: vec![
            cluster(vec![course("D-1", "Science", 3), course("D-2", "Mining", 3)], 2),
            cluster(vec![course("W-1", "Web", 3)], 1),
        ],
    }];
    let m = major(Vec::new(), Vec::new(), vec![course("344-492", "Projects", 6)], domains, 2, Vec::new());
    let cs = vec![rec("D-1", "SCIENCE", Grade::A, 3), rec("344-492", "PROJECTS", Grade::A, 6)];
    let (completed, electives, missing, _) = audit_major(&cs, &m, &vec![false, false]);
    assert_eq!(completed, 6);
    assert_eq!(electives, 3);
    assert_eq!(descriptions(&missing), vec![
        "Basic Science|no courses listed".to_string(),
        "Core Courses|no courses listed".to_string(),
        "Major Electives|Required: 2 Clusters, Completed: 0. Please complete all courses within at least 2 clusters."
            .to_string(),
    ]);
}

#[test]
fn others_bucket_takes_every_repeat() {
    let m = major(Vec::new(), Vec::new(), Vec::new(), Vec::new(), 0, vec![course("SPECIAL-001", "Special Topics", 3)]);
    let cs = vec![
        rec("SPECIAL-001", "SPECIAL TOPICS (Topic 1)", Grade::A, 3),
        rec("SPECIAL-001", "SPECIAL TOPICS (Topic 2)", Grade::B, 3),
    ];
    let (completed, electives, _, used) = audit_major(&cs, &m, &vec![false, false]);
    assert_eq!(completed, 0);
    assert_eq!(electives, 6);
    assert_eq!(used, vec![true, true]);
}

#[test]
fn basic_science_core_and_capstone() {
    let m = major(
        vec![course("324-101", "Chemistry", 3)],
        vec![course("322-101", "Calculus I", 3), course("322-102", "Calculus II", 3)],
        vec![course("344-492", "Projects", 6), course("344-493", "Co-op", 6)],
        Vec::new(),
        0,
        Vec::new(),
    );
    let cs = vec![
        rec("322-101", "CALCULUS I", Grade::A, 3),
        rec("344-493", "CO-OP", Grade::Satisfactory, 6),
        rec("344-492", "PROJECTS", Grade::A, 6),
    ];
    let (completed, electives, missing, used) = audit_major(&cs, &m, &vec![false, false, false]);
    assert_eq!(completed, 9);
    assert_eq!(electives, 0);
    assert_eq!(used, vec![true, false, true]);
    assert_eq!(descriptions(&missing), vec![
        "Basic Science|324-101 - Chemistry".to_string(),
        "Core Courses|322-102 - Calculus II".to_string(),
    ]);
}

#[test]
fn missing_capstone_lists_options() {
    let m = major(Vec::new(), Vec::new(), vec![course("344-492", "Projects", 6), course("344-493", "Co-op", 6)], Vec::new(), 0, Vec::new());
    let (_, _, missing, _) = audit_major(&[], &m, &Vec::new());
    assert_eq!(descriptions(&missing), vec![
        "Basic Science|no courses listed".to_string(),
        "Core Courses|no courses listed".to_string(),
        "Capstone|Choose 1: 344-492 (Projects) OR 344-493 (Co-op)".to_string(),
    ]);
}

#[test]
fn free_electives_dedupe_by_code_and_name() {
    let cs = vec![
        rec("999-001", "Pottery", Grade::A, 3),
        rec("999-001", "POTTERY", Grade::B, 3),
        rec("999-002", "Pottery", Grade::A, 2),
        rec("999-003", "Failed", Grade::F, 3),
    ];
    let (credits, list) = calculate_free_electives(&cs, &vec![false, false, false, false]);
    assert_eq!(credits, 5);
    assert_eq!(list, vec![
        "999-001 (Grade: A, 3 cr)".to_string(),
        "999-002 (Grade: A, 2 cr)".to_string(),
    ]);
}

#[test]
fn free_electives_skip_used_records() {
    let cs = vec![rec("999-001", "Pottery", Grade::A, 3), rec("999-001", "Pottery", Grade::BPlus, 4)];
    let (credits, list) = calculate_free_electives(&cs, &vec![true, false]);
    assert_eq!(credits, 4);
    assert_eq!(list, vec!["999-001 (Grade: B+, 4 cr)".to_string()]);
}

#[test]
fn unmatched_record_becomes_one_free_elective() {
    let cur = gen_ed(0, Vec::new());
    let m = major(Vec::new(), Vec::new(), Vec::new(), Vec::new(), 0, Vec::new());
    let cs = vec![rec("777-777", "SAILING", Grade::A, 3)];
    let r = audit_transcript(&cs, &cur, &m);
    assert_eq!(r.total_credits, 3);
    assert_eq!(r.categories.len(), 3);
    assert_eq!(r.categories[2].name, "Free Electives");
    assert_eq!(r.categories[2].required_credits, 6);
    assert_eq!(r.categories[2].collected_credits, 3);
    assert_eq!(r.categories[2].courses.len(), 1);
    assert_eq!(r.categories[2].courses[0].code, "777-777");
    assert_eq!(r.categories[2].courses[0].credit, 3);
    assert!(r.categories[0].courses.is_empty());
    assert!(r.categories[1].courses.is_empty());
    assert!(descriptions(&r.missing_subjects).iter().all(|d| !d.contains("777-777")));
}

#[test]
fn audit_classifies_each_record_once() {
    let cur = gen_ed(3, vec![strand("King", SelectionRule::ChooseAll, vec![course("003-001", "Volunteer", 3)])]);
    let m = major(vec![course("003-001", "Volunteer", 3)], Vec::new(), Vec::new(), Vec::new(), 0, Vec::new());
    let cs = vec![
        rec("003-001", "VOLUNTEER", Grade::A, 3),
        rec("003-001", "VOLUNTEER", Grade::A, 3),
        rec("555-555", "CHESS", Grade::A, 1),
        rec("555-555", "CHESS", Grade::A, 1),
    ];
    let r = audit_transcript(&cs, &cur, &m);
    assert_eq!(r.categories[0].collected_credits, 3);
    assert_eq!(r.categories[1].collected_credits, 3);
    assert_eq!(r.categories[2].collected_credits, 1);
    assert_eq!(r.total_credits, 7);
    let listed: usize = r.categories.iter().map(|c| c.courses.len()).sum();
    assert_eq!(listed, 3);
}

#[test]
fn gen_ed_entries_suppressed_once_total_is_met() {
    let cur = gen_ed(3, vec![
        strand("King", SelectionRule::ChooseAll, vec![course("003-001", "Volunteer", 3)]),
        strand("Lang", SelectionRule::ChooseOne, vec![course("A-001", "Alpha", 2)]),
    ]);
    let m = major(vec![course("324-101", "Chemistry", 3)], Vec::new(), Vec::new(), Vec::new(), 0, Vec::new());
    let cs = vec![rec("003-001", "VOLUNTEER", Grade::A, 3)];
    let r = audit_transcript(&cs, &cur, &m);
    assert_eq!(descriptions(&r.missing_subjects), vec![
        "Basic Science|324-101 - Chemistry".to_string(),
        "Core Courses|no courses listed".to_string(),
        "Capstone|Choose 1: ".to_string(),
    ]);
}

#[test]
fn gen_ed_entries_kept_while_total_is_short() {
    let cur = gen_ed(5, vec![
        strand("King", SelectionRule::ChooseAll, vec![course("003-001", "Volunteer", 3)]),
        strand("Lang", SelectionRule::ChooseOne, vec![course("A-001", "Alpha", 2)]),
    ]);
    let m = empty_major();
    let cs = vec![rec("003-001", "VOLUNTEER", Grade::A, 3)];
    let r = audit_transcript(&cs, &cur, &m);
    assert_eq!(descriptions(&r.missing_subjects), vec![
        "General Education|Lang: choose 1 (A-001 - Alpha)".to_string(),
        "General Education|Overall General Education: missing 2.0 credits".to_string(),
        "Basic Science|no courses listed".to_string(),
        "Core Courses|no courses listed".to_string(),
        "Capstone|Choose 1: CAP-001 (Project)".to_string(),
    ]);
}

#[test]
fn same_inputs_give_identical_results() {
    let cur = gen_ed(5, vec![pair_strand()]);
    let m = empty_major();
    let cs = vec![rec("Y", "WHY", Grade::A, 2), rec("Z", "ZED", Grade::B, 3), rec("Q", "QUIZ", Grade::C, 1)];
    let first = audit_transcript(&cs, &cur, &m);
    let second = audit_transcript(&cs, &cur, &m);
    assert_eq!(format!("{:?}", first), format!("{:?}", second));
}

#[test]
fn empty_transcript_reports_everything_missing() {
    let cur = gen_ed(4, vec![strand("King", SelectionRule::ChooseAll, vec![course("003-001", "Volunteer", 3)])]);
    let r = audit_transcript(&[], &cur, &empty_major());
    assert_eq!(r.total_credits, 0);
    assert_eq!(descriptions(&r.missing_subjects), vec![
        "General Education|King: 003-001 - Volunteer".to_string(),
        "General Education|Overall General Education: missing 4.0 credits".to_string(),
        "Basic Science|no courses listed".to_string(),
        "Core Courses|no courses listed".to_string(),
        "Capstone|Choose 1: CAP-001 (Project)".to_string(),
    ]);
}

#[test]
fn empty_requirement_lists_are_never_met() {
    let mut subs = strand("Thinking", SelectionRule::ChooseAllSubGroups, Vec::new());
    subs.sub_groups = Vec::new();
    let cur = gen_ed(0, vec![strand("King", SelectionRule::ChooseAll, Vec::new()), subs]);
    let (credits, missing, _) = audit_gen_ed(&[rec("003-001", "VOLUNTEER", Grade::A, 3)], &cur);
    assert_eq!(credits, 0);
    assert_eq!(descriptions(&missing), vec![
        "General Education|King: no courses listed".to_string(),
        "General Education|Thinking: no sub-groups listed".to_string(),
    ]);
}

#[test]
fn empty_basic_science_and_core_are_reported() {
    let m = major(Vec::new(), Vec::new(), vec![course("344-492", "Projects", 6)], Vec::new(), 0, Vec::new());
    let (_, _, missing, _) = audit_major(&[rec("344-492", "PROJECTS", Grade::A, 6)], &m, &vec![false]);
    assert_eq!(descriptions(&missing), vec![
        "Basic Science|no courses listed".to_string(),
        "Core Courses|no courses listed".to_string(),
    ]);
}

#[test]
fn sub_group_shortfall_lists_only_unmatched_options() {
    let mut s = strand("Thinking", SelectionRule::ChooseAllSubGroups, Vec::new());
    s.sub_groups = vec![GenEdSubGroup {
        name: "GE2B".to_string(),
        required_credits: 6,
        courses: vec![course("S-1", "Systems", 2), course("S-2", "Models", 2), course("S-3", "Graphs", 2)],
    }];
    let cur = gen_ed(0, vec![s]);
    let cs = vec![rec("S-2", "MODELS", Grade::A, 2)];
    let (credits, missing, _) = audit_gen_ed(&cs, &cur);
    assert_eq!(credits, 2);
    assert_eq!(descriptions(&missing), vec![
        "General Education|Thinking > GE2B: missing 4.0 credits (options: S-1 - Systems OR S-3 - Graphs)"
            .to_string(),
    ]);
}
