use course_audit::models::{Grade, SelectionRule};
use course_audit::parse_transcript;
use course_audit::parser::courses_from_captures;
use course_audit::{get_gen_ed_curriculum, get_major_curriculum, audit_transcript};

#[test]
fn parses_a_transcript_line() {
    let cs = parse_transcript("322-101   CALCULUS I   04   3   B+");
    assert_eq!(cs.len(), 1);
    assert_eq!(cs[0].code, "322-101");
    assert_eq!(cs[0].name, "CALCULUS I");
    assert_eq!(cs[0].grade, Grade::BPlus);
    assert_eq!(cs[0].parsed_credit, 3);
}

#[test]
fn trims_section_suffix_from_code() {
    let cs = parse_transcript("890-103G1  ENGLISH FOR COMMUNICATION  01  2  A");
    assert_eq!(cs.len(), 1);
    assert_eq!(cs[0].code, "890-103");
    assert_eq!(cs[0].name, "ENGLISH FOR COMMUNICATION");
    assert_eq!(cs[0].grade, Grade::A);
    assert_eq!(cs[0].parsed_credit, 2);
}

#[test]
fn numbers_repeated_special_topics() {
    let text = "344-496 SPECIAL TOPICS 01 3 A\n344-496 SPECIAL TOPICS 01 3 B\n344-492 PROJECTS 01 3 S\n";
    let cs = parse_transcript(text);
    assert_eq!(cs.len(), 3);
    assert_eq!(cs[0].name, "SPECIAL TOPICS (Topic 1)");
    assert_eq!(cs[1].name, "SPECIAL TOPICS (Topic 2)");
    assert_eq!(cs[2].name, "PROJECTS");
    assert_eq!(cs[2].grade, Grade::Satisfactory);
}

#[test]
fn reads_failing_and_withdrawn_marks() {
    let cs = parse_transcript("388-100 HEALTH FOR ALL 01 1 F 895-001 GOOD CITIZENS 02 2 W");
    assert_eq!(cs.len(), 2);
    assert_eq!(cs[0].grade, Grade::F);
    assert_eq!(cs[1].grade, Grade::Withdrawn);
    assert_eq!(cs[1].code, "895-001");
}

#[test]
fn text_without_course_lines_gives_nothing() {
    assert!(parse_transcript("").is_empty());
    assert!(parse_transcript("Transcript of Records\nName: Someone").is_empty());
}

#[test]
fn grade_marks_round_trip() {
    for g in [Grade::A, Grade::BPlus, Grade::B, Grade::CPlus, Grade::C, Grade::DPlus, Grade::D, Grade::F,
        Grade::Withdrawn, Grade::Pass, Grade::Satisfactory, Grade::Unsatisfactory] {
        assert_eq!(Grade::from_mark(&g.label()), g);
    }
    assert_eq!(Grade::from_mark("A+"), Grade::Unknown);
    assert!(!Grade::Unknown.is_passing());
    assert!(Grade::D.is_passing());
    assert!(!Grade::Unsatisfactory.is_passing());
}

#[test]
fn curricula_have_their_totals() {
    let g = get_gen_ed_curriculum();
    let m = get_major_curriculum();
    assert_eq!(g.total_required_credits, 30);
    assert_eq!(g.strands.len(), 7);
    assert_eq!(m.total_required_credits, 96);
    assert_eq!(m.electives.clusters_to_complete, 2);
}

#[test]
fn audits_a_parsed_transcript() {
    let text = "003-001 VOLUNTEER LEADER 01 3 A\n388-100 HEALTH FOR ALL 01 1 B\n777-777 SAILING 01 3 A\n";
    let cs = parse_transcript(text);
    let r = audit_transcript(&cs, &get_gen_ed_curriculum(), &get_major_curriculum());
    assert_eq!(r.categories[0].collected_credits, 4);
    assert_eq!(r.categories[2].collected_credits, 3);
    assert_eq!(r.total_credits, 7);
    assert!(r.missing_subjects.iter().all(|m| !m.description.contains("003-001")));
}

fn row(fields: [&str; 6]) -> Vec<String> {
    fields.iter().map(|f| f.to_string()).collect()
}

#[test]
fn captured_names_are_trimmed() {
    let rows = vec![row(["", "322-101", "  CALCULUS I \t", "04", "3", "B+"])];
    let cs = courses_from_captures(&rows);
    assert_eq!(cs.len(), 1);
    assert_eq!(cs[0].name, "CALCULUS I");
}

#[test]
fn unreadable_credit_counts_as_three() {
    let rows = vec![
        row(["", "322-101", "CALCULUS I", "04", "x", "A"]),
        row(["", "322-102", "CALCULUS II", "04", "99999999999", "A"]),
        row(["", "322-103", "CALCULUS III", "04", "", "A"]),
        row(["", "322-104", "CALCULUS IV", "04", "12", "A"]),
    ];
    let cs = courses_from_captures(&rows);
    assert_eq!(cs.iter().map(|c| c.parsed_credit).collect::<Vec<_>>(), vec![3, 3, 3, 12]);
}

#[test]
fn short_rows_are_skipped() {
    let rows = vec![vec!["322-101".to_string()], row(["", "322-101", "CALCULUS I", "04", "3", "A"])];
    let cs = courses_from_captures(&rows);
    assert_eq!(cs.len(), 1);
    assert_eq!(cs[0].code, "322-101");
}

#[test]
fn letter_in_code_prefix_keeps_the_whole_code() {
    let rows = vec![row(["", "ABC-123G1", "WEAVING", "01", "2", "P"])];
    let cs = courses_from_captures(&rows);
    assert_eq!(cs[0].code, "ABC-123G1");
    assert_eq!(cs[0].grade, Grade::Pass);
}

#[test]
fn default_curriculum_first_strand_gives_four_credits() {
    let cs = vec![
        course_audit::models::ParsedCourse {
            code: "003-001".to_string(),
            name: "VOLUNTEER LEADER".to_string(),
            grade: Grade::A,
            parsed_credit: 3,
        },
        course_audit::models::ParsedCourse {
            code: "388-100".to_string(),
            name: "HEALTH FOR ALL".to_string(),
            grade: Grade::A,
            parsed_credit: 1,
        },
    ];
    let (credits, missing, used) = course_audit::audit_gen_ed(&cs, &get_gen_ed_curriculum());
    assert_eq!(credits, 4);
    assert_eq!(used, vec![true, true]);
    assert!(!missing.iter().any(|m| m.description.starts_with("King's Philosophy and Benefits for Mankind")));
}

#[test]
fn default_curricula_shapes() {
    let g = get_gen_ed_curriculum();
    let rules: Vec<SelectionRule> = g.strands.iter().map(|s| s.selection_rule).collect();
    assert_eq!(rules, vec![
        SelectionRule::ChooseAll,
        SelectionRule::ChooseAll,
        SelectionRule::ChooseAll,
        SelectionRule::ChooseAllSubGroups,
        SelectionRule::ChooseAllSubGroups,
        SelectionRule::ChooseSequentialPair,
        SelectionRule::ChooseOne,
    ]);
    let strand_sum: u32 = g.strands.iter().map(|s| s.required_credits).sum();
    assert_eq!(strand_sum + g.electives.total_required_credits, 30);
    let m = get_major_curriculum();
    let clusters: usize = m.electives.domains.iter().map(|d| d.clusters.len()).sum();
    assert_eq!(clusters, 14);
    let basic: u32 = m.basic_science.courses.iter().map(|c| c.credits).sum();
    assert_eq!(basic, 12);
    assert_eq!(m.electives.total_required_credits, 12);
}

#[test]
fn unicode_white_space_is_trimmed() {
    let rows = vec![row(["", "322-101", "\u{a0}CALCULUS I\u{3000}\n", "04", "3", "A"])];
    let cs = courses_from_captures(&rows);
    assert_eq!(cs[0].name, "CALCULUS I");
    assert_eq!(course_audit::parser::trim_text("  \t "), "");
    assert_eq!(course_audit::parser::trim_text("A B"), "A B");
}
