use isucholar::grades::{course_result, grade_report, ClassRecord, CourseRecord};
use isucholar::rat::Rat;
use isucholar::stats::TScore;

fn class(id: &str, part: u8, score: Option<u8>, submitters: i64) -> ClassRecord {
    ClassRecord {
        class_id: id.to_string(),
        title: format!("class {}", part),
        part,
        my_score: score,
        submitters,
    }
}

fn course(
    name: &str,
    code: &str,
    credit: u8,
    closed: bool,
    classes: Vec<ClassRecord>,
    totals: Vec<i64>,
) -> CourseRecord {
    CourseRecord {
        name: name.to_string(),
        code: code.to_string(),
        credit,
        closed,
        classes,
        totals,
    }
}

#[test]
fn total_score_sums_graded_scores() {
    let c = course(
        "algebra",
        "MA101",
        2,
        false,
        vec![
            class("c1", 1, Some(80), 12),
            class("c2", 2, Some(65), 11),
            class("c3", 3, None, 10),
        ],
        vec![145, 200, 90],
    );
    let r = course_result(&c);
    assert_eq!(r.total_score, 145);
    assert_eq!(r.name, "algebra");
    assert_eq!(r.code, "MA101");
}

#[test]
fn absent_submission_is_an_absent_data_point() {
    let c = course(
        "algebra",
        "MA101",
        2,
        false,
        vec![class("c1", 1, Some(80), 12), class("c2", 2, None, 11)],
        vec![80],
    );
    let r = course_result(&c);
    assert_eq!(r.class_scores.len(), 2);
    assert_eq!(r.class_scores[0].score, Some(80));
    assert_eq!(r.class_scores[0].class_id, "c1");
    assert_eq!(r.class_scores[0].part, 1);
    assert_eq!(r.class_scores[0].submitters, 12);
    assert_eq!(r.class_scores[1].score, None);
    assert_eq!(r.total_score, 80);
}

#[test]
fn empty_population_gets_the_defaults() {
    let c = course("fresh", "FR000", 1, false, vec![], vec![]);
    let r = course_result(&c);
    assert_eq!(r.total_score, 0);
    assert_eq!(r.total_score_avg, Rat::new(0, 1));
    assert_eq!(r.total_score_max, 0);
    assert_eq!(r.total_score_min, 0);
    assert_eq!(r.total_score_t, TScore::Degenerate);
}

#[test]
fn course_statistics_cover_the_whole_population() {
    let c = course(
        "stats",
        "ST200",
        2,
        true,
        vec![class("c1", 1, Some(90), 4)],
        vec![60, 70, 80, 90],
    );
    let r = course_result(&c);
    assert_eq!(r.total_score, 90);
    assert!(r.total_score_avg.equiv(&Rat::new(75, 1)));
    assert_eq!(r.total_score_max, 90);
    assert_eq!(r.total_score_min, 60);
    match r.total_score_t {
        TScore::Degenerate => panic!("population spreads"),
        TScore::Spread { diff, variance } => {
            assert!(diff.equiv(&Rat::new(15, 1)));
            assert!(variance.equiv(&Rat::new(125, 1)));
        }
    }
}

#[test]
fn gpa_weights_closed_courses_by_credit() {
    // two closed courses, credits 2 and 3, total scores 150 and 240:
    // gpa = (150*2 + 240*3) / 100 / 5 = 1020/500 = 2.04
    let courses = vec![
        course(
            "algebra",
            "MA101",
            2,
            true,
            vec![class("a1", 1, Some(75), 9), class("a2", 2, Some(75), 8)],
            vec![150, 120],
        ),
        course(
            "physics",
            "PH110",
            3,
            true,
            vec![
                class("ph1", 1, Some(80), 7),
                class("ph2", 2, Some(80), 7),
                class("ph3", 3, Some(80), 6),
            ],
            vec![240, 180],
        ),
    ];
    let report = grade_report(&courses);
    assert_eq!(report.course_results.len(), 2);
    assert_eq!(report.summary.credits, 5);
    assert_eq!(report.summary.gpa.num, 1020);
    assert_eq!(report.summary.gpa.den, 500);
    assert!(report.summary.gpa.equiv(&Rat::new(51, 25)));
    assert_eq!(
        report.summary.gpa.num as f64 / report.summary.gpa.den as f64,
        2.04
    );
}

#[test]
fn open_courses_do_not_count_towards_the_gpa() {
    let courses = vec![
        course(
            "algebra",
            "MA101",
            2,
            true,
            vec![class("a1", 1, Some(50), 9)],
            vec![50],
        ),
        course(
            "drawing",
            "AR150",
            4,
            false,
            vec![class("d1", 1, Some(100), 3)],
            vec![100],
        ),
    ];
    let report = grade_report(&courses);
    assert_eq!(report.summary.credits, 2);
    assert_eq!(report.summary.gpa.num, 100);
    assert_eq!(report.summary.gpa.den, 200);
}

#[test]
fn no_credits_means_gpa_zero() {
    let report = grade_report(&vec![]);
    assert_eq!(report.course_results.len(), 0);
    assert_eq!(report.summary.credits, 0);
    assert_eq!(report.summary.gpa, Rat::new(0, 1));

    let open_only = vec![course(
        "drawing",
        "AR150",
        4,
        false,
        vec![class("d1", 1, Some(100), 3)],
        vec![100],
    )];
    let report = grade_report(&open_only);
    assert_eq!(report.summary.credits, 0);
    assert_eq!(report.summary.gpa, Rat::new(0, 1));
}

#[test]
fn report_keeps_course_order() {
    let courses = vec![
        course("b", "B2", 1, false, vec![], vec![]),
        course("a", "A1", 1, false, vec![], vec![]),
    ];
    let report = grade_report(&courses);
    assert_eq!(report.course_results[0].name, "b");
    assert_eq!(report.course_results[1].name, "a");
}
