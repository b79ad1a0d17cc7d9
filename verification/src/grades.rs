//! Per-course grade aggregation and the grade report.
//!
//! This is the computation behind the grades endpoint, on plain values: the
//! data-access layer fetches, per registered course, the course's classes
//! with the requesting student's score for each, and the list of per-student
//! total scores across the course; this module folds them into the report.
//!
//! Per course: the student's total score is the sum of their per-class
//! scores, and the population statistics of the per-student totals are
//! attached ([`crate::stats`]). A submission the student has not made (or
//! that is not yet graded) carries no score: it appears as `None` in the
//! per-class listing and contributes nothing to the total — it is an absent
//! data point, not a zero.
//!
//! Across courses: every closed course contributes its total score times its
//! credit to the GPA numerator and its credit to the earned credits; the GPA
//! is the weighted sum over `100` over the credits, an exact rational, and
//! `0` when no credits were earned.

use vstd::prelude::*;

use crate::rat::Rat;
use crate::stats::{
    average_int, is_max_of, is_min_of, max_int, min_int, sum_seq, t_score_int, t_score_ok, TScore,
    LEN_MAX, VAL_MAX,
};

verus! {

/// Largest score a graded submission can carry.
pub const SCORE_MAX: u8 = 100;

/// One class of a course, with the requesting student's score in it: what
/// the data-access layer hands the aggregation.
pub struct ClassRecord {
    /// Identifier of the class.
    pub class_id: String,
    /// Title of the class.
    pub title: String,
    /// Part number of the class within its course.
    pub part: u8,
    /// The student's graded score, in `0 ..= SCORE_MAX`; `None` when the
    /// student has not submitted or the submission is not yet graded.
    pub my_score: Option<u8>,
    /// How many students submitted for this class.
    pub submitters: i64,
}

/// One class of a course as the report shows it to the student.
pub struct ClassScore {
    /// Identifier of the class.
    pub class_id: String,
    /// Title of the class.
    pub title: String,
    /// Part number of the class within its course.
    pub part: u8,
    /// The student's score, or `None` for an absent data point.
    pub score: Option<i64>,
    /// How many students submitted for this class.
    pub submitters: i64,
}

/// One registered course as the data-access layer hands it to the
/// aggregation.
pub struct CourseRecord {
    /// Name of the course.
    pub name: String,
    /// Code of the course.
    pub code: String,
    /// Credit of the course.
    pub credit: u8,
    /// Whether the course's status is closed (finished): only closed courses
    /// count towards the GPA.
    pub closed: bool,
    /// The course's classes, with the student's scores.
    pub classes: Vec<ClassRecord>,
    /// The total score of every student of the course: the population the
    /// course statistics are computed over.
    pub totals: Vec<i64>,
}

/// The per-course part of the grade report.
pub struct CourseResult {
    /// Name of the course.
    pub name: String,
    /// Code of the course.
    pub code: String,
    /// The student's total score over the course's classes.
    pub total_score: i64,
    /// T-score of the student's total within the per-student totals.
    pub total_score_t: TScore,
    /// Average of the per-student totals (`0` for an empty population).
    pub total_score_avg: Rat,
    /// Maximum of the per-student totals (`0` for an empty population).
    pub total_score_max: i64,
    /// Minimum of the per-student totals (`0` for an empty population).
    pub total_score_min: i64,
    /// The student's per-class scores.
    pub class_scores: Vec<ClassScore>,
}

/// The across-courses part of the grade report.
///
/// The population-wide GPA statistics (average, extrema, T-score of this
/// GPA within all students' GPAs) are the caller's: that population comes
/// from a separate aggregate fetch, and [`crate::stats`] computes over it.
pub struct Summary {
    /// Credits earned: the credits of the student's closed courses.
    pub credits: i64,
    /// The student's GPA: sum over closed courses of total score times
    /// credit, over `100`, over the credits earned; `0` when no credits
    /// were earned. Exact.
    pub gpa: Rat,
}

/// The grade report: one result per registered course, and the summary.
pub struct GradeReport {
    /// One result per registered course, in their order.
    pub course_results: Vec<CourseResult>,
    /// Credits and GPA.
    pub summary: Summary,
}

/// What a class contributes to the student's total score: its score, or
/// nothing when there is none.
pub open spec fn score_value(c: ClassRecord) -> int {
    match c.my_score {
        Option::Some(s) => s as int,
        Option::None => 0,
    }
}

/// The student's total score over a course's classes.
pub open spec fn total_score_spec(cs: Seq<ClassRecord>) -> int
    decreases cs.len(),
{
    if cs.len() == 0 {
        0
    } else {
        total_score_spec(cs.drop_last()) + score_value(cs.last())
    }
}

/// A graded score is within `0 ..= SCORE_MAX`.
pub open spec fn class_wf(c: ClassRecord) -> bool {
    match c.my_score {
        Option::Some(s) => s <= SCORE_MAX,
        Option::None => true,
    }
}

/// The bounds under which the aggregation's exact arithmetic cannot
/// overflow: populations within the statistics engine's bounds, scores
/// within [`SCORE_MAX`].
pub open spec fn course_wf(c: CourseRecord) -> bool {
    &&& c.classes@.len() <= LEN_MAX
    &&& forall|i: int| 0 <= i < c.classes@.len() ==> class_wf(#[trigger] c.classes@[i])
    &&& c.totals@.len() <= LEN_MAX
    &&& forall|i: int| 0 <= i < c.totals@.len() ==> -VAL_MAX <= #[trigger] c.totals@[i] <= VAL_MAX
}

/// The report's class listing reproduces the input class, with the score
/// passed through unchanged (`None` stays an absent data point).
pub open spec fn class_score_matches(out: ClassScore, inp: ClassRecord) -> bool {
    &&& out.class_id == inp.class_id
    &&& out.title == inp.title
    &&& out.part == inp.part
    &&& out.score == match inp.my_score {
        Option::Some(s) => Option::Some(s as i64),
        Option::None => Option::None::<i64>,
    }
    &&& out.submitters == inp.submitters
}

/// The whole class listing matches the input classes, in order.
pub open spec fn class_scores_match(out: Seq<ClassScore>, inp: Seq<ClassRecord>) -> bool {
    &&& out.len() == inp.len()
    &&& forall|i: int| 0 <= i < out.len() ==> class_score_matches(#[trigger] out[i], inp[i])
}

/// What [`course_result`] returns for the course `c`.
pub open spec fn course_result_ok(r: CourseResult, c: CourseRecord) -> bool {
    &&& r.name == c.name
    &&& r.code == c.code
    &&& class_scores_match(r.class_scores@, c.classes@)
    &&& r.total_score == total_score_spec(c.classes@)
    &&& c.totals@.len() == 0 ==> {
        &&& r.total_score_avg == (Rat { num: 0, den: 1 })
        &&& r.total_score_max == 0
        &&& r.total_score_min == 0
    }
    &&& c.totals@.len() > 0 ==> {
        &&& r.total_score_avg.num == sum_seq(c.totals@)
        &&& r.total_score_avg.den == c.totals@.len()
        &&& is_max_of(c.totals@, r.total_score_max)
        &&& is_min_of(c.totals@, r.total_score_min)
    }
    &&& t_score_ok(r.total_score_t, total_score_spec(c.classes@), c.totals@)
    &&& r.total_score_avg.wf()
}

/// The total score of well-formed classes is between `0` and `SCORE_MAX`
/// times their number.
proof fn lemma_total_score_range(cs: Seq<ClassRecord>)
    requires
        forall|i: int| 0 <= i < cs.len() ==> class_wf(#[trigger] cs[i]),
    ensures
        0 <= total_score_spec(cs) <= SCORE_MAX * cs.len(),
    decreases cs.len(),
{
    if cs.len() == 0 {
        assert(SCORE_MAX * cs.len() == 0) by (nonlinear_arith)
            requires
                cs.len() == 0,
        ;
    } else {
        let d = cs.drop_last();
        assert(forall|i: int| 0 <= i < d.len() ==> class_wf(#[trigger] d[i]));
        lemma_total_score_range(d);
        assert(cs.last() == cs[cs.len() - 1] && class_wf(cs[cs.len() - 1]));
        assert(SCORE_MAX * (d.len() + 1) == SCORE_MAX * d.len() + SCORE_MAX) by (nonlinear_arith);
    }
}

/// The grade computation for one registered course: the student's per-class
/// scores and total, and the population statistics of the per-student totals
/// — the average and extrema with `0` as the empty-population default, and
/// the T-score of the student's total within them.
pub fn course_result(course: &CourseRecord) -> (r: CourseResult)
    requires
        course_wf(*course),
    ensures
        course_result_ok(r, *course),
{
    let classes = &course.classes;
    let mut class_scores: Vec<ClassScore> = Vec::new();
    let mut total: i64 = 0;
    let mut i: usize = 0;
    while i < classes.len()
        invariant
            i <= classes.len(),
            classes@.len() <= LEN_MAX,
            forall|k: int| 0 <= k < classes@.len() ==> class_wf(#[trigger] classes@[k]),
            class_scores_match(class_scores@, classes@.take(i as int)),
            total == total_score_spec(classes@.take(i as int)),
            0 <= total <= SCORE_MAX * i,
        decreases classes.len() - i,
    {
        proof {
            assert(classes@.take(i as int + 1).drop_last() =~= classes@.take(i as int));
            assert(SCORE_MAX * (i + 1) == SCORE_MAX * i + SCORE_MAX) by (nonlinear_arith);
        }
        let class = &classes[i];
        match class.my_score {
            Option::Some(s) => {
                total = total + s as i64;
                class_scores.push(
                    ClassScore {
                        class_id: class.class_id.clone(),
                        title: class.title.clone(),
                        part: class.part,
                        score: Option::Some(s as i64),
                        submitters: class.submitters,
                    },
                );
            },
            Option::None => {
                class_scores.push(
                    ClassScore {
                        class_id: class.class_id.clone(),
                        title: class.title.clone(),
                        part: class.part,
                        score: Option::None,
                        submitters: class.submitters,
                    },
                );
            },
        }
        i = i + 1;
    }
    proof {
        assert(classes@.take(classes@.len() as int) =~= classes@);
        assert(SCORE_MAX * classes@.len() <= SCORE_MAX * (LEN_MAX as int)) by (nonlinear_arith)
            requires
                classes@.len() <= LEN_MAX as int,
        ;
    }
    let avg = average_int(&course.totals, Rat::from_int(0));
    let mx = max_int(&course.totals, 0);
    let mn = min_int(&course.totals, 0);
    let t = t_score_int(total, &course.totals);
    CourseResult {
        name: course.name.clone(),
        code: course.code.clone(),
        total_score: total,
        total_score_t: t,
        total_score_avg: avg,
        total_score_max: mx,
        total_score_min: mn,
        class_scores,
    }
}

/// What a course contributes to the credits earned: its credit when closed,
/// nothing otherwise.
pub open spec fn closed_credit(c: CourseRecord) -> int {
    if c.closed {
        c.credit as int
    } else {
        0
    }
}

/// The credits earned over the registered courses.
pub open spec fn credits_spec(cs: Seq<CourseRecord>) -> int
    decreases cs.len(),
{
    if cs.len() == 0 {
        0
    } else {
        credits_spec(cs.drop_last()) + closed_credit(cs.last())
    }
}

/// What a course contributes to the GPA numerator: its total score times its
/// credit when closed, nothing otherwise.
pub open spec fn closed_points(c: CourseRecord) -> int {
    if c.closed {
        total_score_spec(c.classes@) * c.credit
    } else {
        0
    }
}

/// The GPA numerator over the registered courses: the credit-weighted sum of
/// the closed courses' total scores.
pub open spec fn gpa_points_spec(cs: Seq<CourseRecord>) -> int
    decreases cs.len(),
{
    if cs.len() == 0 {
        0
    } else {
        gpa_points_spec(cs.drop_last()) + closed_points(cs.last())
    }
}

/// Per-course contributions are bounded: the credits by `255`, the points by
/// `SCORE_MAX * LEN_MAX * 255`.
proof fn lemma_contribution_range(c: CourseRecord)
    requires
        course_wf(c),
    ensures
        0 <= closed_credit(c) <= 0xff,
        0 <= closed_points(c) <= 0x63_5ac0_0000,
{
    if c.closed {
        lemma_total_score_range(c.classes@);
        assert(0 <= total_score_spec(c.classes@) * c.credit <= 0x63_5ac0_0000)
            by (nonlinear_arith)
            requires
                0 <= total_score_spec(c.classes@) <= SCORE_MAX * (LEN_MAX as int),
                0 <= c.credit <= 0xff,
        ;
        assert(SCORE_MAX * (LEN_MAX as int) == 0x640_0000);
    }
}

/// The whole grades endpoint computation: one [`CourseResult`] per
/// registered course, in their order, and the summary — credits earned over
/// the closed courses and the exact GPA
/// `gpa_points / 100 / credits` (`0` when no credits were earned).
pub fn grade_report(courses: &Vec<CourseRecord>) -> (r: GradeReport)
    requires
        courses@.len() <= LEN_MAX,
        forall|i: int| 0 <= i < courses@.len() ==> course_wf(#[trigger] courses@[i]),
    ensures
        r.course_results@.len() == courses@.len(),
        forall|i: int|
            0 <= i < courses@.len() ==> course_result_ok(
                #[trigger] r.course_results@[i],
                courses@[i],
            ),
        r.summary.credits == credits_spec(courses@),
        credits_spec(courses@) > 0 ==> r.summary.gpa.num == gpa_points_spec(courses@)
            && r.summary.gpa.den == 100 * credits_spec(courses@),
        credits_spec(courses@) == 0 ==> r.summary.gpa == (Rat { num: 0, den: 1 }),
        r.summary.gpa.wf(),
{
    let mut course_results: Vec<CourseResult> = Vec::new();
    let mut points: i64 = 0;
    let mut credits: i64 = 0;
    let mut i: usize = 0;
    while i < courses.len()
        invariant
            i <= courses.len(),
            courses@.len() <= LEN_MAX,
            forall|k: int| 0 <= k < courses@.len() ==> course_wf(#[trigger] courses@[k]),
            course_results@.len() == i,
            forall|k: int|
                0 <= k < i ==> course_result_ok(#[trigger] course_results@[k], courses@[k]),
            points == gpa_points_spec(courses@.take(i as int)),
            credits == credits_spec(courses@.take(i as int)),
            0 <= credits <= 0xff * i,
            0 <= points <= 0x63_5ac0_0000 * i,
        decreases courses.len() - i,
    {
        proof {
            assert(courses@.take(i as int + 1).drop_last() =~= courses@.take(i as int));
            lemma_contribution_range(courses@[i as int]);
            assert(0xff * (i + 1) == 0xff * i + 0xff && 0x63_5ac0_0000 * (i + 1) == 0x63_5ac0_0000
                * i + 0x63_5ac0_0000) by (nonlinear_arith);
            assert(0x63_5ac0_0000 * (i + 1) <= 0x63_5ac0_0000 * (LEN_MAX as int))
                by (nonlinear_arith)
                requires
                    i + 1 <= LEN_MAX as int,
            ;
            assert(0xff * (i + 1) <= 0xff * (LEN_MAX as int)) by (nonlinear_arith)
                requires
                    i + 1 <= LEN_MAX as int,
            ;
        }
        let course = &courses[i];
        let result = course_result(course);
        if course.closed {
            let credit = course.credit as i64;
            proof {
                lemma_total_score_range(course.classes@);
                assert(total_score_spec(course.classes@) * course.credit <= 0x63_5ac0_0000)
                    by (nonlinear_arith)
                    requires
                        0 <= total_score_spec(course.classes@) <= 0x640_0000,
                        0 <= course.credit <= 0xff,
                ;
                assert(SCORE_MAX * (LEN_MAX as int) == 0x640_0000);
                assert(total_score_spec(course.classes@) * course.credit >= 0)
                    by (nonlinear_arith)
                    requires
                        total_score_spec(course.classes@) >= 0,
                        course.credit >= 0,
                ;
            }
            points = points + result.total_score * credit;
            credits = credits + credit;
        }
        course_results.push(result);
        i = i + 1;
    }
    proof {
        assert(courses@.take(courses@.len() as int) =~= courses@);
    }
    let gpa = if credits > 0 {
        Rat { num: points as i128, den: 100 * (credits as i128) }
    } else {
        Rat::from_int(0)
    };
    GradeReport { course_results, summary: Summary { credits, gpa } }
}

} // verus!
