use class_get::catalog::{list_request_text, CourseRow, CourseTable, FieldValue};
use class_get::enroll::{
    enroll_url, judge_reply, next_enroll_step, plan_enrollment, respawn_target, warns,
    AttemptError, EnrollStep, TaskOutcome,
};
use class_get::params::{ClassError, FormatData};

fn text(s: &str) -> FieldValue {
    FieldValue { text: format!("\"{}\"", s), str_value: Some(s.to_string()) }
}

fn null() -> FieldValue {
    FieldValue { text: "null".to_string(), str_value: None }
}

fn row(name: &str) -> CourseRow {
    CourseRow {
        name: text(name),
        category: text("KCLB"),
        elective_category: text("XGXKLB"),
        class_id: Some(format!("{}-id", name)),
        secret: Some(format!("{}-secret", name)),
        task_class_id: Some(format!("{}-task", name)),
        task_secret: None,
    }
}

fn data(is_tjkc: bool) -> FormatData {
    FormatData {
        data_json: CourseTable { total: Some(3), rows: vec![row("a"), row("b"), row("c")] },
        is_tjkc,
    }
}

fn pairs(v: &[(&str, &str)]) -> Vec<(String, String)> {
    v.iter().map(|(a, b)| (a.to_string(), b.to_string())).collect()
}

#[test]
fn course_zero_is_never_asked_for() {
    assert!(plan_enrollment(0, &data(false)).is_none());
}

#[test]
fn general_list_sends_the_rows_own_keys() {
    let form = plan_enrollment(1, &data(false)).unwrap();
    assert_eq!(form, pairs(&[("clazzType", "XGKC"), ("clazzId", "b-id"), ("secretVal", "b-secret")]));
}

#[test]
fn specialized_list_sends_the_teaching_class_keys() {
    let form = plan_enrollment(2, &data(true)).unwrap();
    assert_eq!(form, pairs(&[("clazzType", "TJKC"), ("clazzId", "c-task"), ("secretVal", "")]));
}

#[test]
fn missing_rows_send_empty_keys() {
    let form = plan_enrollment(9, &data(false)).unwrap();
    assert_eq!(form, pairs(&[("clazzType", "XGKC"), ("clazzId", ""), ("secretVal", "")]));
}

#[test]
fn enrolled_answer_succeeds() {
    assert!(judge_reply(&data(false), 1, &text("该课程已在选课结果中")).is_ok());
}

#[test]
fn stale_answers_name_the_course() {
    for m in ["参数校验不通过", "教学任务信息过期，请重新刷新列表"] {
        match judge_reply(&data(false), 2, &text(m)) {
            Err(AttemptError::Stale(c)) => assert_eq!(c, ClassError { value: 2 }),
            other => panic!("unexpected {:?}", other),
        }
    }
}

#[test]
fn too_fast_answer() {
    assert!(matches!(judge_reply(&data(true), 1, &text("请求过快，请登录后再试")), Err(AttemptError::TooFast)));
}

#[test]
fn other_answers_carry_the_json_text() {
    match judge_reply(&data(false), 1, &text("课程已满")) {
        Err(AttemptError::Refused(m)) => assert_eq!(m, "\"课程已满\""),
        other => panic!("unexpected {:?}", other),
    }
    match judge_reply(&data(false), 1, &null()) {
        Err(AttemptError::Refused(m)) => assert_eq!(m, "null"),
        other => panic!("unexpected {:?}", other),
    }
}

#[test]
fn unreadable_rows_fail_before_the_answer_is_read() {
    let mut d = data(false);
    d.data_json.rows[1].name = null();
    assert!(matches!(judge_reply(&d, 1, &text("该课程已在选课结果中")), Err(AttemptError::NameNotText)));
    let mut d = data(true);
    d.data_json.rows[1].category = null();
    assert!(matches!(judge_reply(&d, 1, &text("该课程已在选课结果中")), Err(AttemptError::CategoryNotText)));
    let mut d = data(false);
    d.data_json.rows[1].elective_category = null();
    assert!(matches!(judge_reply(&d, 1, &text("该课程已在选课结果中")), Err(AttemptError::ElectiveCategoryNotText)));
    assert!(matches!(judge_reply(&data(false), 7, &text("x")), Err(AttemptError::NameNotText)));
}

#[test]
fn attempt_messages() {
    assert_eq!(AttemptError::NameNotText.message(), "kcm转换失败");
    assert_eq!(AttemptError::CategoryNotText.message(), "kclb转换失败");
    assert_eq!(AttemptError::ElectiveCategoryNotText.message(), "kcm转换失败");
    assert_eq!(AttemptError::Stale(ClassError { value: 12 }).message(), "an error occurred with value: 12");
    assert_eq!(AttemptError::TooFast.message(), "请登录");
    assert_eq!(AttemptError::Refused("\"x\"".to_string()).message(), "\"x\"");
}

#[test]
fn only_enrollment_stops_the_loop() {
    assert_eq!(next_enroll_step(&Ok(())), EnrollStep::Finished);
    assert_eq!(
        next_enroll_step(&Err(AttemptError::TooFast)),
        EnrollStep::Retry { pause_ms: 1000, warn: false }
    );
    assert_eq!(
        next_enroll_step(&Err(AttemptError::NameNotText)),
        EnrollStep::Retry { pause_ms: 0, warn: true }
    );
    assert_eq!(
        next_enroll_step(&Err(AttemptError::Stale(ClassError { value: 3 }))),
        EnrollStep::Retry { pause_ms: 0, warn: false }
    );
    assert_eq!(
        next_enroll_step(&Err(AttemptError::Refused("\"数据转换失败\"".to_string()))),
        EnrollStep::Retry { pause_ms: 0, warn: true }
    );
    assert!(!warns("error sending request"));
}

#[test]
fn failed_tasks_are_restarted() {
    assert_eq!(respawn_target(TaskOutcome::Failed { stale: Some(4) }), Some(4));
    assert_eq!(respawn_target(TaskOutcome::Failed { stale: None }), Some(1));
    assert_eq!(respawn_target(TaskOutcome::Done), None);
    assert_eq!(respawn_target(TaskOutcome::Aborted), None);
}

#[test]
fn enroll_address() {
    assert_eq!(enroll_url("https://h/"), "https://h/elective/clazz/add");
}

#[test]
fn class_error_message() {
    assert_eq!(ClassError { value: 0 }.message(), "an error occurred with value: 0");
}

#[test]
fn enrollment_kind_is_the_list_kind() {
    for is_tjkc in [true, false] {
        let form = plan_enrollment(1, &data(is_tjkc)).unwrap();
        assert_eq!(&list_request_text(is_tjkc)[22..26], form[0].1);
    }
}
