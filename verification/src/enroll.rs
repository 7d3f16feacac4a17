use vstd::prelude::*;
use vstd::string::StringExecFns;

use crate::catalog::{category_field, name_field, row_at, text_of, CourseTable, FieldValue, FieldView};
use crate::params::{class_error_text, ClassError, FormatData};
use crate::text::{contains_text, joined, occurs_in, same_text};

verus! {

/// The address enrollment requests go to.
pub open spec fn enroll_url_spec(base: Seq<char>) -> Seq<char> {
    base + "elective/clazz/add"@
}

/// The address enrollment requests go to: `{base}elective/clazz/add`.
pub fn enroll_url(base: &str) -> (s: String)
    ensures
        s@ == enroll_url_spec(base@),
{
    joined(base, "elective/clazz/add")
}

/// The class id and secret of row `num` that the list kind sends: the
/// row's own for the general list, those of its first teaching class for
/// the specialized list. A missing row or a value that is not a string
/// gives nothing.
pub open spec fn enroll_keys(t: CourseTable, is_tjkc: bool, num: int) -> (Option<Seq<char>>, Option<Seq<char>>) {
    if 0 <= num < t.rows.len() {
        let row = t.rows@[num];
        if is_tjkc {
            (text_of(row.task_class_id), text_of(row.task_secret))
        } else {
            (text_of(row.class_id), text_of(row.secret))
        }
    } else {
        (None, None)
    }
}

pub open spec fn or_empty(o: Option<Seq<char>>) -> Seq<char> {
    match o {
        Some(s) => s,
        None => Seq::empty(),
    }
}

/// The form that enrolls in course `num`: the list kind (`TJKC` or `XGKC`),
/// the class id and the secret, an absent one sent as the empty text.
pub open spec fn enroll_form_spec(data: FormatData, num: int) -> Seq<(Seq<char>, Seq<char>)> {
    let keys = enroll_keys(data.data_json, data.is_tjkc, num);
    seq![
        ("clazzType"@, if data.is_tjkc { "TJKC"@ } else { "XGKC"@ }),
        ("clazzId"@, or_empty(keys.0)),
        ("secretVal"@, or_empty(keys.1)),
    ]
}

pub open spec fn pairs_view(v: Seq<(String, String)>) -> Seq<(Seq<char>, Seq<char>)> {
    v.map_values(|p: (String, String)| (p.0@, p.1@))
}

fn text_or_empty(o: &Option<String>) -> (s: String)
    ensures
        s@ == or_empty(text_of(*o)),
{
    proof {
        reveal_strlit("");
    }
    match o {
        Some(s) => s.as_str().to_owned(),
        None => "".to_owned(),
    }
}

/// Plans the enrollment in course `num`: nothing for course 0, which is
/// never asked for, and otherwise the form to send.
pub fn plan_enrollment(num: usize, data: &FormatData) -> (form: Option<Vec<(String, String)>>)
    ensures
        form is None <==> num == 0,
        form matches Some(f) ==> pairs_view(f@) == enroll_form_spec(*data, num as int),
{
    if num == 0 {
        return None;
    }
    let (kind, id, secret) = match row_at(&data.data_json, num as u64) {
        Some(row) => {
            if data.is_tjkc {
                ("TJKC", text_or_empty(&row.task_class_id), text_or_empty(&row.task_secret))
            } else {
                ("XGKC", text_or_empty(&row.class_id), text_or_empty(&row.secret))
            }
        },
        None => {
            proof {
                reveal_strlit("");
            }
            let k = if data.is_tjkc { "TJKC" } else { "XGKC" };
            (k, "".to_owned(), "".to_owned())
        },
    };
    let ghost keys = enroll_keys(data.data_json, data.is_tjkc, num as int);
    assert(kind@ == (if data.is_tjkc { "TJKC"@ } else { "XGKC"@ }));
    assert(id@ == or_empty(keys.0));
    assert(secret@ == or_empty(keys.1));
    let mut form: Vec<(String, String)> = Vec::new();
    form.push(("clazzType".to_owned(), kind.to_owned()));
    form.push(("clazzId".to_owned(), id));
    form.push(("secretVal".to_owned(), secret));
    proof {
        assert(pairs_view(form@) =~= enroll_form_spec(*data, num as int));
    }
    Some(form)
}

/// Why one enrollment attempt did not succeed.
#[derive(Clone, Debug)]
pub enum AttemptError {
    /// The course's name in the list is not a string.
    NameNotText,
    /// The course's `KCLB` in the specialized list is not a string.
    CategoryNotText,
    /// The course's `XGXKLB` in the general list is not a string.
    ElectiveCategoryNotText,
    /// The server called the request invalid or the course's task stale.
    Stale(ClassError),
    /// The server asked to slow down.
    TooFast,
    /// Any other answer; holds the reply's `msg` written out as JSON.
    Refused(String),
}

/// The message of an attempt error.
pub open spec fn attempt_message(e: AttemptError) -> Seq<char> {
    match e {
        AttemptError::NameNotText => "kcm转换失败"@,
        AttemptError::CategoryNotText => "kclb转换失败"@,
        AttemptError::ElectiveCategoryNotText => "kcm转换失败"@,
        AttemptError::Stale(c) => class_error_text(c.value),
        AttemptError::TooFast => "请登录"@,
        AttemptError::Refused(m) => m@,
    }
}

impl AttemptError {
    /// The message of this error, as it is displayed.
    pub fn message(&self) -> (s: String)
        ensures
            s@ == attempt_message(*self),
    {
        match self {
            AttemptError::NameNotText => "kcm转换失败".to_owned(),
            AttemptError::CategoryNotText => "kclb转换失败".to_owned(),
            AttemptError::ElectiveCategoryNotText => "kcm转换失败".to_owned(),
            AttemptError::Stale(c) => c.message(),
            AttemptError::TooFast => "请登录".to_owned(),
            AttemptError::Refused(m) => m.as_str().to_owned(),
        }
    }
}

/// The server's answers that call the request invalid or the task stale.
pub open spec fn is_stale_answer(m: Seq<char>) -> bool {
    m == "参数校验不通过"@ || m == "教学任务信息过期，请重新刷新列表"@
}

/// The server's answer that asks to slow down.
pub open spec fn is_too_fast_answer(m: Seq<char>) -> bool {
    m == "请求过快，请登录后再试"@
}

/// The server's answer that the course is enrolled.
pub open spec fn is_enrolled_answer(m: Seq<char>) -> bool {
    m == "该课程已在选课结果中"@
}

/// What one attempt at course `num` ends with, given the reply's `msg`:
/// first the course's name, then its category must be strings; then the
/// answer decides.
pub open spec fn attempt_outcome(data: FormatData, num: int, msg: FieldView, res: Result<(), AttemptError>) -> bool {
    let name = name_field(data.data_json, num);
    let category = category_field(data.data_json, data.is_tjkc, num);
    if name.1 is None {
        res == Err::<(), AttemptError>(AttemptError::NameNotText)
    } else if category.1 is None {
        if data.is_tjkc {
            res == Err::<(), AttemptError>(AttemptError::CategoryNotText)
        } else {
            res == Err::<(), AttemptError>(AttemptError::ElectiveCategoryNotText)
        }
    } else {
        match msg.1 {
            Some(m) => if is_stale_answer(m) {
                res == Err::<(), AttemptError>(AttemptError::Stale(ClassError { value: num as usize }))
            } else if is_too_fast_answer(m) {
                res == Err::<(), AttemptError>(AttemptError::TooFast)
            } else if is_enrolled_answer(m) {
                res is Ok
            } else {
                res matches Err(AttemptError::Refused(t)) && t@ == msg.0
            },
            None => res matches Err(AttemptError::Refused(t)) && t@ == msg.0,
        }
    }
}


/// Judges the reply to an enrollment request for course `num`; `msg` is
/// the reply's `msg` field.
pub fn judge_reply(data: &FormatData, num: usize, msg: &FieldValue) -> (res: Result<(), AttemptError>)
    ensures
        attempt_outcome(*data, num as int, msg@, res),
{
    let row = row_at(&data.data_json, num as u64);
    let (has_name, has_category) = match row {
        Some(r) => {
            let c = if data.is_tjkc {
                r.category.str_value.is_some()
            } else {
                r.elective_category.str_value.is_some()
            };
            (r.name.str_value.is_some(), c)
        },
        None => (false, false),
    };
    if !has_name {
        return Err(AttemptError::NameNotText);
    }
    if !has_category {
        if data.is_tjkc {
            return Err(AttemptError::CategoryNotText);
        } else {
            return Err(AttemptError::ElectiveCategoryNotText);
        }
    }
    match &msg.str_value {
        Some(m) => {
            if same_text(m.as_str(), "参数校验不通过") || same_text(
                m.as_str(),
                "教学任务信息过期，请重新刷新列表",
            ) {
                Err(AttemptError::Stale(ClassError { value: num }))
            } else if same_text(m.as_str(), "请求过快，请登录后再试") {
                Err(AttemptError::TooFast)
            } else if same_text(m.as_str(), "该课程已在选课结果中") {
                Ok(())
            } else {
                Err(AttemptError::Refused(msg.text.clone()))
            }
        },
        None => Err(AttemptError::Refused(msg.text.clone())),
    }
}

/// What the enrollment loop does after an attempt.
#[derive(Clone, Copy, Debug, PartialEq, Eq)]
pub enum EnrollStep {
    /// The course is enrolled: stop.
    Finished,
    /// Try again after `pause_ms` milliseconds; `warn` asks to log the error
    /// as a warning.
    Retry { pause_ms: u64, warn: bool },
}

/// The words that mark an error about reading the course list.
pub open spec fn conversion_marker() -> Seq<char> {
    "转换失败"@
}

/// Whether an attempt error is logged as a warning: its message speaks of
/// a failed conversion.
pub fn warns(message: &str) -> (r: bool)
    ensures
        r == occurs_in(message@, conversion_marker()),
{
    contains_text(message, "转换失败")
}

/// The step after an attempt: only an enrolled course stops the loop;
/// every error is tried again, a request to slow down after a second.
pub fn next_enroll_step(outcome: &Result<(), AttemptError>) -> (step: EnrollStep)
    ensures
        outcome is Ok <==> step == EnrollStep::Finished,
        outcome matches Err(e) ==> step == (EnrollStep::Retry {
            pause_ms: if e is TooFast { 1000 } else { 0 },
            warn: occurs_in(attempt_message(*e), conversion_marker()),
        }),
{
    match outcome {
        Ok(()) => EnrollStep::Finished,
        Err(e) => {
            let pause_ms: u64 = match e {
                AttemptError::TooFast => 1000,
                _ => 0,
            };
            let text = e.message();
            EnrollStep::Retry { pause_ms, warn: warns(text.as_str()) }
        },
    }
}

/// How an enrollment task ended.
#[derive(Clone, Copy, Debug, PartialEq, Eq)]
pub enum TaskOutcome {
    /// The task did not run to its end.
    Aborted,
    /// The task enrolled its course.
    Done,
    /// The task failed; `stale` holds the course number when the failure
    /// was a `ClassError`.
    Failed { stale: Option<usize> },
}

/// The course a finished task is started again for: the one its
/// `ClassError` names, course 1 for any other failure, none when the task
/// succeeded or did not run to its end.
pub fn respawn_target(outcome: TaskOutcome) -> (target: Option<usize>)
    ensures
        target == match outcome {
            TaskOutcome::Failed { stale: Some(v) } => Some(v),
            TaskOutcome::Failed { stale: None } => Some(1usize),
            _ => None,
        },
{
    match outcome {
        TaskOutcome::Failed { stale } => match stale {
            Some(v) => Some(v),
            None => Some(1),
        },
        _ => None,
    }
}

} // verus!
