use vstd::prelude::*;
use vstd::string::StringExecFns;

use crate::params::FormatData;
use crate::text::{decimal, decimal_spec, joined, same_text};

verus! {

/// One value of a JSON reply, held by what the client reads of it: `text`
/// is the value written out as JSON (a string comes with its quotes, an
/// absent value reads `null`), and `str_value` is the string it holds when
/// it is a JSON string.
#[derive(Clone, Debug)]
pub struct FieldValue {
    pub text: String,
    pub str_value: Option<String>,
}

/// The view of a field: its JSON text and, when it is a string, its content.
pub type FieldView = (Seq<char>, Option<Seq<char>>);

pub open spec fn text_of(o: Option<String>) -> Option<Seq<char>> {
    match o {
        Some(s) => Some(s@),
        None => None,
    }
}

impl View for FieldValue {
    type V = FieldView;

    open spec fn view(&self) -> FieldView {
        (self.text@, text_of(self.str_value))
    }
}

/// The field the reply has where it holds nothing: JSON `null`.
pub open spec fn null_field() -> FieldView {
    (seq!['n', 'u', 'l', 'l'], None)
}

/// One row of the course list.
///
/// `name` is `KCM`, `category` is `KCLB` (read for the specialized list),
/// `elective_category` is `XGXKLB` (read for the general list);
/// `class_id` and `secret` are the row's own `JXBID` and `secretVal` as
/// strings, `task_class_id` and `task_secret` those of the first entry of
/// its `tcList`.
#[derive(Clone, Debug)]
pub struct CourseRow {
    pub name: FieldValue,
    pub category: FieldValue,
    pub elective_category: FieldValue,
    pub class_id: Option<String>,
    pub secret: Option<String>,
    pub task_class_id: Option<String>,
    pub task_secret: Option<String>,
}

/// The course list of a reply: `total` is `data.total` when it is an
/// unsigned integer, `rows` are the entries of `data.rows`.
#[derive(Clone, Debug)]
pub struct CourseTable {
    pub total: Option<u64>,
    pub rows: Vec<CourseRow>,
}

/// The name field of row `i`; a row past the end reads as `null`.
pub open spec fn name_field(t: CourseTable, i: int) -> FieldView {
    if 0 <= i < t.rows.len() {
        t.rows@[i].name@
    } else {
        null_field()
    }
}

/// The category field of row `i` that the list kind reads.
pub open spec fn category_field(t: CourseTable, is_tjkc: bool, i: int) -> FieldView {
    if 0 <= i < t.rows.len() {
        if is_tjkc {
            t.rows@[i].category@
        } else {
            t.rows@[i].elective_category@
        }
    } else {
        null_field()
    }
}

/// The line that shows course `k`: `{k}: {name}  {category}`.
pub open spec fn course_line(k: nat, name: Seq<char>, category: Seq<char>) -> Seq<char> {
    decimal_spec(k) + seq![':', ' '] + name + seq![' ', ' '] + category
}

/// The number of courses listed: the rows numbered 1 up to, not including,
/// `total` (a missing total counts as 0).
pub open spec fn listed_count(data: FormatData) -> nat {
    match data.data_json.total {
        Some(n) => if n >= 1 { (n - 1) as nat } else { 0 },
        None => 0,
    }
}

/// The lines that list the courses, the line of course `k` at position `k - 1`.
pub open spec fn course_lines(data: FormatData) -> Seq<Seq<char>> {
    Seq::new(
        listed_count(data),
        |j: int|
            course_line(
                (j + 1) as nat,
                name_field(data.data_json, j + 1).0,
                category_field(data.data_json, data.is_tjkc, j + 1).0,
            ),
    )
}

/// Why the course list could not be had.
#[derive(Clone, Copy, Debug, PartialEq, Eq)]
pub enum ListError {
    /// The list held no course to show.
    NoCourses,
    /// The server answered with code `401`.
    Unauthorized,
    /// The request body could not be read as JSON.
    RequestBody,
}

impl ListError {
    /// The message of this error.
    pub fn message(&self) -> (s: String)
        ensures
            s@ == match self {
                ListError::NoCourses => "未能成功获取课程列表"@,
                ListError::Unauthorized => "认证失败(401)"@,
                ListError::RequestBody => "请求体不是合法的JSON"@,
            },
    {
        match self {
            ListError::NoCourses => "未能成功获取课程列表".to_owned(),
            ListError::Unauthorized => "认证失败(401)".to_owned(),
            ListError::RequestBody => "请求体不是合法的JSON".to_owned(),
        }
    }
}

/// Row `k` of the table, when there is one.
pub fn row_at(t: &CourseTable, k: u64) -> (r: Option<&CourseRow>)
    ensures
        k < t.rows.len() ==> r == Some(&t.rows@[k as int]),
        k >= t.rows.len() ==> r is None,
{
    if k < t.rows.len() as u64 {
        Some(&t.rows[k as usize])
    } else {
        None
    }
}

fn null_text() -> (s: &'static str)
    ensures
        s@ == null_field().0,
{
    proof {
        reveal_strlit("null");
    }
    "null"
}

/// The shown line of course `k`.
fn listed_line(data: &FormatData, k: u64) -> (line: String)
    ensures
        line@ == course_line(
            k as nat,
            name_field(data.data_json, k as int).0,
            category_field(data.data_json, data.is_tjkc, k as int).0,
        ),
{
    let (name, category) = match row_at(&data.data_json, k) {
        Some(row) => {
            let c = if data.is_tjkc {
                row.category.text.as_str()
            } else {
                row.elective_category.text.as_str()
            };
            (row.name.text.as_str(), c)
        },
        None => (null_text(), null_text()),
    };
    proof {
        reveal_strlit(": ");
        reveal_strlit("  ");
    }
    let mut line = decimal(k);
    line.append(": ");
    line.append(name);
    line.append("  ");
    line.append(category);
    line
}

/// The course list as the user sees it: one line `{k}: {name}  {category}`
/// for every course `k` from 1 up to, not including, the reply's total,
/// where the category is `KCLB` for the specialized list and `XGXKLB` for
/// the general one. Fails with `NoCourses` when no line would be shown.
pub fn format_all_class(data: &FormatData) -> (res: Result<Vec<String>, ListError>)
    ensures
        match res {
            Ok(lines) => {
                &&& course_lines(*data).len() > 0
                &&& lines@.map_values(|l: String| l@) == course_lines(*data)
            },
            Err(e) => course_lines(*data).len() == 0 && e == ListError::NoCourses,
        },
{
    let total: u64 = match data.data_json.total {
        Some(n) => n,
        None => 0,
    };
    let mut lines: Vec<String> = Vec::new();
    let mut k: u64 = 1;
    while k < total
        invariant
            total == match data.data_json.total {
                Some(n) => n,
                None => 0u64,
            },
            1 <= k,
            k - 1 <= listed_count(*data),
            lines@.map_values(|l: String| l@) == course_lines(*data).take(k - 1),
        decreases total - k,
    {
        let line = listed_line(data, k);
        let ghost before = lines@;
        lines.push(line);
        proof {
            assert(k - 1 < listed_count(*data));
            assert(course_lines(*data)[k - 1] == line@);
            assert(before.map_values(|l: String| l@).len() == k - 1);
            assert(lines@.map_values(|l: String| l@) =~= course_lines(*data).take(k as int));
        }
        k = k + 1;
    }
    proof {
        assert(course_lines(*data).take(k - 1) =~= course_lines(*data));
    }
    if lines.len() == 0 {
        return Err(ListError::NoCourses);
    }
    Ok(lines)
}

/// Declares `serde_json::Value`, the JSON document a request carries.
#[verifier::external_type_specification]
#[verifier::external_body]
pub struct ExJsonValue(serde_json::Value);

/// Declares `serde_json::Error`, what `serde_json` fails with.
#[verifier::external_type_specification]
#[verifier::external_body]
pub struct ExJsonError(serde_json::Error);

/// Whether `serde_json` reads `text` as one JSON value.
pub uninterp spec fn json_text_parses(text: Seq<char>) -> bool;

/// The JSON document `serde_json` reads from `text`.
pub uninterp spec fn json_document(text: Seq<char>) -> serde_json::Value;

/// Calls `serde_json::from_str::<serde_json::Value>`. Claims that the call
/// succeeds exactly when the text reads as JSON (`json_text_parses`) and
/// that the document is the named `json_document` of the text; both are
/// functions of the text alone.
#[verifier::external_body]
fn json_from_str(text: &str) -> (res: Result<serde_json::Value, serde_json::Error>)
    ensures
        res is Ok <==> json_text_parses(text@),
        res matches Ok(v) ==> v == json_document(text@),
{
    serde_json::from_str(text)
}

/// The body that asks for the specialized-elective list.
pub open spec fn specialized_list_body() -> Seq<char> {
    "{\"teachingClassType\":\"TJKC\",\"pageNumber\":1,\"pageSize\":1000,\"orderBy\":\"\",\"campus\":\"01\",\"SFCT\":\"0\"}"@
}

/// The body that asks for the general-elective list.
pub open spec fn general_list_body() -> Seq<char> {
    "{\"teachingClassType\":\"XGKC\",\"pageNumber\":1,\"pageSize\":1000,\"orderBy\":\"\",\"campus\":\"01\",\"SFCT\":\"0\"}"@
}

/// The body of the list request for the given list kind.
pub open spec fn list_body(is_tjkc: bool) -> Seq<char> {
    if is_tjkc {
        specialized_list_body()
    } else {
        general_list_body()
    }
}

/// The text of the body that asks for the course list of the given kind:
/// the first page of up to 1000 courses of campus `01`.
pub fn list_request_text(is_tjkc: bool) -> (s: &'static str)
    ensures
        s@ == list_body(is_tjkc),
{
    if is_tjkc {
        "{\"teachingClassType\":\"TJKC\",\"pageNumber\":1,\"pageSize\":1000,\"orderBy\":\"\",\"campus\":\"01\",\"SFCT\":\"0\"}"
    } else {
        "{\"teachingClassType\":\"XGKC\",\"pageNumber\":1,\"pageSize\":1000,\"orderBy\":\"\",\"campus\":\"01\",\"SFCT\":\"0\"}"
    }
}

/// The JSON document the list request sends, read from `list_request_text`.
/// Fails with `RequestBody` exactly when that text does not read as JSON.
pub fn list_request(is_tjkc: bool) -> (res: Result<serde_json::Value, ListError>)
    ensures
        res is Ok <==> json_text_parses(list_body(is_tjkc)),
        res matches Ok(v) ==> v == json_document(list_body(is_tjkc)),
        res matches Err(e) ==> e == ListError::RequestBody,
{
    match json_from_str(list_request_text(is_tjkc)) {
        Ok(v) => Ok(v),
        Err(_) => Err(ListError::RequestBody),
    }
}

/// The address the course list is asked from.
pub open spec fn list_url_spec(base: Seq<char>) -> Seq<char> {
    base + "elective/clazz/list"@
}

/// The address the course list is asked from: `{base}elective/clazz/list`.
pub fn list_url(base: &str) -> (s: String)
    ensures
        s@ == list_url_spec(base@),
{
    joined(base, "elective/clazz/list")
}

/// Judges the `code` of a list reply: the string `401` means the session
/// was refused, anything else is a list.
pub fn check_list_reply(code: Option<&str>) -> (res: Result<(), ListError>)
    ensures
        res is Err <==> (code matches Some(c) && c@ == "401"@),
        res matches Err(e) ==> e == ListError::Unauthorized,
{
    match code {
        Some(c) => {
            if same_text(c, "401") {
                Err(ListError::Unauthorized)
            } else {
                Ok(())
            }
        },
        None => Ok(()),
    }
}

} // verus!
