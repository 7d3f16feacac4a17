use class_get::catalog::{
    check_list_reply, format_all_class, list_request, list_request_text, list_url, row_at,
    CourseRow, CourseTable, FieldValue, ListError,
};
use class_get::params::FormatData;

fn text(s: &str) -> FieldValue {
    FieldValue { text: format!("\"{}\"", s), str_value: Some(s.to_string()) }
}

fn number(n: i64) -> FieldValue {
    FieldValue { text: n.to_string(), str_value: None }
}

fn row(name: &str, kclb: &str, xgxklb: &str) -> CourseRow {
    CourseRow {
        name: text(name),
        category: text(kclb),
        elective_category: text(xgxklb),
        class_id: Some(format!("{}-id", name)),
        secret: Some(format!("{}-secret", name)),
        task_class_id: Some(format!("{}-task", name)),
        task_secret: Some(format!("{}-task-secret", name)),
    }
}

fn table(total: Option<u64>) -> CourseTable {
    CourseTable {
        total,
        rows: vec![row("零", "A0", "B0"), row("数学", "A1", "B1"), row("物理", "A2", "B2")],
    }
}

#[test]
fn lists_rows_from_one_below_total() {
    let data = FormatData { data_json: table(Some(3)), is_tjkc: false };
    let lines = format_all_class(&data).unwrap();
    assert_eq!(lines, vec!["1: \"数学\"  \"B1\"".to_string(), "2: \"物理\"  \"B2\"".to_string()]);
}

#[test]
fn specialized_list_shows_kclb() {
    let data = FormatData { data_json: table(Some(3)), is_tjkc: true };
    let lines = format_all_class(&data).unwrap();
    assert_eq!(lines[0], "1: \"数学\"  \"A1\"");
}

#[test]
fn rows_past_the_end_read_null() {
    let data = FormatData { data_json: table(Some(5)), is_tjkc: false };
    let lines = format_all_class(&data).unwrap();
    assert_eq!(lines.len(), 4);
    assert_eq!(lines[2], "3: null  null");
    assert_eq!(lines[3], "4: null  null");
}

#[test]
fn non_string_fields_show_their_json() {
    let mut t = table(Some(2));
    t.rows[1].name = number(42);
    let data = FormatData { data_json: t, is_tjkc: false };
    assert_eq!(format_all_class(&data).unwrap(), vec!["1: 42  \"B1\"".to_string()]);
}

#[test]
fn empty_lists_are_errors() {
    for total in [None, Some(0), Some(1)] {
        let data = FormatData { data_json: table(total), is_tjkc: false };
        assert_eq!(format_all_class(&data).unwrap_err(), ListError::NoCourses);
    }
    assert_eq!(ListError::NoCourses.message(), "未能成功获取课程列表");
}

#[test]
fn listed_numbers_are_distinct_on_a_long_list() {
    let data = FormatData { data_json: table(Some(23)), is_tjkc: false };
    let lines = format_all_class(&data).unwrap();
    let numbers: Vec<&str> = lines.iter().map(|l| l.split(':').next().unwrap()).collect();
    for (i, n) in numbers.iter().enumerate() {
        assert_eq!(*n, (i + 1).to_string());
    }
}

#[test]
fn row_lookup() {
    let t = table(Some(3));
    assert!(row_at(&t, 2).is_some());
    assert!(row_at(&t, 3).is_none());
}

#[test]
fn list_request_bodies() {
    assert_eq!(
        list_request_text(true),
        r#"{"teachingClassType":"TJKC","pageNumber":1,"pageSize":1000,"orderBy":"","campus":"01","SFCT":"0"}"#
    );
    assert_eq!(
        list_request_text(false),
        r#"{"teachingClassType":"XGKC","pageNumber":1,"pageSize":1000,"orderBy":"","campus":"01","SFCT":"0"}"#
    );
    let v = list_request(true).unwrap();
    assert_eq!(v["teachingClassType"], "TJKC");
    assert_eq!(v["pageSize"], 1000);
    let v = list_request(false).unwrap();
    assert_eq!(v["teachingClassType"], "XGKC");
    for kind in [true, false] {
        let expected: serde_json::Value = serde_json::from_str(list_request_text(kind)).unwrap();
        assert_eq!(list_request(kind).unwrap(), expected);
    }
}

#[test]
fn list_replies_with_code_401_are_refused() {
    assert_eq!(check_list_reply(Some("401")), Err(ListError::Unauthorized));
    assert_eq!(check_list_reply(Some("200")), Ok(()));
    assert_eq!(check_list_reply(None), Ok(()));
    assert_eq!(ListError::Unauthorized.message(), "认证失败(401)");
}

#[test]
fn list_address() {
    assert_eq!(list_url("https://h/xsxk/"), "https://h/xsxk/elective/clazz/list");
}
