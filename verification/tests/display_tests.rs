use class_get::display::{course_list_report, selection_report};

#[test]
fn course_list_text() {
    let lines = vec!["1: \"a\"  \"b\"".to_string(), "2: null  null".to_string()];
    assert_eq!(course_list_report(&lines), "你的课程列表为：\n1: \"a\"  \"b\" \n2: null  null \n");
    assert_eq!(course_list_report(&Vec::new()), "你的课程列表为：\n");
}

#[test]
fn selection_text() {
    assert_eq!(selection_report(&vec![1, 1, 4, 5]), "你选择的课程为：\n1 1 4 5 \n");
    assert_eq!(selection_report(&Vec::new()), "你选择的课程为：\n\n");
}
