use vstd::prelude::*;
use vstd::string::StringExecFns;

use crate::text::{decimal, decimal_spec};

verus! {

/// Each item followed by `suffix`, one after the other.
pub open spec fn each_followed_by(items: Seq<Seq<char>>, suffix: Seq<char>) -> Seq<char>
    decreases items.len(),
{
    if items.len() == 0 {
        Seq::empty()
    } else {
        each_followed_by(items.drop_last(), suffix) + items.last() + suffix
    }
}

/// The heading shown above the course list.
pub open spec fn course_list_heading() -> Seq<char> {
    "你的课程列表为：\n"@
}

/// The text that shows the course list: the heading, then every line
/// followed by a space on a line of its own.
pub open spec fn course_list_report_spec(lines: Seq<Seq<char>>) -> Seq<char> {
    course_list_heading() + each_followed_by(lines, " \n"@)
}

/// The text that shows the course list (see `course_list_report_spec`).
pub fn course_list_report(lines: &Vec<String>) -> (s: String)
    ensures
        s@ == course_list_report_spec(lines@.map_values(|l: String| l@)),
{
    let ghost items = lines@.map_values(|l: String| l@);
    let mut s = "你的课程列表为：\n".to_owned();
    let mut i: usize = 0;
    while i < lines.len()
        invariant
            items == lines@.map_values(|l: String| l@),
            i <= lines.len(),
            s@ == course_list_heading() + each_followed_by(items.take(i as int), " \n"@),
        decreases lines.len() - i,
    {
        s.append(lines[i].as_str());
        s.append(" \n");
        proof {
            assert(items.take(i + 1).drop_last() =~= items.take(i as int));
            assert(items.take(i + 1).last() == lines@[i as int]@);
        }
        i = i + 1;
    }
    proof {
        assert(items.take(i as int) =~= items);
    }
    s
}

/// The heading shown above the chosen courses.
pub open spec fn selection_heading() -> Seq<char> {
    "你选择的课程为：\n"@
}

/// The text that shows the chosen course numbers: the heading, then every
/// number followed by a space, then a line break.
pub open spec fn selection_report_spec(classes: Seq<usize>) -> Seq<char> {
    selection_heading() + each_followed_by(classes.map_values(|c: usize| decimal_spec(c as nat)), " "@) + "\n"@
}

/// The text that shows the chosen course numbers (see
/// `selection_report_spec`).
pub fn selection_report(classes: &Vec<usize>) -> (s: String)
    ensures
        s@ == selection_report_spec(classes@),
{
    let ghost items = classes@.map_values(|c: usize| decimal_spec(c as nat));
    let mut s = "你选择的课程为：\n".to_owned();
    let mut i: usize = 0;
    while i < classes.len()
        invariant
            items == classes@.map_values(|c: usize| decimal_spec(c as nat)),
            i <= classes.len(),
            s@ == selection_heading() + each_followed_by(items.take(i as int), " "@),
        decreases classes.len() - i,
    {
        let digits = decimal(classes[i] as u64);
        s.append(digits.as_str());
        s.append(" ");
        proof {
            assert(items.take(i + 1).drop_last() =~= items.take(i as int));
        }
        i = i + 1;
    }
    proof {
        assert(items.take(i as int) =~= items);
    }
    s.append("\n");
    s
}

} // verus!
