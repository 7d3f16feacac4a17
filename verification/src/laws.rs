use vstd::prelude::*;

use crate::catalog::{course_lines, listed_count, list_body, name_field, category_field, course_line};
use crate::captcha::png_payload;
use crate::catalog::FieldView;
use crate::codec::{base64_bytes, base64_reads_back, standard_base64};
use crate::enroll::{attempt_outcome, enroll_form_spec, enroll_keys, or_empty, AttemptError};
use crate::login::{aes_ecb_ciphertext, encrypted_password, login_form_spec, trim_char};
use vstd::utf8::encode_utf8;
use crate::params::FormatData;
use crate::text::{decimal_spec, digit_char, occurs_at};

verus! {

/// The number a decimal text stands for.
pub open spec fn decimal_value(s: Seq<char>) -> int
    decreases s.len(),
{
    if s.len() == 0 {
        0
    } else {
        decimal_value(s.drop_last()) * 10 + (s.last() as int - 48)
    }
}

/// The characters of `s` before its first `:`.
pub open spec fn before_colon(s: Seq<char>) -> Seq<char>
    decreases s.len(),
{
    if s.len() == 0 || s[0] == ':' {
        Seq::empty()
    } else {
        seq![s[0]] + before_colon(s.drop_first())
    }
}

/// A decimal rendering reads back as the number it renders: the rendering
/// loses nothing.
pub proof fn decimal_reads_back(n: nat)
    ensures
        decimal_value(decimal_spec(n)) == n,
        decimal_spec(n).len() > 0,
        forall|i: int| 0 <= i < decimal_spec(n).len() ==> '0' <= #[trigger] decimal_spec(n)[i] <= '9',
    decreases n,
{
    if n < 10 {
        let s = decimal_spec(n);
        assert(s.drop_last() =~= Seq::<char>::empty());
        assert(decimal_value(s.drop_last()) == 0);
        assert(s.last() == digit_char(n as int));
        assert(digit_char(n as int) as int == 48 + n);
    } else {
        decimal_reads_back(n / 10);
        let s = decimal_spec(n);
        assert(s.drop_last() =~= decimal_spec(n / 10));
        assert(digit_char((n % 10) as int) as int == 48 + n % 10);
        assert(s.last() == digit_char((n % 10) as int));
        assert((n / 10) * 10 + n % 10 == n) by (nonlinear_arith);
        assert(decimal_value(s) == decimal_value(decimal_spec(n / 10)) * 10 + (n % 10));
    }
}

/// Different numbers render as different texts.
pub proof fn decimal_is_injective(a: nat, b: nat)
    requires
        decimal_spec(a) == decimal_spec(b),
    ensures
        a == b,
{
    decimal_reads_back(a);
    decimal_reads_back(b);
}

proof fn lemma_before_colon(d: Seq<char>, rest: Seq<char>)
    requires
        forall|i: int| 0 <= i < d.len() ==> d[i] != ':',
    ensures
        before_colon(d + seq![':'] + rest) == d,
    decreases d.len(),
{
    let s = d + seq![':'] + rest;
    if d.len() == 0 {
        assert(s[0] == ':');
    } else {
        assert(s[0] == d[0]);
        assert(s.drop_first() =~= d.drop_first() + seq![':'] + rest);
        lemma_before_colon(d.drop_first(), rest);
        assert(seq![d[0]] + d.drop_first() =~= d);
    }
}

/// The number a listed line shows before its `:` is the number of the course
/// it lists, and that number, given back as a course number, enrolls that
/// very row: the form for course `k` carries row `k`'s class id and secret.
pub proof fn listed_number_selects_its_course(data: FormatData, k: int)
    requires
        1 <= k <= listed_count(data),
    ensures
        before_colon(course_lines(data)[k - 1]) == decimal_spec(k as nat),
        course_lines(data)[k - 1] == course_line(
            k as nat,
            name_field(data.data_json, k).0,
            category_field(data.data_json, data.is_tjkc, k).0,
        ),
        enroll_form_spec(data, k)[1].1 == or_empty(enroll_keys(data.data_json, data.is_tjkc, k).0),
        enroll_form_spec(data, k)[2].1 == or_empty(enroll_keys(data.data_json, data.is_tjkc, k).1),
{
    let d = decimal_spec(k as nat);
    decimal_reads_back(k as nat);
    let line = course_lines(data)[k - 1];
    let rest = seq![' '] + name_field(data.data_json, k).0 + seq![' ', ' '] + category_field(data.data_json, data.is_tjkc, k).0;
    assert(line =~= d + seq![':'] + rest);
    assert forall|i: int| 0 <= i < d.len() implies d[i] != ':' by {
        assert('0' <= d[i] <= '9');
    }
    lemma_before_colon(d, rest);
}

/// No two listed courses show the same number.
pub proof fn listed_numbers_are_distinct(data: FormatData, j1: int, j2: int)
    requires
        0 <= j1 < listed_count(data),
        0 <= j2 < listed_count(data),
        j1 != j2,
    ensures
        before_colon(course_lines(data)[j1]) != before_colon(course_lines(data)[j2]),
{
    listed_number_selects_its_course(data, j1 + 1);
    listed_number_selects_its_course(data, j2 + 1);
    if decimal_spec((j1 + 1) as nat) == decimal_spec((j2 + 1) as nat) {
        decimal_is_injective((j1 + 1) as nat, (j2 + 1) as nat);
    }
}

/// A trimmed text neither starts nor ends with the trimmed character.
pub proof fn trimmed_has_no_outer_char(s: Seq<char>, c: char)
    ensures
        trim_char(s, c).len() > 0 ==> trim_char(s, c)[0] != c && trim_char(s, c).last() != c,
        trim_char(s, c).len() <= s.len(),
    decreases s.len(),
{
    if s.len() > 0 && s[0] == c {
        trimmed_has_no_outer_char(s.drop_first(), c);
    } else if s.len() > 0 && s.last() == c {
        trimmed_has_no_outer_char(s.drop_last(), c);
    }
}

/// Trimming twice trims no more than trimming once.
pub proof fn trimming_is_idempotent(s: Seq<char>, c: char)
    ensures
        trim_char(trim_char(s, c), c) == trim_char(s, c),
{
    trimmed_has_no_outer_char(s, c);
    let t = trim_char(s, c);
    if t.len() == 0 {
    } else {
        assert(t[0] != c);
        assert(t.last() != c);
    }
}

/// A course is enrolled as the kind of course its list was asked for: the
/// `clazzType` of every enrollment form is the `teachingClassType` of the
/// list request of the same kind.
pub proof fn enrollment_kind_matches_list_kind(data: FormatData, k: int)
    ensures
        occurs_at(list_body(data.is_tjkc), enroll_form_spec(data, k)[0].1, 22),
        enroll_form_spec(data, k)[0].0 == "clazzType"@,
{
    reveal_strlit("TJKC");
    reveal_strlit("XGKC");
    reveal_strlit("{\"teachingClassType\":\"TJKC\",\"pageNumber\":1,\"pageSize\":1000,\"orderBy\":\"\",\"campus\":\"01\",\"SFCT\":\"0\"}");
    reveal_strlit("{\"teachingClassType\":\"XGKC\",\"pageNumber\":1,\"pageSize\":1000,\"orderBy\":\"\",\"campus\":\"01\",\"SFCT\":\"0\"}");
    let body = list_body(data.is_tjkc);
    let kind = enroll_form_spec(data, k)[0].1;
    assert(body.subrange(22, 26) =~= kind);
}

/// The row of course `num` holds its name and the category its list kind
/// reads as JSON strings.
pub open spec fn row_is_readable(data: FormatData, num: int) -> bool {
    &&& 0 <= num < data.data_json.rows.len()
    &&& data.data_json.rows@[num].name.str_value is Some
    &&& if data.is_tjkc {
        data.data_json.rows@[num].category.str_value is Some
    } else {
        data.data_json.rows@[num].elective_category.str_value is Some
    }
}

/// A course counts as enrolled only when the server answers exactly
/// `该课程已在选课结果中`, and always does when the course's row is readable;
/// any other string answer that neither calls the task stale nor asks to
/// slow down is refused, carrying the answer's JSON text.
pub proof fn enrolled_only_on_the_enrolled_answer(
    data: FormatData,
    num: int,
    msg: FieldView,
    res: Result<(), AttemptError>,
)
    requires
        attempt_outcome(data, num, msg, res),
    ensures
        res is Ok ==> msg.1 == Some("该课程已在选课结果中"@),
        row_is_readable(data, num) && msg.1 == Some("该课程已在选课结果中"@) ==> res is Ok,
        row_is_readable(data, num) && (msg.1 matches Some(m) && m != "该课程已在选课结果中"@
            && m != "参数校验不通过"@ && m != "教学任务信息过期，请重新刷新列表"@ && m != "请求过快，请登录后再试"@)
            ==> (res matches Err(AttemptError::Refused(t)) && t@ == msg.0),
{
    reveal_strlit("该课程已在选课结果中");
    reveal_strlit("参数校验不通过");
    reveal_strlit("教学任务信息过期，请重新刷新列表");
    reveal_strlit("请求过快，请登录后再试");
    assert("该课程已在选课结果中"@.len() == 10);
    assert("参数校验不通过"@.len() == 7);
    assert("教学任务信息过期，请重新刷新列表"@.len() == 16);
    assert("请求过快，请登录后再试"@.len() == 11);
    if row_is_readable(data, num) {
        assert(crate::catalog::name_field(data.data_json, num).1 is Some);
        assert(crate::catalog::category_field(data.data_json, data.is_tjkc, num).1 is Some);
    }
}

/// The encrypted password is the base64 text of the cipher's output for
/// the password's own UTF-8 bytes, under the key `MWMqg2tPcDkxcm11` with
/// `PKCS7` padding: decoding the text gives back exactly that ciphertext.
pub proof fn encryption_enciphers_the_password_bytes(password: Seq<char>)
    ensures
        base64_bytes(encrypted_password(password)) == aes_ecb_ciphertext(
            encode_utf8(password),
            encode_utf8("MWMqg2tPcDkxcm11"@),
            Some("PKCS7"@),
        ),
{
    base64_reads_back(aes_ecb_ciphertext(encode_utf8(password), encode_utf8("MWMqg2tPcDkxcm11"@), Some("PKCS7"@)));
}

/// For a data URI of media type `data:image/png;base64`, the payload is
/// exactly the text after the comma, whatever it holds; so the payload of
/// the URI of any bytes' standard encoding decodes back to those bytes.
pub proof fn png_payload_is_the_text_after_the_comma(text: Seq<char>, bytes: Seq<u8>)
    ensures
        png_payload(Some("data:image/png;base64,"@ + text)) == Ok::<Seq<char>, crate::captcha::CaptchaError>(text),
        png_payload(Some("data:image/png;base64,"@ + standard_base64(bytes))) matches Ok(p) && base64_bytes(p) == bytes,
{
    reveal_strlit("data:image/png;base64,");
    reveal_strlit("data:image/png;base64");
    assert forall|t: Seq<char>| png_payload(Some("data:image/png;base64,"@ + t)) == Ok::<Seq<char>, crate::captcha::CaptchaError>(t) by {
        let uri = "data:image/png;base64,"@ + t;
        assert(crate::captcha::is_first_comma(uri, 21));
        assert(crate::captcha::has_comma(uri));
        let at = crate::captcha::first_comma(uri);
        if at < 21 {
            assert(uri[at] != ',');
        } else if at > 21 {
            assert(uri[21] == ',');
        }
        assert(at == 21);
        assert(uri.take(21) =~= crate::captcha::png_media_type());
        assert(uri.skip(22) =~= t);
    }
    base64_reads_back(bytes);
}

/// Each field of the login form carries its argument unchanged, under its
/// own name, in the order loginname, password, captcha, uuid.
pub proof fn login_form_carries_its_arguments(account: Seq<char>, encrypted: Seq<char>, captcha: Seq<char>, uuid: Seq<char>)
    ensures
        login_form_spec(account, encrypted, captcha, uuid).len() == 4,
        login_form_spec(account, encrypted, captcha, uuid)[0] == ("loginname"@, account),
        login_form_spec(account, encrypted, captcha, uuid)[1] == ("password"@, encrypted),
        login_form_spec(account, encrypted, captcha, uuid)[2] == ("captcha"@, captcha),
        login_form_spec(account, encrypted, captcha, uuid)[3] == ("uuid"@, uuid),
{
}

/// The class id and secret an enrollment form sends come from the same
/// place: the row's own `JXBID` and `secretVal` for the general list, those
/// of its first teaching class for the specialized list, never mixed; an
/// absent value is sent as the empty text.
pub proof fn enrollment_keys_come_from_one_place(data: FormatData, k: int)
    requires
        0 <= k < data.data_json.rows.len(),
    ensures
        enroll_form_spec(data, k).len() == 3,
        enroll_form_spec(data, k)[0].0 == "clazzType"@,
        enroll_form_spec(data, k)[1].0 == "clazzId"@,
        enroll_form_spec(data, k)[2].0 == "secretVal"@,
        data.is_tjkc ==> enroll_form_spec(data, k)[1].1 == match data.data_json.rows@[k].task_class_id {
            Some(t) => t@,
            None => Seq::<char>::empty(),
        },
        data.is_tjkc ==> enroll_form_spec(data, k)[2].1 == match data.data_json.rows@[k].task_secret {
            Some(t) => t@,
            None => Seq::<char>::empty(),
        },
        !data.is_tjkc ==> enroll_form_spec(data, k)[1].1 == match data.data_json.rows@[k].class_id {
            Some(t) => t@,
            None => Seq::<char>::empty(),
        },
        !data.is_tjkc ==> enroll_form_spec(data, k)[2].1 == match data.data_json.rows@[k].secret {
            Some(t) => t@,
            None => Seq::<char>::empty(),
        },
{
}

} // verus!
