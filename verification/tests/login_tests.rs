use base64::Engine;
use class_get::catalog::FieldValue;
use class_get::login::{
    account_config_source, account_of, class_config_text, classes_of, default_config, encrypt,
    judge_login_reply, login_form, login_url, trim_matches_char, ConfigError, ConfigSource,
    LoginError, LoginStep,
};
use class_get::params::Config;

#[test]
fn encrypt_known_vectors() {
    assert_eq!(encrypt("1919810"), "r++lclw72tt6CyIpYswPmQ==");
    assert_eq!(encrypt(""), "mkpyTarWC0ro2N4QUBrjAQ==");
    assert_eq!(encrypt("0123456789abcdef"), "N532l/CyIQ1l+eC8ZBAmwppKck2q1gtK6NjeEFAa4wE=");
    assert_eq!(encrypt("密码abc"), "RzTc427hjwBx/Lo8Sllx4A==");
}

#[test]
fn login_form_fields() {
    let form = login_form("114514", "enc", "ab12", "u-1");
    let expected: Vec<(String, String)> = [("loginname", "114514"), ("password", "enc"), ("captcha", "ab12"), ("uuid", "u-1")]
        .iter()
        .map(|(a, b)| (a.to_string(), b.to_string()))
        .collect();
    assert_eq!(form, expected);
    assert_eq!(login_url("https://h/xsxk/"), "https://h/xsxk/auth/login");
}

#[test]
fn trimming_quotes() {
    assert_eq!(trim_matches_char("\"abc\"", '"'), "abc");
    assert_eq!(trim_matches_char("\"\"a\"b\"\"", '"'), "a\"b");
    assert_eq!(trim_matches_char("\"\"\"", '"'), "");
    assert_eq!(trim_matches_char("", '"'), "");
    assert_eq!(trim_matches_char("null", '"'), "null");
    let once = trim_matches_char("\"\"x\"", '"');
    assert_eq!(trim_matches_char(&once, '"'), once);
}

fn field(s: Option<&str>, text: &str) -> FieldValue {
    FieldValue { text: text.to_string(), str_value: s.map(|x| x.to_string()) }
}

#[test]
fn login_replies() {
    let taken = field(Some("管理员变更数据或账号在其他地方登录，请重新登录"), "\"...\"");
    assert!(matches!(judge_login_reply(&taken, "null"), LoginStep::Failed(LoginError::LoggedInElsewhere)));
    assert_eq!(LoginError::LoggedInElsewhere.message(), "账号在其他地方登录");
    assert!(matches!(judge_login_reply(&field(Some("null"), "\"null\""), "null"), LoginStep::Retry));
    match judge_login_reply(&field(None, "{\"token\":\"t0k\"}"), "\"t0k\"") {
        LoginStep::Done(p) => {
            assert_eq!(p.auth, "t0k");
            assert_eq!(p.batchid, "5457852c392e4fb0bc162402c1047701");
        }
        other => panic!("unexpected {:?}", other),
    }
    match judge_login_reply(&field(Some("ok"), "\"ok\""), "null") {
        LoginStep::Done(p) => assert_eq!(p.auth, "null"),
        other => panic!("unexpected {:?}", other),
    }
}

#[test]
fn class_settings_text_choice() {
    assert_eq!(class_config_text(Some("a".into()), Some("b".into())), "a");
    assert_eq!(class_config_text(None, Some("b".into())), "b");
    assert_eq!(class_config_text(None, None), "失败");
}

#[test]
fn account_settings_source() {
    assert!(matches!(account_config_source(Some("a".into()), None), ConfigSource::Text(t) if t == "a"));
    assert!(matches!(account_config_source(None, Some("b".into())), ConfigSource::Text(t) if t == "b"));
    assert!(matches!(account_config_source(None, None), ConfigSource::WriteDefault));
    assert_eq!(default_config(), "account: 114514\npassword: 1919810\nclass: [1, 1, 4, 5, 1, 4]");
}

#[test]
fn settings_values() {
    let c = Config { account: "114514".into(), password: "1919810".into(), class: vec![1, 1, 4] };
    assert_eq!(classes_of(Some(c.clone())).unwrap(), vec![1, 1, 4]);
    assert_eq!(account_of(Some(c)).unwrap(), ("114514".to_string(), "1919810".to_string()));
    assert_eq!(classes_of(None).unwrap_err(), ConfigError::Unreadable);
    assert_eq!(account_of(None).unwrap_err(), ConfigError::Unreadable);
    assert_eq!(
        ConfigError::Unreadable.message(),
        "配置文件读取失败，请检查是否存在配置文件，若不存在，将会自动创建"
    );
}

#[test]
fn encrypted_password_lengths_and_round_trip() {
    for pw in ["", "1919810", "0123456789abcdef", "密码abc", "a longer password of 33 bytes..."] {
        let r = encrypt(pw);
        let n = pw.len();
        let c = 16 * (n / 16 + 1);
        let bytes = base64::engine::general_purpose::STANDARD.decode(&r).unwrap();
        assert_eq!(bytes.len(), c);
        assert_eq!(r.len(), 4 * ((c + 2) / 3));
        let plain = soft_aes::aes::aes_dec_ecb(&bytes, b"MWMqg2tPcDkxcm11", Some("PKCS7")).unwrap();
        assert_eq!(plain, pw.as_bytes());
    }
    assert_ne!(encrypt("p1"), encrypt("p2"));
    assert_eq!(encrypt("p1"), encrypt("p1"));
}

#[test]
fn shared_leading_blocks_give_shared_ciphertext_blocks() {
    let a = base64::engine::general_purpose::STANDARD.decode(encrypt("0123456789abcdefXYZ")).unwrap();
    let b = base64::engine::general_purpose::STANDARD.decode(encrypt("0123456789abcdef-other")).unwrap();
    assert_eq!(a[..16], b[..16]);
    assert_ne!(a[16..], b[16..]);
}
