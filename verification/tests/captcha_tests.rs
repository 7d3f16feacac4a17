use class_get::captcha::{captcha_url, ocr_input, pair_captcha, png_payload_of, save_image_from_data_uri, CaptchaError};

const PIXEL: &str = "iVBORw0KGgoAAAANSUhEUgAAAAEAAAABCAYAAAAfFcSJAAAADUlEQVR42mNkYPhfDwAChwGA60e6kgAAAABJRU5ErkJggg==";

#[test]
fn payload_of_png_data_uri() {
    let uri = format!("data:image/png;base64,{}", PIXEL);
    assert_eq!(png_payload_of(Some(&uri)).unwrap(), PIXEL);
    assert_eq!(png_payload_of(Some("data:image/png;base64,a,b")).unwrap(), "a,b");
}

#[test]
fn payload_errors() {
    assert!(matches!(png_payload_of(None), Err(CaptchaError::Missing)));
    assert!(matches!(png_payload_of(Some("no comma here")), Err(CaptchaError::Missing)));
    assert!(matches!(png_payload_of(Some("data:image/jpeg;base64,xx")), Err(CaptchaError::NotPng)));
    assert!(matches!(png_payload_of(Some(",xx")), Err(CaptchaError::NotPng)));
}

#[test]
fn decodes_a_png_captcha() {
    let uri = format!("data:image/png;base64,{}", PIXEL);
    let picture = save_image_from_data_uri(Some(&uri)).unwrap();
    let png = ocr_input(&picture).unwrap();
    assert_eq!(&png[..8], b"\x89PNG\r\n\x1a\n");
}

#[test]
fn bad_payloads() {
    assert!(matches!(save_image_from_data_uri(Some("data:image/png;base64,@@@")), Err(CaptchaError::Base64(_))));
    assert!(matches!(save_image_from_data_uri(Some("data:image/png;base64,AAAA")), Err(CaptchaError::Picture(_))));
    assert!(matches!(save_image_from_data_uri(None), Err(CaptchaError::Missing)));
    assert_eq!(CaptchaError::Missing.message(), "获取验证码图片失败");
    assert_eq!(CaptchaError::NotPng.message(), "解析验证码图片失败");
    assert_eq!(CaptchaError::NoUuid.message(), "Failed to get captcha");
}

#[test]
fn captcha_pairs() {
    assert_eq!(pair_captcha(Some("u"), "ab".into()).unwrap(), ("u".to_string(), "ab".to_string()));
    assert!(matches!(pair_captcha(None, "ab".into()), Err(CaptchaError::NoUuid)));
    assert_eq!(captcha_url("https://h/"), "https://h/auth/captcha");
}

#[test]
fn base64_refusals_carry_the_decoders_message() {
    match save_image_from_data_uri(Some("data:image/png;base64,!!!!")) {
        Err(CaptchaError::Base64(m)) => {
            assert_ne!(m, "获取验证码图片失败");
            assert_ne!(m, "解析验证码图片失败");
            assert!(!m.is_empty());
        }
        other => panic!("unexpected {:?}", other.map(|_| ())),
    }
}

#[test]
fn recognizer_input_is_the_pictures_png() {
    let uri = format!("data:image/png;base64,{}", PIXEL);
    let picture = save_image_from_data_uri(Some(&uri)).unwrap();
    let png = ocr_input(&picture).unwrap();
    let again = image::load_from_memory(&png).unwrap();
    assert_eq!((again.width(), again.height()), (1, 1));
    assert_eq!(again.to_rgba8().into_raw(), picture.to_rgba8().into_raw());
}
