use vstd::prelude::*;
use vstd::string::StringExecFns;
use base64::Engine;

use crate::codec::{base64_bytes, base64_reads_back, is_standard_base64, standard_base64};
use crate::text::{chars_of, joined};

verus! {

/// Declares `image::DynamicImage`, a decoded picture.
#[verifier::external_type_specification]
#[verifier::external_body]
pub struct ExDynamicImage(image::DynamicImage);

/// The message the standard base64 engine gives when it refuses `text`.
pub uninterp spec fn base64_error_text(text: Seq<char>) -> Seq<char>;

/// Calls `Engine::decode` of `base64::engine::general_purpose::STANDARD`,
/// turning its error into its message. That engine requires canonical `=`
/// padding and zero trailing bits, so it accepts exactly the standard
/// encodings: claims that it decodes a text to the bytes whose standard
/// base64 encoding the text is, and refuses every other text with the
/// named message `base64_error_text`.
#[verifier::external_body]
fn base64_decode(text: &str) -> (res: Result<Vec<u8>, String>)
    ensures
        match res {
            Ok(b) => standard_base64(b@) == text@,
            Err(m) => !is_standard_base64(text@) && m@ == base64_error_text(text@),
        },
{
    base64::engine::general_purpose::STANDARD.decode(text).map_err(|e| e.to_string())
}

/// Whether `image::load_from_memory` reads `bytes` as a picture.
pub uninterp spec fn picture_decodes(bytes: Seq<u8>) -> bool;

/// The picture `image::load_from_memory` reads from `bytes`.
pub uninterp spec fn decoded_picture(bytes: Seq<u8>) -> image::DynamicImage;

/// The message `image::load_from_memory` gives when it cannot read `bytes`.
pub uninterp spec fn picture_error_text(bytes: Seq<u8>) -> Seq<char>;

/// Calls `image::load_from_memory`, turning its error into its message.
/// Claims that it succeeds exactly when the bytes read as a picture
/// (`picture_decodes`), that the picture is the named `decoded_picture` of
/// the bytes, and that a refusal carries the named `picture_error_text`.
#[verifier::external_body]
fn load_picture(bytes: &[u8]) -> (res: Result<image::DynamicImage, String>)
    ensures
        match res {
            Ok(p) => picture_decodes(bytes@) && p == decoded_picture(bytes@),
            Err(m) => !picture_decodes(bytes@) && m@ == picture_error_text(bytes@),
        },
{
    image::load_from_memory(bytes).map_err(|e| e.to_string())
}

/// The eight bytes every PNG file begins with.
pub open spec fn png_signature() -> Seq<u8> {
    seq![137u8, 80u8, 78u8, 71u8, 13u8, 10u8, 26u8, 10u8]
}

/// `bytes` begins with the PNG signature.
pub open spec fn starts_as_png(bytes: Seq<u8>) -> bool {
    bytes.len() >= 8 && bytes.take(8) == png_signature()
}

/// The PNG file `DynamicImage::write_to` writes for `picture`; `None` when
/// it cannot encode it.
pub uninterp spec fn png_encoding(picture: image::DynamicImage) -> Option<Seq<u8>>;

/// The message `DynamicImage::write_to` gives when it cannot encode
/// `picture` as a PNG file.
pub uninterp spec fn png_error_text(picture: image::DynamicImage) -> Seq<char>;

/// Calls `DynamicImage::write_to` with `ImageOutputFormat::Png` into an
/// in-memory buffer, turning its error into its message. Claims that the
/// outcome is the named `png_encoding` of the picture, that what a
/// successful call wrote begins with the PNG signature (the PNG encoder
/// writes it first), and that a failure carries the named `png_error_text`.
#[verifier::external_body]
fn encode_png(picture: &image::DynamicImage) -> (res: Result<Vec<u8>, String>)
    ensures
        match res {
            Ok(b) => png_encoding(*picture) == Some(b@) && starts_as_png(b@),
            Err(m) => png_encoding(*picture) is None && m@ == png_error_text(*picture),
        },
{
    let mut raw = std::io::Cursor::new(Vec::new());
    match picture.write_to(&mut raw, image::ImageOutputFormat::Png) {
        Ok(()) => Ok(raw.into_inner()),
        Err(e) => Err(e.to_string()),
    }
}

/// Why a captcha could not be had.
#[derive(Clone, Debug)]
pub enum CaptchaError {
    /// The reply held no picture, or no `,` in its data URI.
    Missing,
    /// The data URI is not a base64 PNG.
    NotPng,
    /// The base64 text did not decode; holds the decoder's message.
    Base64(String),
    /// The picture could not be decoded or re-encoded; holds the message.
    Picture(String),
    /// The reply held no captcha id.
    NoUuid,
}

impl CaptchaError {
    /// The message of this error.
    pub fn message(&self) -> (s: String)
        ensures
            s@ == match self {
                CaptchaError::Missing => "获取验证码图片失败"@,
                CaptchaError::NotPng => "解析验证码图片失败"@,
                CaptchaError::Base64(m) => m@,
                CaptchaError::Picture(m) => m@,
                CaptchaError::NoUuid => "Failed to get captcha"@,
            },
    {
        match self {
            CaptchaError::Missing => "获取验证码图片失败".to_owned(),
            CaptchaError::NotPng => "解析验证码图片失败".to_owned(),
            CaptchaError::Base64(m) => m.as_str().to_owned(),
            CaptchaError::Picture(m) => m.as_str().to_owned(),
            CaptchaError::NoUuid => "Failed to get captcha".to_owned(),
        }
    }
}

/// `at` is the position of the first `,` of `s`.
pub open spec fn is_first_comma(s: Seq<char>, at: int) -> bool {
    &&& 0 <= at < s.len()
    &&& s[at] == ','
    &&& forall|j: int| 0 <= j < at ==> s[j] != ','
}

/// `s` holds a `,`.
pub open spec fn has_comma(s: Seq<char>) -> bool {
    exists|at: int| is_first_comma(s, at)
}

/// The position of the first `,` of `s`, when it holds one.
pub open spec fn first_comma(s: Seq<char>) -> int {
    choose|at: int| is_first_comma(s, at)
}

/// The media type a captcha picture must have.
pub open spec fn png_media_type() -> Seq<char> {
    "data:image/png;base64"@
}

/// The base64 payload of a data URI: the URI splits at its first `,` into
/// the media type before it and the payload after it. No URI, no `,` or a
/// media type other than `data:image/png;base64` are errors.
pub open spec fn png_payload(uri: Option<Seq<char>>) -> Result<Seq<char>, CaptchaError> {
    match uri {
        None => Err(CaptchaError::Missing),
        Some(s) => if has_comma(s) {
            let at = first_comma(s);
            if s.take(at) == png_media_type() {
                Ok(s.skip(at + 1))
            } else {
                Err(CaptchaError::NotPng)
            }
        } else {
            Err(CaptchaError::Missing)
        },
    }
}

pub open spec fn opt_view(o: Option<&str>) -> Option<Seq<char>> {
    match o {
        Some(s) => Some(s@),
        None => None,
    }
}

proof fn lemma_first_comma_unique(s: Seq<char>, a: int, b: int)
    requires
        is_first_comma(s, a),
        is_first_comma(s, b),
    ensures
        a == b,
{
    if a < b {
        assert(s[a] != ',');
    } else if b < a {
        assert(s[b] != ',');
    }
}

/// Splits a captcha data URI and keeps its base64 payload.
pub fn png_payload_of(uri: Option<&str>) -> (res: Result<String, CaptchaError>)
    ensures
        match png_payload(opt_view(uri)) {
            Ok(p) => res matches Ok(t) && t@ == p,
            Err(e) => res == Err::<String, CaptchaError>(e),
        },
{
    let s = match uri {
        Some(s) => s,
        None => return Err(CaptchaError::Missing),
    };
    let cs = chars_of(s);
    let n = cs.len();
    let mut at: usize = 0;
    while at < n && cs[at] != ','
        invariant
            n == cs@.len(),
            cs@ == s@,
            at <= n,
            forall|j: int| 0 <= j < at ==> cs@[j] != ',',
        decreases n - at,
    {
        at = at + 1;
    }
    if at == n {
        assert forall|k: int| !is_first_comma(s@, k) by {
            if 0 <= k < n {
                assert(cs@[k] != ',');
            }
        }
        assert(!has_comma(s@));
        return Err(CaptchaError::Missing);
    }
    proof {
        assert(is_first_comma(s@, at as int));
        assert(has_comma(s@));
        lemma_first_comma_unique(s@, at as int, first_comma(s@));
    }
    let media = chars_of("data:image/png;base64");
    let mut same = media.len() == at;
    if same {
        let mut i: usize = 0;
        while i < at
            invariant
                n == cs@.len(),
                cs@ == s@,
                at < n,
                media.len() == at,
                i <= at,
                same == forall|j: int| 0 <= j < i ==> cs@[j] == media@[j],
            decreases at - i,
        {
            if cs[i] != media[i] {
                same = false;
            }
            i = i + 1;
        }
        proof {
            if same {
                assert(s@.take(at as int) =~= media@);
            } else {
                let j = choose|j: int| 0 <= j < at && cs@[j] != media@[j];
                assert(s@.take(at as int)[j] != media@[j]);
            }
        }
    } else {
        assert(s@.take(at as int).len() != media@.len());
    }
    proof {
        assert(media@ == png_media_type());
        assert(same == (s@.take(at as int) == png_media_type()));
    }
    if !same {
        return Err(CaptchaError::NotPng);
    }
    let payload = s.substring_char(at + 1, n).to_owned();
    proof {
        assert(payload@ =~= s@.skip(at + 1));
    }
    Ok(payload)
}

/// The captcha picture of a reply's data URI: the base64 PNG payload,
/// decoded and read as a picture.
pub fn save_image_from_data_uri(uri: Option<&str>) -> (res: Result<image::DynamicImage, CaptchaError>)
    ensures
        match png_payload(opt_view(uri)) {
            Err(e) => res == Err::<image::DynamicImage, CaptchaError>(e),
            Ok(p) => if is_standard_base64(p) {
                let bytes = base64_bytes(p);
                if picture_decodes(bytes) {
                    res matches Ok(img) && img == decoded_picture(bytes)
                } else {
                    res matches Err(CaptchaError::Picture(m)) && m@ == picture_error_text(bytes)
                }
            } else {
                res matches Err(CaptchaError::Base64(m)) && m@ == base64_error_text(p)
            },
        },
{
    let payload = png_payload_of(uri)?;
    let bytes = match base64_decode(payload.as_str()) {
        Ok(b) => b,
        Err(m) => return Err(CaptchaError::Base64(m)),
    };
    proof {
        base64_reads_back(bytes@);
        assert(is_standard_base64(payload@));
    }
    match load_picture(bytes.as_slice()) {
        Ok(p) => Ok(p),
        Err(m) => Err(CaptchaError::Picture(m)),
    }
}

/// The PNG bytes the recognizer reads a captcha from: the picture
/// encoded as a PNG file, which begins with the PNG signature. A failed
/// encoding is a `Picture` error with the encoder's message.
pub fn ocr_input(picture: &image::DynamicImage) -> (res: Result<Vec<u8>, CaptchaError>)
    ensures
        match res {
            Ok(b) => png_encoding(*picture) == Some(b@) && starts_as_png(b@),
            Err(e) => png_encoding(*picture) is None && (e matches CaptchaError::Picture(m) && m@ == png_error_text(*picture)),
        },
{
    match encode_png(picture) {
        Ok(b) => Ok(b),
        Err(m) => Err(CaptchaError::Picture(m)),
    }
}

/// The captcha's id with the text read from it; no id is an error.
pub fn pair_captcha(uuid: Option<&str>, captcha: String) -> (res: Result<(String, String), CaptchaError>)
    ensures
        match uuid {
            Some(u) => res matches Ok(p) && p.0@ == u@ && p.1@ == captcha@,
            None => res matches Err(CaptchaError::NoUuid),
        },
{
    match uuid {
        Some(u) => Ok((u.to_owned(), captcha)),
        None => Err(CaptchaError::NoUuid),
    }
}

/// The address captchas are asked from.
pub open spec fn captcha_url_spec(base: Seq<char>) -> Seq<char> {
    base + "auth/captcha"@
}

/// The address captchas are asked from: `{base}auth/captcha`.
pub fn captcha_url(base: &str) -> (s: String)
    ensures
        s@ == captcha_url_spec(base@),
{
    joined(base, "auth/captcha")
}

} // verus!
