use vstd::prelude::*;
use vstd::string::StringExecFns;
use vstd::utf8::{encode_utf8, encode_utf8_decode_utf8, is_ascii_chars, is_ascii_chars_encode_utf8};
use base64::Engine;

use crate::catalog::FieldValue;
use crate::codec::{base64_bytes, base64_is_injective, base64_length, base64_reads_back, standard_base64};
use crate::enroll::pairs_view;
use crate::params::{Config, ValiPara};
use crate::text::{chars_of, joined, same_text};

verus! {

// ---------------------------------------------------------------------
// Password encryption
// ---------------------------------------------------------------------

/// What `soft_aes` encrypts `plaintext` to under `key` in ECB mode with the
/// given padding name.
pub uninterp spec fn aes_ecb_ciphertext(plaintext: Seq<u8>, key: Seq<u8>, padding: Option<Seq<char>>) -> Seq<u8>;

pub open spec fn padding_view(padding: Option<&str>) -> Option<Seq<char>> {
    match padding {
        Some(p) => Some(p@),
        None => None,
    }
}

pub open spec fn valid_aes_key_len(n: int) -> bool {
    n == 16 || n == 24 || n == 32
}

/// The plaintext sequences that agree with `p` on its first `16 * k` bytes
/// and are at least that long.
pub open spec fn shares_leading_blocks(p: Seq<u8>, q: Seq<u8>, k: int) -> bool {
    0 <= k && 16 * k <= p.len() && 16 * k <= q.len() && q.take(16 * k) == p.take(16 * k)
}

/// Calls `soft_aes::aes::aes_enc_ecb` with `PKCS7` padding (other paddings
/// are not admitted: with an unknown one the crate pads nothing and panics
/// on a short last block), keeping its result and dropping its error.
/// Claims, for this padding: the call succeeds exactly for keys of 16, 24
/// or 32 bytes; the ciphertext is the named `aes_ecb_ciphertext` of the
/// arguments and is the plaintext's length padded to the next whole
/// 16-byte block; as every padded 16-byte block is enciphered on its own by
/// the AES block permutation, no other plaintext has the same ciphertext
/// under the key, and a plaintext that shares the first `16 * k` bytes has
/// a ciphertext that shares its first `16 * k` bytes. The ciphertext's bytes
/// themselves are not stated.
#[verifier::external_body]
fn aes_ecb_encrypt(plaintext: &[u8], key: &[u8], padding: Option<&str>) -> (res: Option<Vec<u8>>)
    requires
        padding_view(padding) == Some("PKCS7"@),
    ensures
        res is Some <==> valid_aes_key_len(key@.len() as int),
        res matches Some(c) ==> c@ == aes_ecb_ciphertext(plaintext@, key@, padding_view(padding)),
        res matches Some(c) ==> c@.len() == 16 * (plaintext@.len() / 16 + 1),
        res matches Some(c) ==> forall|q: Seq<u8>|
            #[trigger] aes_ecb_ciphertext(q, key@, padding_view(padding)) == c@ ==> q == plaintext@,
        res matches Some(c) ==> forall|q: Seq<u8>, k: int|
            shares_leading_blocks(plaintext@, q, k) ==> #[trigger] aes_ecb_ciphertext(q, key@, padding_view(padding)).take(16 * k)
                == c@.take(16 * k),
{
    soft_aes::aes::aes_enc_ecb(plaintext, key, padding).ok()
}

/// Calls `Engine::encode` of `base64::engine::general_purpose::STANDARD`.
/// Claims that the result is the standard base64 encoding with padding.
#[verifier::external_body]
fn base64_encode(bytes: &[u8]) -> (s: String)
    ensures
        s@ == standard_base64(bytes@),
{
    base64::engine::general_purpose::STANDARD.encode(bytes)
}

/// The key the login password is encrypted with.
pub open spec fn login_key() -> Seq<u8> {
    encode_utf8("MWMqg2tPcDkxcm11"@)
}

/// The ciphertext of a password: its UTF-8 bytes encrypted with AES-128 in
/// ECB mode with PKCS#7 padding under the fixed key.
pub open spec fn password_ciphertext(password: Seq<char>) -> Seq<u8> {
    aes_ecb_ciphertext(encode_utf8(password), login_key(), Some("PKCS7"@))
}

/// The password as the login form carries it: its ciphertext written in
/// standard base64.
pub open spec fn encrypted_password(password: Seq<char>) -> Seq<char> {
    standard_base64(password_ciphertext(password))
}

/// Encrypts the password for the login form (see `encrypted_password`).
/// The ciphertext fills whole 16-byte blocks with at least one byte of
/// padding, the text decodes back to it, no other password gives the same
/// text, and passwords that share their first `16 * k` bytes share the
/// first `16 * k` bytes of their ciphertexts.
pub fn encrypt(password: &str) -> (s: String)
    ensures
        s@ == encrypted_password(password@),
        password_ciphertext(password@).len() == 16 * (encode_utf8(password@).len() / 16 + 1),
        s@.len() == 4 * ((password_ciphertext(password@).len() + 2) / 3),
        base64_bytes(s@) == password_ciphertext(password@),
        forall|q: Seq<char>| #[trigger] encrypted_password(q) == s@ ==> q == password@,
        forall|q: Seq<char>, k: int|
            shares_leading_blocks(encode_utf8(password@), encode_utf8(q), k)
                ==> #[trigger] password_ciphertext(q).take(16 * k) == password_ciphertext(password@).take(16 * k),
{
    let plaintext = password.as_bytes();
    let key = "MWMqg2tPcDkxcm11".as_bytes();
    proof {
        reveal_strlit("MWMqg2tPcDkxcm11");
        assert(is_ascii_chars("MWMqg2tPcDkxcm11"@));
        is_ascii_chars_encode_utf8("MWMqg2tPcDkxcm11"@);
        assert(key@.len() == 16);
        reveal_strlit("PKCS7");
    }
    let padding: Option<&str> = Some("PKCS7");
    let encrypted = match aes_ecb_encrypt(plaintext, key, padding) {
        Some(c) => c,
        None => Vec::new(),
    };
    let s = base64_encode(encrypted.as_slice());
    proof {
        base64_length(encrypted@);
        base64_reads_back(encrypted@);
        assert forall|q: Seq<char>| #[trigger] encrypted_password(q) == s@ implies q == password@ by {
            base64_is_injective(password_ciphertext(q), encrypted@);
            assert(aes_ecb_ciphertext(encode_utf8(q), key@, padding_view(padding)) == encrypted@);
            encode_utf8_decode_utf8(q);
            encode_utf8_decode_utf8(password@);
        }
        assert forall|q: Seq<char>, k: int|
            shares_leading_blocks(encode_utf8(password@), encode_utf8(q), k)
                implies #[trigger] password_ciphertext(q).take(16 * k) == password_ciphertext(password@).take(16 * k) by {
            assert(aes_ecb_ciphertext(encode_utf8(q), key@, padding_view(padding)).take(16 * k) == encrypted@.take(16 * k));
        }
    }
    s
}

// ---------------------------------------------------------------------
// Login form and reply
// ---------------------------------------------------------------------

/// The fields of the login form.
pub open spec fn login_form_spec(account: Seq<char>, encrypted: Seq<char>, captcha: Seq<char>, uuid: Seq<char>) -> Seq<(Seq<char>, Seq<char>)> {
    seq![
        ("loginname"@, account),
        ("password"@, encrypted),
        ("captcha"@, captcha),
        ("uuid"@, uuid),
    ]
}

/// The login form: the account, the encrypted password, the captcha as read
/// and the captcha's id.
pub fn login_form(account: &str, encrypted: &str, captcha: &str, uuid: &str) -> (form: Vec<(String, String)>)
    ensures
        pairs_view(form@) == login_form_spec(account@, encrypted@, captcha@, uuid@),
{
    let mut form: Vec<(String, String)> = Vec::new();
    form.push(("loginname".to_owned(), account.to_owned()));
    form.push(("password".to_owned(), encrypted.to_owned()));
    form.push(("captcha".to_owned(), captcha.to_owned()));
    form.push(("uuid".to_owned(), uuid.to_owned()));
    proof {
        assert(pairs_view(form@) =~= login_form_spec(account@, encrypted@, captcha@, uuid@));
    }
    form
}

/// The address of the login request.
pub open spec fn login_url_spec(base: Seq<char>) -> Seq<char> {
    base + "auth/login"@
}

/// The address of the login request: `{base}auth/login`.
pub fn login_url(base: &str) -> (s: String)
    ensures
        s@ == login_url_spec(base@),
{
    joined(base, "auth/login")
}

/// `s` with every leading and every trailing `c` removed, as
/// `str::trim_matches(c)` gives it.
pub open spec fn trim_char(s: Seq<char>, c: char) -> Seq<char>
    decreases s.len(),
{
    if s.len() > 0 && s[0] == c {
        trim_char(s.drop_first(), c)
    } else if s.len() > 0 && s.last() == c {
        trim_char(s.drop_last(), c)
    } else {
        s
    }
}

/// The trimmed text is the part of `s` between the runs of `c` at its ends.
proof fn lemma_trim_char_range(s: Seq<char>, c: char, lo: int, hi: int)
    requires
        0 <= lo <= hi <= s.len(),
        forall|k: int| 0 <= k < lo ==> s[k] == c,
        forall|k: int| hi <= k < s.len() ==> s[k] == c,
        lo < hi ==> s[lo] != c && s[hi - 1] != c,
    ensures
        trim_char(s, c) == s.subrange(lo, hi),
    decreases s.len(),
{
    if s.len() == 0 {
        assert(s.subrange(lo, hi) =~= s);
    } else if s[0] == c {
        let t = s.drop_first();
        if lo > 0 {
            lemma_trim_char_range(t, c, lo - 1, hi - 1);
            assert(t.subrange(lo - 1, hi - 1) =~= s.subrange(lo, hi));
        } else {
            assert(lo == hi);
            assert forall|k: int| 0 <= k < t.len() implies t[k] == c by {
                assert(t[k] == s[k + 1]);
            }
            lemma_trim_char_range(t, c, 0, 0);
            assert(t.subrange(0, 0) =~= s.subrange(lo, hi));
        }
    } else if s.last() == c {
        let t = s.drop_last();
        assert(hi < s.len());
        lemma_trim_char_range(t, c, lo, hi);
        assert(t.subrange(lo, hi) =~= s.subrange(lo, hi));
    } else {
        assert(lo == 0);
        assert(hi == s.len());
        assert(s.subrange(lo, hi) =~= s);
    }
}

/// `s` with every leading and every trailing `c` removed.
pub fn trim_matches_char(s: &str, c: char) -> (t: String)
    ensures
        t@ == trim_char(s@, c),
{
    let cs = chars_of(s);
    let n = cs.len();
    let mut lo: usize = 0;
    while lo < n && cs[lo] == c
        invariant
            n == cs@.len(),
            lo <= n,
            forall|k: int| 0 <= k < lo ==> cs@[k] == c,
        decreases n - lo,
    {
        lo = lo + 1;
    }
    let mut hi: usize = n;
    while hi > lo && cs[hi - 1] == c
        invariant
            n == cs@.len(),
            lo <= hi <= n,
            forall|k: int| hi <= k < n ==> cs@[k] == c,
        decreases hi,
    {
        hi = hi - 1;
    }
    proof {
        lemma_trim_char_range(s@, c, lo as int, hi as int);
    }
    s.substring_char(lo, hi).to_owned()
}

/// The batch every enrollment of this client belongs to.
pub open spec fn batch_id() -> Seq<char> {
    "5457852c392e4fb0bc162402c1047701"@
}

/// The answer that says the account was taken over by another login.
pub open spec fn taken_over_answer() -> Seq<char> {
    "管理员变更数据或账号在其他地方登录，请重新登录"@
}

/// Why the login failed.
#[derive(Clone, Copy, Debug, PartialEq, Eq)]
pub enum LoginError {
    /// The account is logged in elsewhere.
    LoggedInElsewhere,
}

impl LoginError {
    /// The message of this error.
    pub fn message(&self) -> (s: String)
        ensures
            s@ == "账号在其他地方登录"@,
    {
        "账号在其他地方登录".to_owned()
    }
}

/// What the login loop does with a reply.
#[derive(Clone, Debug)]
pub enum LoginStep {
    /// Give up with this error.
    Failed(LoginError),
    /// Ask for a new captcha and try again.
    Retry,
    /// Logged in, with these session parameters.
    Done(ValiPara),
}

/// Judges a login reply. `data` is the reply's `data` field and `token` its
/// `data.token` written out as JSON. A takeover answer fails, the string
/// `null` asks for another try, anything else logs in with the token
/// stripped of its quotes and the fixed batch.
pub fn judge_login_reply(data: &FieldValue, token: &str) -> (step: LoginStep)
    ensures
        match data@.1 {
            Some(m) if m == taken_over_answer() => step == LoginStep::Failed(LoginError::LoggedInElsewhere),
            Some(m) if m == "null"@ => step == LoginStep::Retry,
            _ => step matches LoginStep::Done(p) && p.auth@ == trim_char(token@, '"') && p.batchid@ == batch_id(),
        },
{
    match &data.str_value {
        Some(m) => {
            if same_text(m.as_str(), "管理员变更数据或账号在其他地方登录，请重新登录") {
                return LoginStep::Failed(LoginError::LoggedInElsewhere);
            }
            if same_text(m.as_str(), "null") {
                return LoginStep::Retry;
            }
        },
        None => {},
    }
    let auth = trim_matches_char(token, '"');
    let batchid = "5457852c392e4fb0bc162402c1047701".to_owned();
    LoginStep::Done(ValiPara { auth, batchid })
}

// ---------------------------------------------------------------------
// Settings
// ---------------------------------------------------------------------

/// Why the settings could not be had.
#[derive(Clone, Copy, Debug, PartialEq, Eq)]
pub enum ConfigError {
    /// The settings file is missing or does not read as settings.
    Unreadable,
}

impl ConfigError {
    /// The message of this error.
    pub fn message(&self) -> (s: String)
        ensures
            s@ == "配置文件读取失败，请检查是否存在配置文件，若不存在，将会自动创建"@,
    {
        "配置文件读取失败，请检查是否存在配置文件，若不存在，将会自动创建".to_owned()
    }
}

/// The text the course numbers are read from: the settings file beside the
/// program, else the one in its parent directory, else a text that does
/// not read as settings.
pub fn class_config_text(here: Option<String>, parent: Option<String>) -> (s: String)
    ensures
        s@ == match (here, parent) {
            (Some(t), _) => t@,
            (None, Some(t)) => t@,
            (None, None) => "失败"@,
        },
{
    match here {
        Some(t) => t,
        None => match parent {
            Some(t) => t,
            None => "失败".to_owned(),
        },
    }
}

/// Where the account settings come from.
#[derive(Clone, Debug)]
pub enum ConfigSource {
    /// This text.
    Text(String),
    /// No file was found: write `default_config` beside the program and
    /// read the empty text, which is not settings.
    WriteDefault,
}

/// The account settings' source: the settings file beside the program,
/// else the one in its parent directory, else a fresh default file.
pub fn account_config_source(here: Option<String>, parent: Option<String>) -> (src: ConfigSource)
    ensures
        match (here, parent) {
            (Some(t), _) => src matches ConfigSource::Text(s) && s@ == t@,
            (None, Some(t)) => src matches ConfigSource::Text(s) && s@ == t@,
            (None, None) => src is WriteDefault,
        },
{
    match here {
        Some(t) => ConfigSource::Text(t),
        None => match parent {
            Some(t) => ConfigSource::Text(t),
            None => ConfigSource::WriteDefault,
        },
    }
}

/// The settings file written when none is found.
pub open spec fn default_config_spec() -> Seq<char> {
    "account: 114514\npassword: 1919810\nclass: [1, 1, 4, 5, 1, 4]"@
}

/// The settings file written when none is found.
pub fn default_config() -> (s: &'static str)
    ensures
        s@ == default_config_spec(),
{
    "account: 114514\npassword: 1919810\nclass: [1, 1, 4, 5, 1, 4]"
}

/// The course numbers of the settings, when they were read.
pub fn classes_of(parsed: Option<Config>) -> (res: Result<Vec<usize>, ConfigError>)
    ensures
        match parsed {
            Some(c) => res matches Ok(v) && v@ == c.class@,
            None => res == Err::<Vec<usize>, ConfigError>(ConfigError::Unreadable),
        },
{
    match parsed {
        Some(c) => Ok(c.class),
        None => Err(ConfigError::Unreadable),
    }
}

/// The account and password of the settings, when they were read.
pub fn account_of(parsed: Option<Config>) -> (res: Result<(String, String), ConfigError>)
    ensures
        match parsed {
            Some(c) => res matches Ok(p) && p.0@ == c.account@ && p.1@ == c.password@,
            None => res == Err::<(String, String), ConfigError>(ConfigError::Unreadable),
        },
{
    match parsed {
        Some(c) => Ok((c.account, c.password)),
        None => Err(ConfigError::Unreadable),
    }
}

} // verus!
