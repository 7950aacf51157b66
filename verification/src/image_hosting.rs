//! Image hosting and reverse image search: the upload configuration and its validation,
//! the upload endpoint, and the search address built from a hosted image.
use base64::Engine;
use vstd::prelude::*;

use crate::constants::{
    IMAGE_HOSTING_VALIDATION_EXPIRATION_EMPTY, IMAGE_HOSTING_VALIDATION_EXPIRATION_INVALID,
    IMAGE_HOSTING_VALIDATION_KEY_EMPTY, IMAGE_HOSTING_VALIDATION_KEY_NAME_EMPTY,
    IMAGE_HOSTING_VALIDATION_URL_EMPTY, IMAGE_HOSTING_VALIDATION_URL_INVALID,
};
use crate::numbers::{parse_u64, parsed_u64};
use crate::text::{
    chars_of, concat_chars, replace_all, replace_all_chars, string_from_chars, trim, trim_chars,
};
use crate::user_settings::{ImageHostingAuthMode, ImageUploadHttpMethod, UserSettings};

verus! {

/// Whether `text` parses as an absolute URL (`reqwest::Url::parse` succeeds).
pub uninterp spec fn url_parses(text: Seq<char>) -> bool;

/// The message of the error that `reqwest::Url::parse` reports for `text`.
pub uninterp spec fn url_parse_error(text: Seq<char>) -> Seq<char>;

/// The text (`Url::as_str`) of the address that `reqwest::Url::parse` makes of `text`.
pub uninterp spec fn url_serialization(text: Seq<char>) -> Seq<char>;

/// The text (`Url::as_str`) of the address that `reqwest::Url::parse` makes of `text`, after
/// `query_pairs_mut().append_pair(name, value)` has added `name=value` to its query.
pub uninterp spec fn url_serialization_with_query_pair(
    text: Seq<char>,
    name: Seq<char>,
    value: Seq<char>,
) -> Seq<char>;

/// Parses an absolute URL with `reqwest::Url::parse` and gives the text of the address
/// (`Url::as_str`); on failure, the text of its error. Claimed: it succeeds exactly when
/// `url_parses` holds of the text, the address text is `url_serialization` of it, and the error
/// text is `url_parse_error` of it.
#[verifier::external_body]
fn parse_url(text: &str) -> (r: Result<String, String>)
    ensures
        match r {
            Ok(address) => url_parses(text@) && address@ == url_serialization(text@),
            Err(e) => !url_parses(text@) && e@ == url_parse_error(text@),
        },
{
    match reqwest::Url::parse(text) {
        Ok(url) => Ok(url.as_str().to_string()),
        Err(error) => Err(error.to_string()),
    }
}

/// Parses `text` with `reqwest::Url::parse`, adds `name=value` to its query with
/// `Url::query_pairs_mut().append_pair` (which form-encodes both), and gives the text of the
/// address; on a parse failure, the text of its error. Claimed: it succeeds exactly when
/// `url_parses` holds of the text, and the address text is
/// `url_serialization_with_query_pair` of the three arguments.
#[verifier::external_body]
fn url_with_query_pair(text: &str, name: &str, value: &str) -> (r: Result<String, String>)
    ensures
        match r {
            Ok(address) => url_parses(text@) && address@ == url_serialization_with_query_pair(
                text@,
                name@,
                value@,
            ),
            Err(e) => !url_parses(text@) && e@ == url_parse_error(text@),
        },
{
    match reqwest::Url::parse(text) {
        Ok(mut url) => {
            url.query_pairs_mut().append_pair(name, value);
            Ok(url.as_str().to_string())
        },
        Err(error) => Err(error.to_string()),
    }
}

/// The bytes that a URL may carry as they are: ASCII letters and digits and `-`, `.`, `_`, `~`.
pub open spec fn is_url_unreserved(b: u8) -> bool {
    ||| (0x30 <= b && b <= 0x39)
    ||| (0x41 <= b && b <= 0x5A)
    ||| (0x61 <= b && b <= 0x7A)
    ||| b == 0x2D
    ||| b == 0x2E
    ||| b == 0x5F
    ||| b == 0x7E
}

/// The upper-case hexadecimal digit of a value below 16.
pub open spec fn hex_digit(d: u8) -> char {
    if d < 10 {
        (0x30 + d) as char
    } else {
        (0x41 - 10 + d) as char
    }
}

/// One byte percent-encoded: unreserved bytes stay, others become `%` and two hex digits.
pub open spec fn percent_encode_byte(b: u8) -> Seq<char> {
    if is_url_unreserved(b) {
        seq![b as char]
    } else {
        seq!['%', hex_digit(b / 16), hex_digit(b % 16)]
    }
}

/// A byte string percent-encoded byte by byte.
pub open spec fn percent_encode_bytes(bytes: Seq<u8>) -> Seq<char>
    decreases bytes.len(),
{
    if bytes.len() == 0 {
        Seq::empty()
    } else {
        percent_encode_byte(bytes[0]) + percent_encode_bytes(bytes.drop_first())
    }
}

/// A text percent-encoded over its UTF-8 bytes.
pub open spec fn url_encoded(text: Seq<char>) -> Seq<char> {
    percent_encode_bytes(vstd::utf8::encode_utf8(text))
}

/// Percent-encodes `text` with `urlencoding::encode`. Claimed: every UTF-8 byte except ASCII
/// letters, digits and `-`, `.`, `_`, `~` becomes `%` and two upper-case hexadecimal digits.
#[verifier::external_body]
fn url_encode(text: &str) -> (encoded: String)
    ensures
        encoded@ == url_encoded(text@),
{
    urlencoding::encode(text).into_owned()
}

/// The search address for a hosted image: every `{}` of the template replaced by the encoded
/// image address, then, when a query with visible characters is given, `&q=` and the encoded
/// trimmed query.
pub open spec fn search_url(template: Seq<char>, image_url: Seq<char>, query: Option<Seq<char>>) -> Seq<
    char,
> {
    let base = replace_all(template, "{}"@, url_encoded(image_url));
    match query {
        Some(q) => if trim(q).len() > 0 {
            base + "&q="@ + url_encoded(trim(q))
        } else {
            base
        },
        None => base,
    }
}

/// Builds the reverse-image-search address for a hosted image and an optional query.
pub fn construct_search_url(template: &str, image_url: &str, query: Option<&str>) -> (url: String)
    ensures
        url@ == search_url(
            template@,
            image_url@,
            match query {
                Some(q) => Some(q@),
                None => None,
            },
        ),
{
    let encoded_url = url_encode(image_url);
    let placeholder = chars_of("{}");
    let mut url = replace_all_chars(&chars_of(template), &placeholder, &chars_of(encoded_url.as_str()));
    match query {
        Some(q) => {
            let trimmed = trim_chars(&chars_of(q));
            if trimmed.len() > 0 {
                let trimmed_text = string_from_chars(&trimmed);
                let encoded_query = url_encode(trimmed_text.as_str());
                url = concat_chars(&url, &chars_of("&q="));
                url = concat_chars(&url, &chars_of(encoded_query.as_str()));
            }
        },
        None => {},
    }
    string_from_chars(&url)
}

/// Why image-hosting settings were refused.
#[derive(Debug, Clone, Copy, PartialEq, Eq, Structural)]
pub enum ImageHostingSettingsError {
    UrlEmpty,
    UrlInvalid,
    KeyNameEmpty,
    KeyEmpty,
    ExpirationEmpty,
    ExpirationInvalid,
}

/// The message shown for each refusal.
pub open spec fn settings_error_text(e: ImageHostingSettingsError) -> &'static str {
    match e {
        ImageHostingSettingsError::UrlEmpty => IMAGE_HOSTING_VALIDATION_URL_EMPTY,
        ImageHostingSettingsError::UrlInvalid => IMAGE_HOSTING_VALIDATION_URL_INVALID,
        ImageHostingSettingsError::KeyNameEmpty => IMAGE_HOSTING_VALIDATION_KEY_NAME_EMPTY,
        ImageHostingSettingsError::KeyEmpty => IMAGE_HOSTING_VALIDATION_KEY_EMPTY,
        ImageHostingSettingsError::ExpirationEmpty => IMAGE_HOSTING_VALIDATION_EXPIRATION_EMPTY,
        ImageHostingSettingsError::ExpirationInvalid => IMAGE_HOSTING_VALIDATION_EXPIRATION_INVALID,
    }
}

impl ImageHostingSettingsError {
    /// The message shown for the refusal.
    pub fn message(&self) -> (m: &'static str)
        ensures
            m@ == settings_error_text(*self)@,
    {
        match self {
            ImageHostingSettingsError::UrlEmpty => IMAGE_HOSTING_VALIDATION_URL_EMPTY,
            ImageHostingSettingsError::UrlInvalid => IMAGE_HOSTING_VALIDATION_URL_INVALID,
            ImageHostingSettingsError::KeyNameEmpty => IMAGE_HOSTING_VALIDATION_KEY_NAME_EMPTY,
            ImageHostingSettingsError::KeyEmpty => IMAGE_HOSTING_VALIDATION_KEY_EMPTY,
            ImageHostingSettingsError::ExpirationEmpty => IMAGE_HOSTING_VALIDATION_EXPIRATION_EMPTY,
            ImageHostingSettingsError::ExpirationInvalid => IMAGE_HOSTING_VALIDATION_EXPIRATION_INVALID,
        }
    }
}

/// The first rule that the image-hosting part of `s` breaks, if any: a blank or malformed
/// provider address, a blank key name or key, a blank expiration, or an expiration that is
/// not a positive whole number.
pub open spec fn image_hosting_settings_error(s: UserSettings) -> Option<ImageHostingSettingsError> {
    let url = trim(s.image_hosting_provider_url@);
    let expiration = trim(s.image_hosting_expiration_seconds@);
    if url.len() == 0 {
        Some(ImageHostingSettingsError::UrlEmpty)
    } else if !url_parses(url) {
        Some(ImageHostingSettingsError::UrlInvalid)
    } else if trim(s.image_hosting_public_key_name@).len() == 0 {
        Some(ImageHostingSettingsError::KeyNameEmpty)
    } else if trim(s.image_hosting_public_key_value@).len() == 0 {
        Some(ImageHostingSettingsError::KeyEmpty)
    } else if expiration.len() == 0 {
        Some(ImageHostingSettingsError::ExpirationEmpty)
    } else if parsed_u64(expiration) is None || parsed_u64(expiration) == Some(0u64) {
        Some(ImageHostingSettingsError::ExpirationInvalid)
    } else {
        None
    }
}

/// Checks the image-hosting settings before they are saved.
pub fn validate_image_hosting_settings(settings: &UserSettings) -> (r: Result<(), ImageHostingSettingsError>)
    ensures
        match image_hosting_settings_error(*settings) {
            Some(e) => r == Err::<(), ImageHostingSettingsError>(e),
            None => r is Ok,
        },
{
    let url = trim_chars(&chars_of(settings.image_hosting_provider_url.as_str()));
    if url.len() == 0 {
        return Err(ImageHostingSettingsError::UrlEmpty);
    }
    let url_text = string_from_chars(&url);
    if parse_url(url_text.as_str()).is_err() {
        return Err(ImageHostingSettingsError::UrlInvalid);
    }
    if trim_chars(&chars_of(settings.image_hosting_public_key_name.as_str())).len() == 0 {
        return Err(ImageHostingSettingsError::KeyNameEmpty);
    }
    if trim_chars(&chars_of(settings.image_hosting_public_key_value.as_str())).len() == 0 {
        return Err(ImageHostingSettingsError::KeyEmpty);
    }
    let expiration = trim_chars(&chars_of(settings.image_hosting_expiration_seconds.as_str()));
    if expiration.len() == 0 {
        return Err(ImageHostingSettingsError::ExpirationEmpty);
    }
    match parse_u64(&expiration) {
        Some(seconds) => {
            if seconds == 0 {
                return Err(ImageHostingSettingsError::ExpirationInvalid);
            }
        },
        None => {
            return Err(ImageHostingSettingsError::ExpirationInvalid);
        },
    }
    Ok(())
}

/// How images are uploaded to the hosting provider.
#[derive(Debug, Clone)]
pub struct ImgbbImageHostingConfig {
    pub provider_url: String,
    pub auth_mode: ImageHostingAuthMode,
    pub public_key_name: String,
    pub public_key_value: String,
    pub expiration_seconds: String,
    pub http_method: ImageUploadHttpMethod,
    pub image_field_name: String,
}

impl ImgbbImageHostingConfig {
    /// The upload configuration held by the user's settings.
    pub fn from_user_settings(settings: &UserSettings) -> (config: Self)
        ensures
            config.provider_url == settings.image_hosting_provider_url,
            config.auth_mode == settings.image_hosting_auth_mode,
            config.public_key_name == settings.image_hosting_public_key_name,
            config.public_key_value == settings.image_hosting_public_key_value,
            config.expiration_seconds == settings.image_hosting_expiration_seconds,
            config.http_method == settings.image_hosting_http_method,
            config.image_field_name == settings.image_hosting_image_field_name,
    {
        Self {
            provider_url: settings.image_hosting_provider_url.clone(),
            auth_mode: settings.image_hosting_auth_mode,
            public_key_name: settings.image_hosting_public_key_name.clone(),
            public_key_value: settings.image_hosting_public_key_value.clone(),
            expiration_seconds: settings.image_hosting_expiration_seconds.clone(),
            http_method: settings.image_hosting_http_method,
            image_field_name: settings.image_hosting_image_field_name.clone(),
        }
    }
}

/// Why an upload could not be prepared or its reply not used.
#[derive(Debug, Clone, PartialEq, Eq)]
pub enum ImgbbError {
    ProviderUrlEmpty,
    /// The provider address does not parse; the parser's message.
    ProviderUrlInvalid(String),
    PublicKeyNameEmpty,
    PublicKeyEmpty,
    /// The key name is not a valid header name; the checker's message.
    InvalidHeaderName(String),
    /// The key is not a valid header value; the checker's message.
    InvalidHeaderValue(String),
    /// The host refused the upload; the whole message.
    UploadRejected(String),
    /// The reply is not JSON; the parser's message.
    ResponseUnreadable(String),
    ImageUrlMissing,
}

/// The message of each upload error.
pub open spec fn imgbb_error_text(e: ImgbbError) -> Seq<char> {
    match e {
        ImgbbError::ProviderUrlEmpty => "Image hosting provider URL is empty"@,
        ImgbbError::ProviderUrlInvalid(m) => m@,
        ImgbbError::PublicKeyNameEmpty => "Image hosting public key name is empty"@,
        ImgbbError::PublicKeyEmpty => "Image hosting public key is empty"@,
        ImgbbError::InvalidHeaderName(m) => m@,
        ImgbbError::InvalidHeaderValue(m) => m@,
        ImgbbError::UploadRejected(m) => m@,
        ImgbbError::ResponseUnreadable(m) => m@,
        ImgbbError::ImageUrlMissing => "Failed to extract image URL from imgbb response"@,
    }
}

impl ImgbbError {
    /// The message of the error.
    pub fn message(&self) -> (m: String)
        ensures
            m@ == imgbb_error_text(*self),
    {
        match self {
            ImgbbError::ProviderUrlEmpty => String::from_str("Image hosting provider URL is empty"),
            ImgbbError::ProviderUrlInvalid(m) => m.clone(),
            ImgbbError::PublicKeyNameEmpty => String::from_str("Image hosting public key name is empty"),
            ImgbbError::PublicKeyEmpty => String::from_str("Image hosting public key is empty"),
            ImgbbError::InvalidHeaderName(m) => m.clone(),
            ImgbbError::InvalidHeaderValue(m) => m.clone(),
            ImgbbError::UploadRejected(m) => m.clone(),
            ImgbbError::ResponseUnreadable(m) => m.clone(),
            ImgbbError::ImageUrlMissing => String::from_str(
                "Failed to extract image URL from imgbb response",
            ),
        }
    }
}

/// The first problem with the public-key fields of `c`, if any.
pub open spec fn public_key_fields_error(c: ImgbbImageHostingConfig) -> Option<ImgbbError> {
    if trim(c.public_key_name@).len() == 0 {
        Some(ImgbbError::PublicKeyNameEmpty)
    } else if trim(c.public_key_value@).len() == 0 {
        Some(ImgbbError::PublicKeyEmpty)
    } else {
        None
    }
}

/// `r` is what building the upload address for `c` gives: a blank or unparsable provider
/// address (reported with the parser's message), or blank key fields when the key goes in the
/// query, are refused; otherwise the text of the provider address, with `name=value` of the
/// public key added to its query when the key goes in the query.
pub open spec fn upload_url_outcome(c: ImgbbImageHostingConfig, r: Result<String, ImgbbError>) -> bool {
    if trim(c.provider_url@).len() == 0 {
        r == Err::<String, ImgbbError>(ImgbbError::ProviderUrlEmpty)
    } else if !url_parses(c.provider_url@) {
        r matches Err(ImgbbError::ProviderUrlInvalid(m)) && m@ == url_parse_error(c.provider_url@)
    } else if c.auth_mode == ImageHostingAuthMode::Query {
        match public_key_fields_error(c) {
            Some(e) => r == Err::<String, ImgbbError>(e),
            None => r matches Ok(address) && address@ == url_serialization_with_query_pair(
                c.provider_url@,
                c.public_key_name@,
                c.public_key_value@,
            ),
        }
    } else {
        r matches Ok(address) && address@ == url_serialization(c.provider_url@)
    }
}

/// The ASCII characters allowed in an HTTP header name (the token characters).
pub open spec fn is_header_name_char(c: char) -> bool {
    let n = c as u32;
    ||| (48 <= n && n <= 57)
    ||| (65 <= n && n <= 90)
    ||| (97 <= n && n <= 122)
    ||| c == '!' || c == '#' || c == '$' || c == '%' || c == '&' || c == '\'' || c == '*'
    ||| c == '+' || c == '-' || c == '.' || c == '^' || c == '_' || c == '`' || c == '|' || c == '~'
}

/// A valid HTTP header name: one to 65535 token characters.
pub open spec fn is_http_header_name(name: Seq<char>) -> bool {
    &&& 1 <= name.len() <= 65535
    &&& forall|i: int| 0 <= i < name.len() ==> is_header_name_char(#[trigger] name[i])
}

/// The characters allowed in an HTTP header value: tab, and every character from the space on
/// except DEL.
pub open spec fn is_header_value_char(c: char) -> bool {
    c == '\t' || (c as u32 >= 32 && c as u32 != 127)
}

/// A valid HTTP header value.
pub open spec fn is_http_header_value(value: Seq<char>) -> bool {
    forall|i: int| 0 <= i < value.len() ==> is_header_value_char(#[trigger] value[i])
}

/// Checks a header name with `reqwest::header::HeaderName::from_bytes` on its UTF-8 bytes;
/// on failure, the text of its error. Claimed: it succeeds exactly on one to 65535 token
/// characters (the table `HEADER_CHARS` of `http`), and its error text is "invalid HTTP header
/// name".
#[verifier::external_body]
fn check_header_name(name: &str) -> (r: Result<(), String>)
    ensures
        r is Ok <==> is_http_header_name(name@),
        r matches Err(e) ==> e@ == "invalid HTTP header name"@,
{
    match reqwest::header::HeaderName::from_bytes(name.as_bytes()) {
        Ok(_) => Ok(()),
        Err(error) => Err(error.to_string()),
    }
}

/// Checks a header value with `reqwest::header::HeaderValue::from_str`; on failure, the text of
/// its error. Claimed: it succeeds exactly when every UTF-8 byte is a tab or at least 32 and not
/// 127 (so every character is a tab, or from the space on and not DEL), and its error text is
/// "failed to parse header value".
#[verifier::external_body]
fn check_header_value(value: &str) -> (r: Result<(), String>)
    ensures
        r is Ok <==> is_http_header_value(value@),
        r matches Err(e) ==> e@ == "failed to parse header value"@,
{
    match reqwest::header::HeaderValue::from_str(value) {
        Ok(_) => Ok(()),
        Err(error) => Err(error.to_string()),
    }
}

/// What the header that carries the public key gives for `c`: nothing when the key goes in the
/// query; otherwise the first problem with the key fields, with the key name as a header name,
/// or with the key as a header value, else the name and the key.
pub open spec fn upload_header_outcome(
    c: ImgbbImageHostingConfig,
    r: Result<Option<(String, String)>, ImgbbError>,
) -> bool {
    if c.auth_mode == ImageHostingAuthMode::Query {
        r == Ok::<Option<(String, String)>, ImgbbError>(None)
    } else {
        match public_key_fields_error(c) {
            Some(e) => r == Err::<Option<(String, String)>, ImgbbError>(e),
            None => if !is_http_header_name(c.public_key_name@) {
                r matches Err(ImgbbError::InvalidHeaderName(m)) && m@ == "invalid HTTP header name"@
            } else if !is_http_header_value(c.public_key_value@) {
                r matches Err(ImgbbError::InvalidHeaderValue(m)) && m@
                    == "failed to parse header value"@
            } else {
                r == Ok::<Option<(String, String)>, ImgbbError>(
                    Some((c.public_key_name, c.public_key_value)),
                )
            },
        }
    }
}

/// The base64 digit (standard alphabet) of a value below 64.
pub open spec fn base64_digit(v: int) -> char {
    if v < 26 {
        (65 + v) as char
    } else if v < 52 {
        (97 + v - 26) as char
    } else if v < 62 {
        (48 + v - 52) as char
    } else if v == 62 {
        '+'
    } else {
        '/'
    }
}

/// Standard base64 with padding: every three bytes become four digits; a last group of one or
/// two bytes becomes two or three digits and `=` padding.
pub open spec fn base64_standard(bytes: Seq<u8>) -> Seq<char>
    decreases bytes.len(),
{
    let b0 = bytes[0] as int;
    let b1 = bytes[1] as int;
    let b2 = bytes[2] as int;
    if bytes.len() == 0 {
        Seq::empty()
    } else if bytes.len() == 1 {
        seq![base64_digit(b0 / 4), base64_digit((b0 % 4) * 16), '=', '=']
    } else if bytes.len() == 2 {
        seq![
            base64_digit(b0 / 4),
            base64_digit((b0 % 4) * 16 + b1 / 16),
            base64_digit((b1 % 16) * 4),
            '=',
        ]
    } else {
        seq![
            base64_digit(b0 / 4),
            base64_digit((b0 % 4) * 16 + b1 / 16),
            base64_digit((b1 % 16) * 4 + b2 / 64),
            base64_digit(b2 % 64),
        ] + base64_standard(bytes.subrange(3, bytes.len() as int))
    }
}

/// Encodes bytes with `base64::engine::general_purpose::STANDARD.encode`. Claimed: the result is
/// the standard, padded base64 text of the bytes.
#[verifier::external_body]
fn base64_encode(bytes: &Vec<u8>) -> (text: String)
    ensures
        text@ == base64_standard(bytes@),
{
    base64::engine::general_purpose::STANDARD.encode(bytes)
}

/// The image as the upload form carries it: its bytes in standard base64.
pub fn upload_image_text(image: &Vec<u8>) -> (t: String)
    ensures
        t@ == base64_standard(image@),
{
    base64_encode(image)
}

/// Whether `text` parses as JSON (`serde_json::from_str::<serde_json::Value>` succeeds).
pub uninterp spec fn json_parses(text: Seq<char>) -> bool;

/// The message of the error that `serde_json::from_str::<serde_json::Value>` reports for `text`.
pub uninterp spec fn json_parse_error(text: Seq<char>) -> Seq<char>;

/// The string at `value[outer][inner]` of the JSON value parsed from `text`, if that is a string.
pub uninterp spec fn json_string_at(text: Seq<char>, outer: Seq<char>, inner: Seq<char>) -> Option<
    Seq<char>,
>;

/// Parses `text` with `serde_json::from_str::<serde_json::Value>` and reads the string at
/// `value[outer][inner]` (`Value` indexing gives `Null` for a missing key or a non-object, and
/// `as_str` gives the text of a string only); on a parse failure, the text of its error.
/// Claimed: it succeeds exactly when `json_parses` holds of the text, what it reads is
/// `json_string_at` of the three arguments, and its error text is `json_parse_error` of the text.
#[verifier::external_body]
fn json_string_field(text: &str, outer: &str, inner: &str) -> (r: Result<Option<String>, String>)
    ensures
        match r {
            Ok(found) => json_parses(text@) && match found {
                Some(s) => json_string_at(text@, outer@, inner@) == Some(s@),
                None => json_string_at(text@, outer@, inner@) is None,
            },
            Err(e) => !json_parses(text@) && e@ == json_parse_error(text@),
        },
{
    match serde_json::from_str::<serde_json::Value>(text) {
        Ok(value) => Ok(value[outer][inner].as_str().map(str::to_string)),
        Err(error) => Err(error.to_string()),
    }
}

/// The message prefix of a refused upload.
pub const IMGBB_UPLOAD_FAILED_PREFIX: &'static str = "Image upload failed: ";

/// Whether an HTTP status code reports success (2xx).
pub open spec fn is_success_status(code: u16) -> bool {
    200 <= code <= 299
}

/// What the host's reply text gives: the string at `data.url`, the missing-address error when
/// there is none, or the parser's message when the reply is not JSON.
pub open spec fn upload_response_outcome(response: Seq<char>, r: Result<String, ImgbbError>) -> bool {
    if !json_parses(response) {
        r matches Err(ImgbbError::ResponseUnreadable(m)) && m@ == json_parse_error(response)
    } else {
        match json_string_at(response, "data"@, "url"@) {
            Some(u) => r matches Ok(address) && address@ == u,
            None => r == Err::<String, ImgbbError>(ImgbbError::ImageUrlMissing),
        }
    }
}

/// The address of the uploaded image in the host's reply text (its `data.url`).
pub fn image_url_from_upload_response(response: &str) -> (r: Result<String, ImgbbError>)
    ensures
        upload_response_outcome(response@, r),
{
    match json_string_field(response, "data", "url") {
        Ok(Some(address)) => Ok(address),
        Ok(None) => Err(ImgbbError::ImageUrlMissing),
        Err(message) => Err(ImgbbError::ResponseUnreadable(message)),
    }
}

/// What the host's reply gives: a status other than 2xx is refused with the prefix, the status
/// as shown (`status_text`), a space and the reply text; otherwise the address in the reply.
pub fn image_url_from_upload_reply(status_code: u16, status_text: &str, response: &str) -> (r:
    Result<String, ImgbbError>)
    ensures
        !is_success_status(status_code) ==> (r matches Err(ImgbbError::UploadRejected(m)) && m@
            == IMGBB_UPLOAD_FAILED_PREFIX@ + status_text@ + " "@ + response@),
        is_success_status(status_code) ==> upload_response_outcome(response@, r),
{
    if status_code < 200 || status_code > 299 {
        let head = concat_chars(&chars_of(IMGBB_UPLOAD_FAILED_PREFIX), &chars_of(status_text));
        let with_space = concat_chars(&head, &chars_of(" "));
        let message = concat_chars(&with_space, &chars_of(response));
        return Err(ImgbbError::UploadRejected(string_from_chars(&message)));
    }
    image_url_from_upload_response(response)
}

/// Uploads captured images to an imgbb-compatible hosting provider.
pub struct ImgbbImageHostingService {
    config: ImgbbImageHostingConfig,
}

impl View for ImgbbImageHostingService {
    type V = ImgbbImageHostingConfig;

    /// The configuration in use.
    closed spec fn view(&self) -> ImgbbImageHostingConfig {
        self.config
    }
}

impl ImgbbImageHostingService {
    /// A service using `config`.
    pub fn new(config: ImgbbImageHostingConfig) -> (service: Self)
        ensures
            service@ == config,
    {
        Self { config }
    }

    /// A service configured from the user's settings.
    pub fn from_user_settings(settings: &UserSettings) -> (service: Self)
        ensures
            service@.provider_url == settings.image_hosting_provider_url,
            service@.auth_mode == settings.image_hosting_auth_mode,
            service@.public_key_name == settings.image_hosting_public_key_name,
            service@.public_key_value == settings.image_hosting_public_key_value,
            service@.expiration_seconds == settings.image_hosting_expiration_seconds,
            service@.http_method == settings.image_hosting_http_method,
            service@.image_field_name == settings.image_hosting_image_field_name,
    {
        Self { config: ImgbbImageHostingConfig::from_user_settings(settings) }
    }

    /// The configuration in use.
    pub fn config(&self) -> (c: &ImgbbImageHostingConfig)
        ensures
            *c == self@,
    {
        &self.config
    }

    /// Checks that the public key name and value are not blank.
    pub fn validate_public_key_fields(&self) -> (r: Result<(), ImgbbError>)
        ensures
            match public_key_fields_error(self@) {
                Some(e) => r == Err::<(), ImgbbError>(e),
                None => r is Ok,
            },
    {
        if trim_chars(&chars_of(self.config.public_key_name.as_str())).len() == 0 {
            return Err(ImgbbError::PublicKeyNameEmpty);
        }
        if trim_chars(&chars_of(self.config.public_key_value.as_str())).len() == 0 {
            return Err(ImgbbError::PublicKeyEmpty);
        }
        Ok(())
    }

    /// The upload endpoint, as text: the provider address, with the public key added as a query
    /// parameter when the key is sent in the query.
    pub fn build_upload_url(&self) -> (r: Result<String, ImgbbError>)
        ensures
            upload_url_outcome(self@, r),
    {
        if trim_chars(&chars_of(self.config.provider_url.as_str())).len() == 0 {
            return Err(ImgbbError::ProviderUrlEmpty);
        }
        let address = match parse_url(self.config.provider_url.as_str()) {
            Ok(address) => address,
            Err(parse_error) => {
                return Err(ImgbbError::ProviderUrlInvalid(parse_error));
            },
        };
        if self.config.auth_mode == ImageHostingAuthMode::Query {
            match self.validate_public_key_fields() {
                Ok(()) => {},
                Err(e) => {
                    return Err(e);
                },
            }
            return match url_with_query_pair(
                self.config.provider_url.as_str(),
                self.config.public_key_name.as_str(),
                self.config.public_key_value.as_str(),
            ) {
                Ok(with_key) => Ok(with_key),
                Err(parse_error) => Err(ImgbbError::ProviderUrlInvalid(parse_error)),
            };
        }
        Ok(address)
    }

    /// The header that carries the public key, when the key is sent as a header: the key name
    /// and the key, once both are checked as a header name and value.
    pub fn upload_header(&self) -> (r: Result<Option<(String, String)>, ImgbbError>)
        ensures
            upload_header_outcome(self@, r),
    {
        if self.config.auth_mode == ImageHostingAuthMode::Header {
            match self.validate_public_key_fields() {
                Ok(()) => {},
                Err(e) => {
                    return Err(e);
                },
            }
            match check_header_name(self.config.public_key_name.as_str()) {
                Ok(()) => {},
                Err(message) => {
                    return Err(ImgbbError::InvalidHeaderName(message));
                },
            }
            match check_header_value(self.config.public_key_value.as_str()) {
                Ok(()) => {},
                Err(message) => {
                    return Err(ImgbbError::InvalidHeaderValue(message));
                },
            }
            return Ok(
                Some((self.config.public_key_name.clone(), self.config.public_key_value.clone())),
            );
        }
        Ok(None)
    }

    /// The text fields of the upload form: the image, in base64, under the configured field
    /// name, and the configured lifetime under `expiration`.
    pub fn upload_form_fields(&self, image: &Vec<u8>) -> (fields: Vec<(String, String)>)
        ensures
            fields@.len() == 2,
            fields@[0].0@ == self@.image_field_name@,
            fields@[0].1@ == base64_standard(image@),
            fields@[1].0@ == IMGBB_FORM_FIELD_EXPIRATION@,
            fields@[1].1@ == self@.expiration_seconds@,
    {
        let mut fields: Vec<(String, String)> = Vec::new();
        fields.push((self.config.image_field_name.clone(), upload_image_text(image)));
        fields.push(
            (String::from_str(IMGBB_FORM_FIELD_EXPIRATION), self.config.expiration_seconds.clone()),
        );
        fields
    }
}

/// The form field that carries the upload's lifetime in seconds.
pub const IMGBB_FORM_FIELD_EXPIRATION: &'static str = "expiration";

/// Reverse image search through Google Lens: the image is hosted by `image_hosting_service`, and
/// its address is put into `search_url_template` in place of `{}`.
pub struct GoogleLensSearchProvider<H> {
    pub image_hosting_service: H,
    pub search_url_template: String,
}

impl<H> GoogleLensSearchProvider<H> {
    /// A provider hosting images with `image_hosting_service` and searching with the template.
    pub fn new(image_hosting_service: H, search_url_template: String) -> (provider: Self)
        ensures
            provider.image_hosting_service == image_hosting_service,
            provider.search_url_template == search_url_template,
    {
        Self { image_hosting_service, search_url_template }
    }

    /// The search address for a hosted image and an optional query.
    pub fn construct_search_url(&self, image_url: &str, query: Option<&str>) -> (url: String)
        ensures
            url@ == search_url(
                self.search_url_template@,
                image_url@,
                match query {
                    Some(q) => Some(q@),
                    None => None,
                },
            ),
    {
        construct_search_url(self.search_url_template.as_str(), image_url, query)
    }
}

} // verus!
