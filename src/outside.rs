//! Calls into outside crates, each with the contract relied on.
use vstd::prelude::*;

verus! {

#[verifier::external_type_specification]
#[verifier::external_body]
pub struct ExBcryptError(bcrypt::BcryptError);

#[verifier::external_type_specification]
#[verifier::external_body]
pub struct ExParseError(url::ParseError);

/// What bcrypt reports for `password` checked against `hash`: whether they
/// match, or `None` where the hash cannot be read.
pub uninterp spec fn bcrypt_verdict(password: Seq<char>, hash: Seq<char>) -> Option<bool>;

/// Relies on bcrypt::verify: the verdict depends on the password and the
/// hash alone, and an unreadable hash is an error.
#[verifier::external_body]
pub(crate) fn verify_password(password: &str, hash: &str) -> (r: Result<bool, bcrypt::BcryptError>)
    ensures
        match r {
            Ok(b) => bcrypt_verdict(password@, hash@) == Some(b),
            Err(_) => bcrypt_verdict(password@, hash@) is None,
        },
{
    bcrypt::verify(password, hash)
}

/// Why hashing a password failed: the operating system's random source
/// gave no salt, or bcrypt refused the request.
#[derive(Debug)]
pub enum HashError {
    SaltDraw(bcrypt::BcryptError),
    Refused(bcrypt::BcryptError),
}

/// Relies on bcrypt::hash: the salt is drawn from the operating system
/// first (`BcryptError::Rand` when that fails); then a cost outside 4..=31
/// is refused and any other cost hashes without failing; the hash it
/// returns verifies the password it was made from.
#[verifier::external_body]
pub(crate) fn hash_password(password: &str, cost: u32) -> (r: Result<String, HashError>)
    ensures
        !(4 <= cost <= 31) ==> r is Err,
        4 <= cost <= 31 ==> !(r matches Err(HashError::Refused(_))),
        r matches Ok(h) ==> bcrypt_verdict(password@, h@) == Some(true),
{
    match bcrypt::hash(password, cost) {
        Ok(h) => Ok(h),
        Err(e @ bcrypt::BcryptError::Rand(_)) => Err(HashError::SaltDraw(e)),
        Err(e) => Err(HashError::Refused(e)),
    }
}

/// The hyphenated form of a UUID: 36 characters, hyphens at positions 8,
/// 13, 18 and 23, lower-case hexadecimal digits elsewhere.
pub open spec fn uuid_shape(s: Seq<char>) -> bool {
    &&& s.len() == 36
    &&& forall|i: int|
        0 <= i < 36 ==> if i == 8 || i == 13 || i == 18 || i == 23 {
            #[trigger] s[i] == '-'
        } else {
            ('0' <= s[i] <= '9') || ('a' <= s[i] <= 'f')
        }
}

/// The hyphenated form of a random (version 4, RFC 4122 variant) UUID:
/// the version digit `4` at position 14 and the variant digit, one of `8`,
/// `9`, `a`, `b`, at position 19.
pub open spec fn uuid_v4_shape(s: Seq<char>) -> bool {
    &&& uuid_shape(s)
    &&& s[14] == '4'
    &&& (s[19] == '8' || s[19] == '9' || s[19] == 'a' || s[19] == 'b')
}

/// The text of the version-4 UUID made from the random bits `random`.
pub uninterp spec fn uuid_v4_text(random: u128) -> Seq<char>;

/// Relies on uuid::Builder::from_random_bytes, which sets the version bits
/// of byte 6 to 4 and the variant bits of byte 8 to RFC 4122, and on
/// Uuid's `to_string` (its `Display`, the lower-case hyphenated form): the
/// text depends on the bits alone.
#[verifier::external_body]
pub(crate) fn uuid_v4_string(random: u128) -> (r: String)
    ensures
        r@ == uuid_v4_text(random),
        uuid_v4_shape(r@),
{
    uuid::Builder::from_random_bytes(random.to_be_bytes()).into_uuid().to_string()
}

/// Whether `text` matches the regular expression `pattern`, or `None`
/// where the pattern does not compile.
pub uninterp spec fn regex_verdict(pattern: Seq<char>, text: Seq<char>) -> Option<bool>;

/// Relies on regex::Regex::new and regex::Regex::is_match: a pattern that
/// does not compile is refused (`None`), and the verdict depends on the
/// pattern and the text alone.
#[verifier::external_body]
pub(crate) fn regex_matches(pattern: &str, text: &str) -> (r: Option<bool>)
    ensures
        r == regex_verdict(pattern@, text@),
{
    match regex::Regex::new(pattern) {
        Ok(re) => Some(re.is_match(text)),
        Err(_) => None,
    }
}

/// Whether `s` is an email address by the HTML5 rules.
pub uninterp spec fn email_accepted(s: Seq<char>) -> bool;

/// Relies on validator::validate_email: the verdict depends on the text
/// alone, and a text without `@` is refused.
#[verifier::external_body]
pub(crate) fn is_valid_email(s: &str) -> (r: bool)
    ensures
        r == email_accepted(s@),
        !s@.contains('@') ==> !r,
{
    validator::validate_email(s)
}

/// The address `base` with `pairs` appended to its query, form-encoded, or
/// `None` where `base` is not an absolute URL.
pub uninterp spec fn url_with_query(base: Seq<char>, pairs: Seq<(Seq<char>, Seq<char>)>) -> Option<Seq<char>>;

/// Relies on url::Url::parse, url::form_urlencoded::Serializer::extend_pairs
/// and the URL's text form: the result depends on the base and the pairs
/// alone.
#[verifier::external_body]
pub(crate) fn append_query(base: &str, pairs: &Vec<(String, String)>) -> (r: Result<String, url::ParseError>)
    ensures
        match r {
            Ok(s) => url_with_query(base@, pairs.deep_view()) == Some(s@),
            Err(_) => url_with_query(base@, pairs.deep_view()) is None,
        },
{
    let mut url = url::Url::parse(base)?;
    url.query_pairs_mut().extend_pairs(pairs.iter());
    Ok(url.to_string())
}

/// The decoded name/value pairs of the query of `url`, in order, or `None`
/// where `url` is not an absolute URL.
pub uninterp spec fn url_query(url: Seq<char>) -> Option<Seq<(Seq<char>, Seq<char>)>>;

/// Relies on url::Url::parse and url::Url::query_pairs: the pairs depend on
/// the text alone.
#[verifier::external_body]
pub(crate) fn query_pairs_of(url: &str) -> (r: Result<Vec<(String, String)>, url::ParseError>)
    ensures
        match r {
            Ok(v) => url_query(url@) == Some(v.deep_view()),
            Err(_) => url_query(url@) is None,
        },
{
    let u = url::Url::parse(url)?;
    Ok(u.query_pairs().map(|(k, v)| (k.into_owned(), v.into_owned())).collect())
}

} // verus!
