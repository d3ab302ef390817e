use vstd::prelude::*;
use vstd::utf8::encode_utf8;

use crate::engine::StoreError;
use crate::resources::Timestamp;

verus! {

#[verifier::external_type_specification]
#[verifier::external_body]
pub struct ExBcryptError(bcrypt::BcryptError);

/// Whether Unicode counts `c` as a letter or a number.
pub uninterp spec fn alphanumeric(c: char) -> bool;

/// Whether Unicode counts `c` as a letter.
pub uninterp spec fn alphabetic(c: char) -> bool;

/// Whether bcrypt reads `hash` and finds that `password` matches it.
pub uninterp spec fn bcrypt_accepts(password: Seq<char>, hash: Seq<char>) -> bool;

/// Relies on `char::is_alphanumeric`: the Unicode property of `c` alone.
#[verifier::external_body]
fn char_is_alphanumeric(c: char) -> (r: bool)
    ensures
        r == alphanumeric(c),
{
    c.is_alphanumeric()
}

/// Relies on `char::is_alphabetic`: the Unicode property of `c` alone.
#[verifier::external_body]
fn char_is_alphabetic(c: char) -> (r: bool)
    ensures
        r == alphabetic(c),
{
    c.is_alphabetic()
}

/// Relies on `bcrypt::hash`: a salted hash of `password` at `cost` rounds (as a
/// power of two) that `bcrypt::verify` accepts for that password; the salt is
/// drawn at random, and a cost outside `4..=31` is refused.
#[verifier::external_body]
fn bcrypt_hash(password: &str, cost: u32) -> (r: Result<String, bcrypt::BcryptError>)
    ensures
        !(4 <= cost <= 31) ==> r is Err,
        r matches Ok(h) ==> bcrypt_accepts(password@, h@),
{
    bcrypt::hash(password, cost)
}

/// Relies on `bcrypt::verify`: whether `password` matches `hash`, or an error
/// when `hash` cannot be read as a bcrypt hash.
#[verifier::external_body]
fn bcrypt_verify(password: &str, hash: &str) -> (r: Result<bool, bcrypt::BcryptError>)
    ensures
        (r matches Ok(b) && b) <==> bcrypt_accepts(password@, hash@),
{
    bcrypt::verify(password, hash)
}

/// The bcrypt cost with which new passwords are hashed.
pub const HASH_COST: u32 = 4;

/// Whether `c` is a decimal digit.
pub open spec fn decimal_digit(c: char) -> bool {
    '0' <= c <= '9'
}

pub open spec fn username_char(c: char) -> bool {
    alphanumeric(c) || c == '_' || c == '-'
}

/// The verdict on a username, with the message that explains it.
pub open spec fn username_verdict(s: Seq<char>) -> (bool, Seq<char>) {
    if s.len() == 0 {
        (false, "the username field must not be empty"@)
    } else if encode_utf8(s).len() < 3 {
        (false, "Username length cannot be less than three characters"@)
    } else if exists|k: int| 0 <= k < s.len() && !username_char(#[trigger] s[k]) {
        (false, "username contains unacceptable characters"@)
    } else {
        (true, "Everything is correct"@)
    }
}

/// The verdict on a password, with the message that explains it: a password
/// must hold at least one digit and at least one letter.
pub open spec fn password_verdict(s: Seq<char>) -> (bool, Seq<char>) {
    if s.len() == 0 {
        (false, "the password field must not be empty"@)
    } else if encode_utf8(s).len() < 6 {
        (false, "the password field must be more than 6 characters"@)
    } else if !(exists|k: int| 0 <= k < s.len() && decimal_digit(#[trigger] s[k])) || !(exists|
        k: int,
    | 0 <= k < s.len() && alphabetic(#[trigger] s[k])) {
        (false, "The password must contain at least one number and one letter"@)
    } else {
        (true, "Everything is correct"@)
    }
}

/// Checks a username: not empty, at least three bytes long, and made of
/// letters, numbers, `_` and `-` only.
pub fn validate_username(username: &str) -> (r: (bool, String))
    ensures
        (r.0, r.1@) == username_verdict(username@),
{
    if username.is_empty() {
        return (false, String::from_str("the username field must not be empty"));
    }
    let bytes = username.as_bytes().len();
    assert(bytes == encode_utf8(username@).len());
    if bytes < 3 {
        return (false, String::from_str("Username length cannot be less than three characters"));
    }
    let n = username.unicode_len();
    let mut i: usize = 0;
    while i < n
        invariant
            n == username@.len(),
            i <= n,
            encode_utf8(username@).len() >= 3,
            forall|k: int| 0 <= k < i ==> username_char(#[trigger] username@[k]),
        decreases n - i,
    {
        let c = username.get_char(i);
        if !(char_is_alphanumeric(c) || c == '_' || c == '-') {
            assert(!username_char(username@[i as int]));
            return (false, String::from_str("username contains unacceptable characters"));
        }
        i = i + 1;
    }
    (true, String::from_str("Everything is correct"))
}

/// Checks a password: not empty, at least six bytes long, and holding at
/// least one digit and at least one letter.
pub fn validate_password(password: &str) -> (r: (bool, String))
    ensures
        (r.0, r.1@) == password_verdict(password@),
{
    if password.is_empty() {
        return (false, String::from_str("the password field must not be empty"));
    }
    let bytes = password.as_bytes().len();
    assert(bytes == encode_utf8(password@).len());
    if bytes < 6 {
        return (false, String::from_str("the password field must be more than 6 characters"));
    }
    let n = password.unicode_len();
    let mut has_digit = false;
    let mut has_letter = false;
    let mut i: usize = 0;
    while i < n
        invariant
            n == password@.len(),
            i <= n,
            has_digit <==> exists|k: int| 0 <= k < i && decimal_digit(#[trigger] password@[k]),
            has_letter <==> exists|k: int| 0 <= k < i && alphabetic(#[trigger] password@[k]),
        decreases n - i,
    {
        let c = password.get_char(i);
        if '0' <= c && c <= '9' {
            has_digit = true;
        }
        if char_is_alphabetic(c) {
            has_letter = true;
        }
        i = i + 1;
    }
    if !has_digit || !has_letter {
        return (
            false,
            String::from_str("The password must contain at least one number and one letter"),
        );
    }
    (true, String::from_str("Everything is correct"))
}

/// A stored user account.
#[derive(Clone, Debug)]
pub struct Users {
    pub id: i32,
    pub username: String,
    pub password_hash: String,
    pub email: String,
    pub created_at: Timestamp,
    pub updated_at: Timestamp,
}

/// A request to register an account.
#[derive(Clone, Debug)]
pub struct RequestUsers {
    pub username: String,
    pub password: String,
    pub email: String,
}

#[derive(Clone, Debug)]
pub struct LoginInfo {
    pub username: String,
    pub password: String,
}

#[derive(Clone, Debug)]
pub struct LoginReponse {
    pub token: String,
}

/// The account to store for a registration that passed its checks.
#[derive(Clone, Debug)]
pub struct NewUser {
    pub username: String,
    pub password_hash: String,
    pub email: String,
}

#[derive(Clone, Debug)]
pub enum RegistrationError {
    /// The password or the username was refused, for the reason given.
    Rejected(String),
    /// The password could not be hashed.
    HashFailed,
}

/// The outcome of checking a username and a password against the stored accounts.
#[derive(Clone, Copy, Debug, PartialEq, Eq, Structural)]
pub enum UserValidationResult {
    Valid,
    InvalidCredentials,
    DatabaseError,
}

/// Checks a registration, the password first and then the username, and
/// hashes the password of one that passes.
pub fn prepare_registration(request: &RequestUsers) -> (r: Result<NewUser, RegistrationError>)
    ensures
        !password_verdict(request.password@).0 ==> (r matches Err(RegistrationError::Rejected(m))
            && m@ == password_verdict(request.password@).1),
        password_verdict(request.password@).0 && !username_verdict(request.username@).0 ==> (
        r matches Err(RegistrationError::Rejected(m)) && m@ == username_verdict(
            request.username@,
        ).1),
        password_verdict(request.password@).0 && username_verdict(request.username@).0 ==> (
        r is Ok || r matches Err(RegistrationError::HashFailed)),
        r matches Ok(u) ==> u.username@ == request.username@ && u.email@ == request.email@
            && bcrypt_accepts(request.password@, u.password_hash@),
{
    let (password_ok, password_message) = validate_password(request.password.as_str());
    if !password_ok {
        return Err(RegistrationError::Rejected(password_message));
    }
    let (username_ok, username_message) = validate_username(request.username.as_str());
    if !username_ok {
        return Err(RegistrationError::Rejected(username_message));
    }
    let hashed = bcrypt_hash(request.password.as_str(), HASH_COST);
    registration_from_hash(request, hashed)
}

/// The account to store for a registration that passed its checks, given
/// what hashing its password returned: a failed hash is `HashFailed`.
pub fn registration_from_hash(request: &RequestUsers, hashed: Result<String, bcrypt::BcryptError>) -> (r: Result<NewUser, RegistrationError>)
    ensures
        hashed is Err ==> r matches Err(RegistrationError::HashFailed),
        hashed matches Ok(h) ==> (r matches Ok(u) && u.username@ == request.username@
            && u.password_hash@ == h@ && u.email@ == request.email@),
{
    match hashed {
        Ok(password_hash) => Ok(
            NewUser {
                username: String::from_str(request.username.as_str()),
                password_hash,
                email: String::from_str(request.email.as_str()),
            },
        ),
        Err(_) => Err(RegistrationError::HashFailed),
    }
}

/// Checks a password against the hash stored for a username: `lookup` is
/// what the store returned for it (`None` when no such user exists).
pub fn check_credentials(lookup: &Result<Option<String>, StoreError>, password: &str) -> (r: UserValidationResult)
    ensures
        lookup is Err <==> r == UserValidationResult::DatabaseError,
        lookup == Ok::<Option<String>, StoreError>(None) ==> r
            == UserValidationResult::InvalidCredentials,
        r == UserValidationResult::Valid ==> (lookup matches Ok(Some(h)) && bcrypt_accepts(
            password@,
            h@,
        )),
        lookup matches Ok(Some(h)) ==> (r == UserValidationResult::Valid <==> bcrypt_accepts(
            password@,
            h@,
        )),
{
    match lookup {
        Err(_) => UserValidationResult::DatabaseError,
        Ok(None) => UserValidationResult::InvalidCredentials,
        Ok(Some(hash)) => match bcrypt_verify(password, hash.as_str()) {
            Ok(true) => UserValidationResult::Valid,
            _ => UserValidationResult::InvalidCredentials,
        },
    }
}

/// How long a login token stays valid.
pub const TOKEN_LIFETIME_SECONDS: i64 = 3600;

/// The expiry, in seconds since 1970, of a token issued at `issued_at`, when
/// it is a non-negative number that fits.
pub fn token_expiry(issued_at: i64) -> (r: Option<u64>)
    ensures
        0 <= issued_at + TOKEN_LIFETIME_SECONDS ==> r == Some(
            (issued_at + TOKEN_LIFETIME_SECONDS) as u64,
        ),
        issued_at + TOKEN_LIFETIME_SECONDS < 0 ==> r is None,
{
    if issued_at < -TOKEN_LIFETIME_SECONDS {
        None
    } else {
        Some((issued_at as i128 + TOKEN_LIFETIME_SECONDS as i128) as u64)
    }
}

pub open spec fn bearer_prefix() -> Seq<char> {
    "Bearer "@
}

pub open spec fn has_prefix(s: Seq<char>, p: Seq<char>) -> bool {
    s.len() >= p.len() && s.subrange(0, p.len() as int) == p
}

/// `s` with every leading repetition of the non-empty `p` removed.
pub open spec fn strip_repeated(s: Seq<char>, p: Seq<char>) -> Seq<char>
    decreases s.len(),
{
    if p.len() > 0 && has_prefix(s, p) {
        strip_repeated(s.subrange(p.len() as int, s.len() as int), p)
    } else {
        s
    }
}

/// The token of an `Authorization` value of the form `Bearer <token>`.
pub open spec fn bearer_token_spec(header: Seq<char>) -> Option<Seq<char>> {
    if has_prefix(header, bearer_prefix()) {
        Some(strip_repeated(header, bearer_prefix()))
    } else {
        None
    }
}

fn starts_with_bearer(s: &str) -> (r: bool)
    ensures
        r == has_prefix(s@, bearer_prefix()),
{
    let prefix = "Bearer ";
    proof {
        reveal_strlit("Bearer ");
    }
    let n = s.unicode_len();
    let m = prefix.unicode_len();
    if n < m {
        return false;
    }
    let mut i: usize = 0;
    while i < m
        invariant
            m == bearer_prefix().len(),
            prefix@ == bearer_prefix(),
            n == s@.len(),
            m <= n,
            i <= m,
            forall|k: int| 0 <= k < i ==> s@[k] == bearer_prefix()[k],
        decreases m - i,
    {
        if s.get_char(i) != prefix.get_char(i) {
            assert(s@.subrange(0, m as int)[i as int] != bearer_prefix()[i as int]);
            return false;
        }
        i = i + 1;
    }
    assert(s@.subrange(0, m as int) =~= bearer_prefix());
    true
}

/// The token that an `Authorization` value carries after `Bearer `; the
/// prefix is removed as often as it repeats.
pub fn bearer_token(header: &str) -> (r: Option<String>)
    ensures
        r matches Some(t) ==> bearer_token_spec(header@) == Some(t@),
        r is None ==> bearer_token_spec(header@) is None,
{
    if !starts_with_bearer(header) {
        return None;
    }
    proof {
        reveal_strlit("Bearer ");
    }
    let mut rest: &str = header;
    while starts_with_bearer(rest)
        invariant
            strip_repeated(rest@, bearer_prefix()) == strip_repeated(header@, bearer_prefix()),
            bearer_prefix().len() == 7,
        decreases rest@.len(),
    {
        let n = rest.unicode_len();
        rest = rest.substring_char(7, n);
    }
    Some(String::from_str(rest))
}

} // verus!
