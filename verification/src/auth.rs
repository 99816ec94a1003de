//! Basic authentication: a login is accepted when its user is the
//! configured one and its password, hashed with the configured salt,
//! matches the configured password's hash.
use vstd::prelude::*;
use crate::reply::{LogRecord, LogV, log_extra, log_of, record, record_with};
use crate::text::{concat2, same_text};

verus! {

/// What `bcrypt_pbkdf::bcrypt_pbkdf` writes into 32 bytes of output for
/// the UTF-8 bytes of `passphrase` and `salt` and `rounds` rounds.
pub uninterp spec fn bcrypt_digest(passphrase: Seq<char>, salt: Seq<char>, rounds: u32) -> Seq<u8>;

/// Calls `bcrypt_pbkdf::bcrypt_pbkdf` on the UTF-8 bytes of `passphrase`
/// and `salt` with `rounds` rounds, filling 32 bytes. The crate returns an
/// error only for an empty passphrase or salt, zero rounds, or an output of
/// no bytes or more than 1024, all ruled out here; the digest is named
/// `bcrypt_digest` of the three arguments.
#[verifier::external_body]
fn bcrypt_hash(passphrase: &str, salt: &str, rounds: u32) -> (r: [u8; 32])
    requires
        passphrase@.len() > 0,
        salt@.len() > 0,
        rounds > 0,
    ensures
        r@ == bcrypt_digest(passphrase@, salt@, rounds),
{
    let mut output = [0u8; 32];
    bcrypt_pbkdf::bcrypt_pbkdf(passphrase.as_bytes(), salt.as_bytes(), rounds, &mut output)
        .expect("bcrypt_pbkdf failed on password");
    output
}

/// Calls `constant_time_eq::constant_time_eq`, which compares two byte
/// strings in constant time: true exactly when they are equal.
#[verifier::external_body]
fn bytes_equal(a: &[u8], b: &[u8]) -> (r: bool)
    ensures
        r == (a@ == b@),
{
    constant_time_eq::constant_time_eq(a, b)
}

/// The hash a password is stored and compared as: bcrypt-pbkdf with the
/// salt and 10 rounds.
pub open spec fn password_hash(password: Seq<char>, salt: Seq<char>) -> Seq<u8> {
    bcrypt_digest(password, salt, 10)
}

/// The salted hash of `string`, as `password_hash` states.
pub fn hash_string(string: &str, salt: &str) -> (r: [u8; 32])
    requires
        string@.len() > 0,
        salt@.len() > 0,
    ensures
        r@ == password_hash(string@, salt@),
{
    bcrypt_hash(string, salt, 10)
}

/// The configured login: the user name, the salt, and the hash of the
/// password.
pub struct Credentials {
    user: String,
    salt: String,
    digest: [u8; 32],
}

impl Credentials {
    /// A salt is never empty, so a password can always be hashed with it.
    #[verifier::type_invariant]
    spec fn salted(self) -> bool {
        self.salt@.len() > 0
    }

    /// The configured user name.
    pub closed spec fn user(self) -> Seq<char> {
        self.user@
    }

    /// The configured salt.
    pub closed spec fn salt(self) -> Seq<char> {
        self.salt@
    }

    /// The hash of the configured password.
    pub closed spec fn digest(self) -> Seq<u8> {
        self.digest@
    }

    /// The login of user `user` with password `password`, hashed with
    /// `salt`.
    pub fn new(user: String, salt: String, password: &str) -> (r: Self)
        requires
            salt@.len() > 0,
            password@.len() > 0,
        ensures
            r.user() == user@,
            r.salt() == salt@,
            r.digest() == password_hash(password@, salt@),
    {
        let digest = hash_string(password, salt.as_str());
        Credentials { user, salt, digest }
    }
}

/// Whether a login of `user` with `password` is accepted: the user is the
/// configured one, the password is not empty, and its hash is the
/// configured hash.
pub open spec fn credentials_accepted(c: Credentials, user: Seq<char>, password: Seq<char>) -> bool {
    user == c.user() && password.len() > 0 && password_hash(password, c.salt()) == c.digest()
}

/// Checks a login, as `credentials_accepted` states; the hashes are
/// compared in constant time.
pub fn secure_compare(username: &str, password: &str, creds: &Credentials) -> (r: bool)
    ensures
        r == credentials_accepted(*creds, username@, password@),
{
    proof {
        use_type_invariant(creds);
    }
    if !same_text(username, creds.user.as_str()) {
        return false;
    }
    if password.is_empty() {
        return false;
    }
    let input = hash_string(password, creds.salt.as_str());
    bytes_equal(input.as_slice(), creds.digest.as_slice())
}

/// The password a login offered, or the empty text when it offered none.
pub open spec fn offered(password: Option<Seq<char>>) -> Seq<char> {
    match password {
        Some(p) => p,
        None => seq![],
    }
}

/// The view of the password a login offered, if any.
pub open spec fn password_view(password: Option<&str>) -> Option<Seq<char>> {
    match password {
        Some(p) => Some(p@),
        None => None,
    }
}

/// What is logged of a login of `user`: a successful POST, or an
/// unauthorized one of severity 10 that names the user.
pub open spec fn login_log(accepted: bool, user: Seq<char>) -> LogV {
    if accepted {
        log_of(200, "Login Succesfully"@, 0, "POST"@)
    } else {
        log_extra(401, "Unauthorized"@, 10, "POST"@, " oCMAPIUserLogin="@ + user)
    }
}

/// Decides a basic authentication attempt of `user` with `password`:
/// whether it is let through, and the record logged for it.
pub fn validator(user: &str, password: Option<&str>, creds: &Credentials) -> (r: (bool, LogRecord))
    ensures
        r.0 == credentials_accepted(
            *creds,
            user@,
            offered(password_view(password)),
        ),
        r.1@ == login_log(r.0, user@),
{
    let given = match password {
        Some(p) => p,
        None => "",
    };
    proof {
        reveal_strlit("");
    }
    if secure_compare(user, given, creds) {
        (true, record(200, "Login Succesfully", 0, "POST"))
    } else {
        (false, record_with(401, "Unauthorized", 10, "POST", concat2(" oCMAPIUserLogin=", user)))
    }
}

/// The configured login is accepted: the configured user with the
/// configured (non-empty) password gets through.
pub proof fn lemma_configured_login_accepted(c: Credentials, password: Seq<char>)
    requires
        password.len() > 0,
        c.digest() == password_hash(password, c.salt()),
    ensures
        credentials_accepted(c, c.user(), password),
{
}

/// A login with another user name, or with an empty password, is refused,
/// whatever the password.
pub proof fn lemma_other_logins_refused(c: Credentials, user: Seq<char>, password: Seq<char>)
    requires
        user != c.user() || password.len() == 0,
    ensures
        !credentials_accepted(c, user, password),
{
}

} // verus!
