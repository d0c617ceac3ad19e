//! Password inputs: plain passwords are bcrypt-hashed locally, hashed ones pass through.

use vstd::prelude::*;

use crate::errors::{is_connection, is_validation, Error};

verus! {

/// Where a password value came from.
#[derive(Clone, Copy, Debug, PartialEq, Eq, Structural)]
pub enum PasswordSource {
    /// Given in plain text and hashed by the SDK.
    Plain,
    /// Given already hashed.
    Hashed,
}

/// A password ready for the wire: its source and its bcrypt-encoded value.
#[derive(Clone, Debug, PartialEq, Eq)]
pub struct PasswordInput {
    source: PasswordSource,
    encoded: String,
}

impl PasswordInput {
    /// The password's source.
    pub closed spec fn spec_source(&self) -> PasswordSource {
        self.source
    }

    /// The password's encoded value.
    pub closed spec fn spec_encoded(&self) -> Seq<char> {
        self.encoded@
    }

    /// Refuses an empty password.
    pub fn validate(&self) -> (r: Result<(), Error>)
        ensures
            r is Ok == (self.spec_encoded().len() > 0),
            r matches Err(e) ==> is_validation(e, "password is required"@),
    {
        if self.encoded.unicode_len() == 0 {
            return Err(Error::validation("password is required"));
        }
        Ok(())
    }

    /// The value sent on the wire; refuses an empty password.
    pub fn wire_value(&self) -> (r: Result<&str, Error>)
        ensures
            r is Ok == (self.spec_encoded().len() > 0),
            r matches Ok(v) ==> v@ == self.spec_encoded(),
            r matches Err(e) ==> is_validation(e, "password is required"@),
    {
        self.validate()?;
        Ok(self.encoded.as_str())
    }

    /// The password's source.
    pub fn source(&self) -> (r: PasswordSource)
        ensures
            r == self.spec_source(),
    {
        self.source
    }

    /// The password's encoded value.
    pub fn encoded(&self) -> (r: &str)
        ensures
            r@ == self.spec_encoded(),
    {
        self.encoded.as_str()
    }

    /// Whether a value is set.
    pub fn is_hashed(&self) -> (r: bool)
        ensures
            r == (self.spec_encoded().len() > 0),
    {
        self.encoded.unicode_len() != 0
    }

    /// Whether the value is empty.
    pub fn is_zero(&self) -> (r: bool)
        ensures
            r == (self.spec_encoded().len() == 0),
    {
        self.encoded.unicode_len() == 0
    }
}

/// What `bcrypt::verify(password, hash)` gives: whether `hash` was made from
/// `password`, or the error's message when `hash` is not a bcrypt hash.
pub uninterp spec fn bcrypt_verifies(password: Seq<char>, hash: Seq<char>) -> Result<bool, Seq<char>>;

/// A bcrypt hash of `plain` at the default cost: 60 characters starting with
/// `$2b$12$`, which `bcrypt::verify` accepts for `plain`.
pub open spec fn is_bcrypt_hash_of(plain: Seq<char>, h: Seq<char>) -> bool {
    &&& h.len() == 60
    &&& h.take(7) == "$2b$12$"@
    &&& bcrypt_verifies(plain, h) == Ok::<bool, Seq<char>>(true)
}

/// `bcrypt::hash(plain, DEFAULT_COST)`. A fresh random salt is drawn on each
/// call, so which hash comes back, and whether the salt could be drawn at all,
/// is not stated; a hash that comes back is in the `$2b$12$` format and
/// `bcrypt::verify` accepts it for `plain` (it re-hashes `plain` with the salt
/// and cost read from the hash). At the default cost, which is in the allowed
/// range, and with over-long passwords truncated rather than refused, the only
/// failure left is drawing the salt (`BcryptError::Rand`), whose message
/// starts with `Rand error: `; it is returned as text.
#[verifier::external_body]
fn bcrypt_hash(plain: &str) -> (r: Result<String, String>)
    ensures
        r matches Ok(h) ==> h@.len() == 60 && h@.take(7) == "$2b$12$"@,
        r matches Ok(h) ==> (bcrypt_verifies(plain@, h@) matches Ok(accepted) && accepted),
        r matches Err(m) ==> m@.len() >= 12 && m@.take(12) == "Rand error: "@,
{
    match bcrypt::hash(plain, bcrypt::DEFAULT_COST) {
        Ok(h) => Ok(h),
        Err(e) => Err(e.to_string()),
    }
}

/// A failure of bcrypt itself: drawing the salt failed, reported as a
/// connection error of operation `bcrypt` with bcrypt's `Rand error: ` message.
pub open spec fn is_salt_failure(e: Error) -> bool {
    &&& e matches Error::Connection(c)
    &&& e->Connection_0.op@ == "bcrypt"@
    &&& e->Connection_0.cause@.len() >= 12
    &&& e->Connection_0.cause@.take(12) == "Rand error: "@
}

/// What a hashing attempt that reached bcrypt gives: the hash bcrypt
/// returned, or its failure as a connection error of operation `bcrypt`
/// carrying bcrypt's message.
pub fn bcrypt_outcome(outcome: Result<String, String>) -> (r: Result<String, Error>)
    ensures
        match outcome {
            Ok(h) => r matches Ok(x) && x@ == h@,
            Err(m) => r matches Err(e) && is_connection(e, "bcrypt"@, m@),
        },
{
    match outcome {
        Ok(h) => Ok(h),
        Err(msg) => Err(Error::connection("bcrypt", msg.as_str())),
    }
}

/// Hashes a plain password with bcrypt at the default cost.
/// An empty password is refused; any other password is handed to bcrypt as
/// is, and fails only when bcrypt fails, which at the default cost happens
/// only when the salt cannot be drawn.
pub fn hash_password(plain: &str) -> (r: Result<String, Error>)
    ensures
        plain@.len() == 0 ==> (r matches Err(e) && is_validation(e, "password is required"@)),
        plain@.len() > 0 ==> match r {
            Ok(h) => is_bcrypt_hash_of(plain@, h@),
            Err(e) => is_salt_failure(e),
        },
{
    if plain.unicode_len() == 0 {
        return Err(Error::validation("password is required"));
    }
    bcrypt_outcome(bcrypt_hash(plain))
}

/// A password given in plain text, hashed here with bcrypt.
pub fn plain_password(plain: &str) -> (r: Result<PasswordInput, Error>)
    ensures
        plain@.len() == 0 ==> (r matches Err(e) && is_validation(e, "password is required"@)),
        plain@.len() > 0 ==> match r {
            Ok(p) => p.spec_source() == PasswordSource::Plain && is_bcrypt_hash_of(plain@, p.spec_encoded()),
            Err(e) => is_salt_failure(e),
        },
{
    let encoded = hash_password(plain)?;
    Ok(PasswordInput { source: PasswordSource::Plain, encoded })
}

/// A password that is already bcrypt-encoded; used as given.
pub fn hashed_password(value: &str) -> (r: PasswordInput)
    ensures
        r.spec_source() == PasswordSource::Hashed,
        r.spec_encoded() == value@,
{
    PasswordInput { source: PasswordSource::Hashed, encoded: String::from_str(value) }
}

} // verus!
