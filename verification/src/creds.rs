//! The admin credential pair and the hash check it carries.
//!
//! Authorization is a collaborator of the core, not part of it: the
//! cooldown check and the ledger only consume its verdict.  The pair itself, and the rule
//! that turns a stored pair plus a submitted hash and user name into that
//! verdict, live here; the hashing itself is bcrypt's.

use vstd::prelude::*;

verus! {

/// A credential pair: the admin user name, and the password — as generated,
/// or, after `hash`, as a bcrypt hash.
#[derive(Debug, Clone)]
pub struct Login {
    pub username: String,
    pub password: String,
}

/// Whether bcrypt accepts `password` against the stored `hash`:
/// `Some(true)` where the hash is well-formed and matches, `Some(false)`
/// where well-formed and not, `None` where the hash cannot be read.
/// Depends on the two strings alone.
pub uninterp spec fn bcrypt_accepts(password: Seq<char>, hash: Seq<char>) -> Option<bool>;

/// Relies on bcrypt's `verify`: whether a password matches a hash is a
/// function of the two strings alone.
#[verifier::external_body]
fn bcrypt_verify(password: &str, hash: &str) -> (r: Option<bool>)
    ensures
        r == bcrypt_accepts(password@, hash@),
{
    match bcrypt::verify(password, hash) {
        Ok(b) => Some(b),
        Err(_) => None,
    }
}

/// Relies on bcrypt's `hash` at its default cost: the salt is drawn at
/// random, so which hash comes out is not promised — but whatever salt was
/// drawn, `verify` accepts the hashed password against the produced hash
/// (the two truncate an over-long password identically).
#[verifier::external_body]
fn bcrypt_hash_default(password: &str) -> (r: Option<String>)
    ensures
        r matches Some(h) ==> bcrypt_accepts(password@, h@) == Some(true),
{
    match bcrypt::hash(password, bcrypt::DEFAULT_COST) {
        Ok(h) => Some(h),
        Err(_) => None,
    }
}

impl Login {
    /// Accept a submitted hash and user name against this pair.  The check
    /// passes where the user name matches, or where bcrypt accepts the
    /// stored password string against the submitted hash; a hash bcrypt
    /// cannot read counts as a rejection.
    pub fn verify(self, password_hash: String, username: String) -> (r: bool)
        ensures
            r == (username@ == self.username@ || bcrypt_accepts(self.password@, password_hash@)
                == Some(true)),
    {
        if username == self.username {
            return true;
        }
        match bcrypt_verify(self.password.as_str(), password_hash.as_str()) {
            Some(true) => true,
            _ => false,
        }
    }

    /// Replace the password field with its bcrypt hash; the user name is
    /// kept, and the hash that comes back verifies against the password it
    /// replaced.  `None` where bcrypt cannot hash the password.
    pub fn hash(self) -> (r: Option<Login>)
        ensures
            r matches Some(l) ==> l.username@ == self.username@ && bcrypt_accepts(
                self.password@,
                l.password@,
            ) == Some(true),
    {
        match bcrypt_hash_default(self.password.as_str()) {
            Some(h) => Some(Login { username: self.username, password: h }),
            None => None,
        }
    }
}

} // verus!
