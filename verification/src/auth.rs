//! Who a creator is to the portal, and how a creator's email is kept.

use crate::encoding::{sha256, sha256_digest};
use crate::reqs::EmailRecord;
use vstd::prelude::*;
use vstd::string::StringSliceAdditionalSpecFns;

verus! {

/// What the portal knows of a creator who is logged in.
#[derive(Clone, Debug, PartialEq, Eq)]
pub struct CreatorToken {
    pub id: i64,
    pub email_hash: Vec<u8>,
    pub moderator: bool,
    pub lockout: bool,
    pub poster_limit: i32,
}

/// What is hashed together with every email.
pub const SALT: &'static str =
    "Technically this is a valid salt... but it's quite long. w4htr5g[9o0jin12ukm2h,q3e4t5rwg2a-908[ihy2jure3gtj1h0[ds2vc2bj0mp3io[]";

/// The hash under which an email is kept: the SHA-256 digest of the email's
/// bytes followed by the salt's.
pub open spec fn salted_hash(email: Seq<char>) -> Seq<u8> {
    sha256(vstd::utf8::encode_utf8(email) + vstd::utf8::encode_utf8(SALT@))
}

pub fn email_hash(email: &str) -> (hash: Vec<u8>)
    ensures
        hash@ == salted_hash(email@),
        hash@.len() == 32,
{
    let mut salted: Vec<u8> = Vec::new();
    salted.extend_from_slice(email.as_bytes());
    salted.extend_from_slice(SALT.as_bytes());
    assert(salted@ =~= vstd::utf8::encode_utf8(email@) + vstd::utf8::encode_utf8(SALT@));
    let digest = sha256_digest(salted.as_slice());
    let mut hash: Vec<u8> = Vec::new();
    hash.extend_from_slice(digest.as_slice());
    assert(hash@ =~= digest@);
    hash
}

/// The email that a login goes by: the first that the provider lists.
pub fn login_email(emails: &Vec<EmailRecord>) -> (email: Option<&String>)
    ensures
        match email {
            Some(address) => emails@.len() > 0 && *address == emails@[0].email,
            None => emails@.len() == 0,
        },
{
    if emails.len() > 0 {
        Some(&emails[0].email)
    } else {
        None
    }
}

impl CreatorToken {
    pub fn id(&self) -> (id: i64)
        ensures
            id == self.id,
    {
        self.id
    }

    /// What a session is bound to: it ends when this changes.
    pub fn session_auth_hash(&self) -> (hash: &[u8])
        ensures
            hash@ == self.email_hash@,
    {
        self.email_hash.as_slice()
    }
}

} // verus!
