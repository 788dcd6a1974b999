//! The identity a token carries, and the checks made on it.
use vstd::prelude::*;
use vstd::string::*;
use crate::credit::{AccountStore, AccountUser};
use crate::password::{signs_in, verify_password};
use crate::sys::unix_now;

verus! {

/// Issuer named in every token.
pub const ISSUER: &'static str = "AutoWDS";

/// How long a token is valid: 360 days, in seconds. Tokens are neither
/// refreshed nor rotated.
pub const TOKEN_LIFETIME_SECS: i64 = 360 * 24 * 60 * 60;

/// Accounts with an id up to this one are administrators. This is a
/// convention on ids, not a role kept anywhere.
pub const ADMIN_MAX_ID: i64 = 1;

/// Latest issue time, in seconds since the Unix epoch, that a token accepts.
pub const MAX_ISSUE_TIME: i64 = 9_000_000_000_000_000;

/// Why an identity was refused.
#[derive(Clone, Copy, Debug, PartialEq, Eq, Structural)]
pub enum AuthError {
    /// No account has the email.
    NotRegistered,
    /// The password does not match.
    WrongPassword,
    /// The token's data does not match the account.
    TokenMismatch,
    /// The operation is for administrators.
    AdminRequired,
}

/// What a token says of its holder.
pub struct Claims {
    pub uid: i64,
    pub email: String,
    pub iss: String,
    /// Expiry, in seconds since the Unix epoch.
    pub exp: usize,
}

pub open spec fn spec_is_admin(uid: i64) -> bool {
    uid <= ADMIN_MAX_ID
}

impl Claims {
    /// Claims for `uid` and `email` issued at `now`.
    pub fn issued_at(uid: i64, email: String, now: i64) -> (r: Claims)
        requires
            0 <= now <= MAX_ISSUE_TIME,
        ensures
            r.uid == uid,
            r.email == email,
            r.iss@ == ISSUER@,
            r.exp == (now + TOKEN_LIFETIME_SECS) as usize,
    {
        Claims {
            uid,
            email,
            iss: String::from_str(ISSUER),
            exp: (now + TOKEN_LIFETIME_SECS) as usize,
        }
    }

    /// Claims for `uid` and `email` issued now; `None` when the clock reads
    /// before the epoch or after `MAX_ISSUE_TIME`.
    pub fn new(uid: i64, email: String) -> (r: Option<Claims>)
        ensures
            r matches Some(c) ==> {
                &&& c.uid == uid
                &&& c.email == email
                &&& c.iss@ == ISSUER@
                &&& exists|now: i64|
                    0 <= now <= MAX_ISSUE_TIME && c.exp == #[trigger] ((now + TOKEN_LIFETIME_SECS) as usize)
            },
    {
        match unix_now() {
            Some(now) => if now <= MAX_ISSUE_TIME {
                Some(Self::issued_at(uid, email, now))
            } else {
                None
            },
            None => None,
        }
    }

    /// Whether the holder is an administrator.
    pub fn is_admin(&self) -> (r: bool)
        ensures
            r == spec_is_admin(self.uid),
    {
        self.uid <= ADMIN_MAX_ID
    }

    /// Passes for administrators only.
    pub fn require_admin(&self) -> (r: Result<(), AuthError>)
        ensures
            r.is_ok() <==> spec_is_admin(self.uid),
            r.is_err() ==> r == Err::<(), AuthError>(AuthError::AdminRequired),
    {
        if self.is_admin() {
            Ok(())
        } else {
            Err(AuthError::AdminRequired)
        }
    }

    /// Passes when `user` is the account the token was issued for.
    pub fn check_owner(&self, user: &AccountUser) -> (r: Result<(), AuthError>)
        ensures
            r.is_ok() <==> (user.id == self.uid && user.email@ == self.email@),
            r.is_err() ==> r == Err::<(), AuthError>(AuthError::TokenMismatch),
    {
        if user.id == self.uid && user.email == self.email {
            Ok(())
        } else {
            Err(AuthError::TokenMismatch)
        }
    }
}

/// Position of the account that `email` and `passwd` sign in to: the
/// account's key must be the one derived from `passwd` under its salt.
pub fn login(store: &AccountStore, email: &String, passwd: &String) -> (r: Result<usize, AuthError>)
    requires
        store.wf(),
    ensures
        (r == Err::<usize, AuthError>(AuthError::NotRegistered)) <==> !store.email_taken(email@),
        r matches Ok(i) ==> i < store.users@.len() && store.users@[i as int].email@ == email@
            && signs_in(store.users@[i as int].passwd_salt@, store.users@[i as int].passwd_hash@, passwd@),
        r is Ok <==> exists|i: int|
            0 <= i < store.users@.len() && #[trigger] store.users@[i].email@ == email@
                && signs_in(store.users@[i].passwd_salt@, store.users@[i].passwd_hash@, passwd@),
        r.is_ok() || r == Err::<usize, AuthError>(AuthError::NotRegistered) || r == Err::<
            usize,
            AuthError,
        >(AuthError::WrongPassword),
{
    let mut i: usize = 0;
    while i < store.users.len()
        invariant
            store.wf(),
            i <= store.users@.len(),
            forall|j: int| 0 <= j < i ==> #[trigger] store.users@[j].email@ != email@,
        decreases store.users@.len() - i,
    {
        if store.users[i].email == *email {
            if verify_password(&store.users[i].passwd_salt, &store.users[i].passwd_hash, passwd) {
                return Ok(i);
            }
            proof {
                assert forall|j: int|
                    0 <= j < store.users@.len() && #[trigger] store.users@[j].email@ == email@ implies j
                    == i by {
                    if j < i {
                    } else if j > i {
                        assert(store.users@[i as int].email@ != store.users@[j].email@);
                    }
                }
            }
            return Err(AuthError::WrongPassword);
        }
        i = i + 1;
    }
    Err(AuthError::NotRegistered)
}

} // verus!
