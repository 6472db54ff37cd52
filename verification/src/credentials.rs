//! Which credentials the daemon starts with.

use vstd::prelude::*;
use vstd::utf8::encode_utf8;
use crate::main_loop::Credentials;

verus! {

/// The protocol's number for a blob that is the user's password.
pub const AUTH_USER_PASS: i32 = 0;

/// The outcome of looking for credentials at startup.
#[derive(Clone, Debug, PartialEq, Eq)]
pub enum Resolution {
    /// Connect with these.
    Use(Credentials),
    /// A user is named, but there is neither a password nor stored
    /// credentials of that user.
    NoPassword,
    /// No user is named and nothing is stored: wait for discovery.
    Absent,
}

/// `c` logs `username` in by `password`.
pub open spec fn is_password_login(c: Credentials, username: Seq<char>, password: Seq<char>) -> bool {
    &&& c.username@ == username
    &&& c.auth_type == AUTH_USER_PASS
    &&& c.auth_data@ == encode_utf8(password)
}

/// Whether `r` is the outcome for the configured user and password and the
/// credentials stored earlier. A password given for a named user wins;
/// stored credentials serve a named user only if they are that user's; with
/// no user named, whatever is stored is taken.
pub open spec fn resolves_to(
    r: Resolution,
    username: Option<String>,
    password: Option<String>,
    cached: Option<Credentials>,
) -> bool {
    match username {
        Some(u) => match password {
            Some(p) => r matches Resolution::Use(c) && is_password_login(c, u@, p@),
            None => match cached {
                Some(k) => if k.username@ == u@ {
                    r == Resolution::Use(k)
                } else {
                    r is NoPassword
                },
                None => r is NoPassword,
            },
        },
        None => match cached {
            Some(k) => r == Resolution::Use(k),
            None => r is Absent,
        },
    }
}

/// Builds credentials from a password by
/// `librespot::core::authentication::Credentials::with_password`, which keeps
/// the user's name, marks the blob as a password (number 0 among the
/// protocol's authentication types), and takes the password's UTF-8 bytes
/// as the blob.
#[verifier::external_body]
fn with_password(username: String, password: String) -> (r: Credentials)
    ensures
        is_password_login(r, username@, password@),
{
    let made = librespot::core::authentication::Credentials::with_password(username, password);
    Credentials {
        username: made.username,
        auth_type: made.auth_type as i32,
        auth_data: made.auth_data,
    }
}

/// Whether the keyring is to be asked for a password: only for a named
/// user, and only where the configuration allows it.
pub fn wants_keyring(username: &Option<String>, use_keyring: bool) -> (r: bool)
    ensures
        r == (username is Some && use_keyring),
{
    username.is_some() && use_keyring
}

/// Settles the credentials to start with.
pub fn resolve_credentials(
    username: Option<String>,
    password: Option<String>,
    cached: Option<Credentials>,
) -> (r: Resolution)
    ensures
        resolves_to(r, username, password, cached),
{
    match username {
        Some(u) => match password {
            Some(p) => Resolution::Use(with_password(u, p)),
            None => match cached {
                Some(k) => if k.username == u {
                    Resolution::Use(k)
                } else {
                    Resolution::NoPassword
                },
                None => Resolution::NoPassword,
            },
        },
        None => match cached {
            Some(k) => Resolution::Use(k),
            None => Resolution::Absent,
        },
    }
}

} // verus!
