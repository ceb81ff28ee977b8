//! The credential resolver: derives a username/password pair from explicit
//! values or from the first line of a Bitcoin Core cookie file.
//!
//! Opening and reading the cookie file is the transport's job; the resolver
//! takes the outcome of that read and does everything else, so that the
//! distinction between an I/O failure and a malformed file is decided here.

use vstd::prelude::*;
use vstd::string::StrSliceExecFns;
use crate::error::Error;

verus! {

/// How the client authenticates against the node.
#[derive(Clone, Debug)]
pub enum Auth {
    /// An explicit username and password.
    UserPass(String, String),
    /// The path of a cookie file whose first line is `username:password`.
    CookieFile(String),
}

/// Whether `s` contains a colon.
pub open spec fn has_colon(s: Seq<char>) -> bool {
    exists|j: int| 0 <= j < s.len() && s[j] == ':'
}

/// Splits a cookie line at its first colon into username and password.
/// A line without a colon is malformed.
pub fn cookie_user_pass(line: &str) -> (r: Result<(Option<String>, Option<String>), Error>)
    ensures
        if has_colon(line@) {
            exists|i: int|
                {
                    &&& 0 <= i < line@.len()
                    &&& #[trigger] line@[i] == ':'
                    &&& forall|j: int| 0 <= j < i ==> line@[j] != ':'
                    &&& r matches Ok((u, p))
                    &&& u matches Some(us) && us@ == line@.subrange(0, i)
                    &&& p matches Some(ps) && ps@ == line@.subrange(i + 1, line@.len() as int)
                }
        } else {
            r == Err::<(Option<String>, Option<String>), Error>(Error::InvalidCookieFile)
        },
{
    let n = line.unicode_len();
    let mut i: usize = 0;
    while i < n
        invariant
            0 <= i <= n,
            n == line@.len(),
            forall|j: int| 0 <= j < i ==> line@[j] != ':',
        decreases n - i,
    {
        if line.get_char(i) == ':' {
            let user = line.substring_char(0, i).to_owned();
            let pass = line.substring_char(i + 1, n).to_owned();
            return Ok((Some(user), Some(pass)));
        }
        i += 1;
    }
    Err(Error::InvalidCookieFile)
}

impl Auth {
    /// Converts `Auth` into the optional username and password strings
    /// required by a JSON-RPC transport.
    ///
    /// `cookie_read` is the outcome of reading the first line of the cookie
    /// file: the line when there was one, `Ok(None)` when the file was empty,
    /// and the cause text of the I/O failure otherwise.  It is consulted only
    /// by the `CookieFile` variant.  An unreadable file fails with the
    /// I/O kind; an empty file, or a first line without a colon, fails with
    /// the malformed-cookie kind; otherwise the first colon splits the line
    /// into username and password.
    pub fn get_user_pass(self, cookie_read: Result<Option<String>, String>) -> (r: Result<
        (Option<String>, Option<String>),
        Error,
    >)
        ensures
            match self {
                Auth::UserPass(user, pass) => r == Ok::<(Option<String>, Option<String>), Error>(
                    (Some(user), Some(pass)),
                ),
                Auth::CookieFile(_) => match cookie_read {
                    Err(cause) => r == Err::<(Option<String>, Option<String>), Error>(
                        Error::Io(cause),
                    ),
                    Ok(None) => r == Err::<(Option<String>, Option<String>), Error>(
                        Error::InvalidCookieFile,
                    ),
                    Ok(Some(line)) => if has_colon(line@) {
                        exists|i: int|
                            {
                                &&& 0 <= i < line@.len()
                                &&& #[trigger] line@[i] == ':'
                                &&& forall|j: int| 0 <= j < i ==> line@[j] != ':'
                                &&& r matches Ok((u, p))
                                &&& u matches Some(us) && us@ == line@.subrange(0, i)
                                &&& p matches Some(ps) && ps@ == line@.subrange(
                                    i + 1,
                                    line@.len() as int,
                                )
                            }
                    } else {
                        r == Err::<(Option<String>, Option<String>), Error>(
                            Error::InvalidCookieFile,
                        )
                    },
                },
            },
    {
        match self {
            Auth::UserPass(user, pass) => Ok((Some(user), Some(pass))),
            Auth::CookieFile(_) => match cookie_read {
                Err(cause) => Err(Error::Io(cause)),
                Ok(None) => Err(Error::InvalidCookieFile),
                Ok(Some(line)) => cookie_user_pass(line.as_str()),
            },
        }
    }
}

} // verus!
