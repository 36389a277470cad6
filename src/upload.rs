//! Bookkeeping of the sysinfo upload: what was last uploaded, where, for whom
//! and when, and the rule that decides whether a tick uploads again.
use vstd::prelude::*;

verus! {

/// Milliseconds that must pass after a failed or unrecognised upload before
/// the next attempt.
pub const UPLOAD_SYSINFO_TIMEOUT_MS: u64 = 120000;

/// Time from `then` to `now` in milliseconds; zero when `now` is earlier.
pub open spec fn elapsed(now: u64, then: u64) -> u64 {
    if now >= then {
        (now - then) as u64
    } else {
        0
    }
}

/// State of the sysinfo upload. `last_uploaded` is the millisecond time of the
/// last attempt that did not succeed, or none.
pub struct InfoUploaded {
    pub uploaded: bool,
    pub url: String,
    pub last_uploaded: Option<u64>,
    pub id: String,
    pub username: Option<String>,
}

impl InfoUploaded {
    /// Nothing uploaded yet.
    pub open spec fn is_fresh(&self) -> bool {
        &&& !self.uploaded
        &&& self.url@.len() == 0
        &&& self.last_uploaded is None
        &&& self.id@.len() == 0
        &&& self.username is None
    }

    /// Nothing uploaded yet.
    pub fn new() -> (r: InfoUploaded)
        ensures
            r.is_fresh(),
    {
        InfoUploaded {
            uploaded: false,
            url: String::new(),
            last_uploaded: None,
            id: String::new(),
            username: None,
        }
    }

    /// A successful upload to `url` for `id` and `username`.
    pub fn uploaded(url: String, id: String, username: String) -> (r: InfoUploaded)
        ensures
            r.uploaded,
            r.url == url,
            r.id == id,
            r.last_uploaded is None,
            r.username == Some(username),
    {
        InfoUploaded { uploaded: true, url, last_uploaded: None, id, username: Some(username) }
    }

    /// The resend timeout no longer holds an upload back at `now`.
    pub open spec fn resend_allowed(&self, now: u64) -> bool {
        match self.last_uploaded {
            None => true,
            Some(t) => elapsed(now, t) >= UPLOAD_SYSINFO_TIMEOUT_MS,
        }
    }

    /// The recorded upload does not cover `username`.
    pub open spec fn outdated_for(&self, username: Seq<char>) -> bool {
        !self.uploaded || !(self.username is Some && self.username->0@ == username)
    }

    /// A sysinfo upload is due: the recorded upload does not cover the current
    /// user, the resend timeout has passed, and registration is not turned off.
    pub open spec fn upload_needed(&self, username: Seq<char>, now: u64, no_register: bool) -> bool {
        self.outdated_for(username) && self.resend_allowed(now) && !no_register
    }

    /// Whether a sysinfo upload is due at `now` for `username`.
    pub fn need_upload(&self, username: &String, now: u64, no_register: bool) -> (r: bool)
        ensures
            r == self.upload_needed(username@, now, no_register),
    {
        let outdated = !self.uploaded || match &self.username {
            Some(u) => !(*u == *username),
            None => true,
        };
        let resend = match self.last_uploaded {
            None => true,
            Some(t) => {
                let e = if now >= t {
                    now - t
                } else {
                    0
                };
                e >= UPLOAD_SYSINFO_TIMEOUT_MS
            },
        };
        outdated && resend && !no_register
    }
}

impl Default for InfoUploaded {
    fn default() -> (r: InfoUploaded)
        ensures
            r.is_fresh(),
    {
        InfoUploaded::new()
    }
}

} // verus!
