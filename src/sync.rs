//! One tick of the heartbeat loop as a sequence of decisions. Each step takes
//! the loop state and what the outside world answered, and says what to do
//! next; the caller performs the requests and the storage writes.
use vstd::prelude::*;
use vstd::string::StringExecFns;
use crate::fingerprint::{fingerprint, fingerprint_of};
use crate::options::StrategyOptions;
use crate::text::{stamp_of, stamp_value};
use crate::upload::{elapsed, InfoUploaded};

verus! {

/// Milliseconds between two heartbeats while no session is active.
pub const TIME_HEARTBEAT_MS: u64 = 15000;

/// Milliseconds between two ticks, and before the first one.
pub const TIME_CONN_MS: u64 = 3000;

/// State owned by the loop.
pub struct SyncState {
    pub info: InfoUploaded,
    /// Millisecond time at which the last heartbeat was sent.
    pub last_sent: Option<u64>,
    /// Version string last returned by the sysinfo version endpoint.
    pub sysinfo_ver: String,
    /// The server supports the sysinfo version protocol.
    pub pro: bool,
}

/// How a sysinfo upload starts.
pub struct UploadPlan {
    /// Fingerprint of the upload; empty for a private server.
    pub hash: String,
    /// Ask the version endpoint before posting.
    pub check_version: bool,
}

/// Body of a heartbeat request.
pub struct HeartbeatRequest {
    pub id: String,
    pub uuid: String,
    pub ver: i64,
    pub conns: Option<Vec<i32>>,
    pub modified_at: i64,
}

/// The directives found in a heartbeat reply.
pub struct HeartbeatReply {
    /// The `sysinfo` key was present.
    pub sysinfo: bool,
    /// The `disconnect` key held a list of integers.
    pub disconnect: Option<Vec<i32>>,
    /// The `modified_at` key held an integer.
    pub modified_at: Option<i64>,
    /// The `strategy` key held a strategy.
    pub strategy: Option<StrategyOptions>,
}

/// What the caller does after a heartbeat reply.
pub struct ReplyEffects {
    /// Erase the stored fingerprint.
    pub clear_hash: bool,
    /// Publish these session ids on the disconnect bus.
    pub disconnect: Option<Vec<i32>>,
    /// Store this settings version stamp.
    pub new_stamp: Option<i64>,
    /// Merge these option changes into the stored options.
    pub config_options: Option<Vec<(String, String)>>,
}

/// The sysinfo upload response that confirms the upload.
pub open spec fn updated_reply() -> Seq<char> {
    seq!['S', 'Y', 'S', 'I', 'N', 'F', 'O', '_', 'U', 'P', 'D', 'A', 'T', 'E', 'D']
}

/// The sysinfo upload response for an id that the server does not know.
pub open spec fn not_found_reply() -> Seq<char> {
    seq!['I', 'D', '_', 'N', 'O', 'T', '_', 'F', 'O', 'U', 'N', 'D']
}

/// Whether the server supports the sysinfo version protocol, as last learned.
pub fn is_pro(state: &SyncState) -> (r: bool)
    ensures
        r == state.pro,
{
    state.pro
}

impl SyncState {
    /// State at start-up: nothing uploaded, nothing sent, no version known.
    pub open spec fn is_initial(&self) -> bool {
        &&& self.info.is_fresh()
        &&& self.last_sent is None
        &&& self.sysinfo_ver@.len() == 0
        &&& !self.pro
    }

    /// State at start-up.
    pub fn new() -> (r: SyncState)
        ensures
            r.is_initial(),
    {
        SyncState { info: InfoUploaded::new(), last_sent: None, sysinfo_ver: String::new(), pro: false }
    }

    /// First check of a tick. With no heartbeat endpoint the flag is cleared and
    /// the tick ends; when the service is stopped the tick ends too.
    pub fn tick_gate(&mut self, url: &str, stop_service: bool) -> (go: bool)
        ensures
            go == (url@.len() > 0 && !stop_service),
            final(self).pro == (old(self).pro && url@.len() > 0),
            final(self).info == old(self).info,
            final(self).last_sent == old(self).last_sent,
            final(self).sysinfo_ver == old(self).sysinfo_ver,
    {
        if url.is_empty() {
            self.pro = false;
            return false;
        }
        !stop_service
    }

    /// Drops a recorded upload made to another endpoint or for another id, and
    /// clears the flag with it.
    pub fn invalidate_stale(&mut self, url: &String, id: &String)
        ensures
            final(self).is_invalidated(*old(self), url@, id@),
    {
        if self.info.uploaded && (!(*url == self.info.url) || !(*id == self.info.id)) {
            self.info.uploaded = false;
            self.pro = false;
        }
    }

    /// `self` is `before` once a recorded upload that no longer matches `url`
    /// and `id` has been dropped.
    pub open spec fn is_invalidated(&self, before: SyncState, url: Seq<char>, id: Seq<char>) -> bool {
        let stale = before.info.uploaded && (url != before.info.url@ || id != before.info.id@);
        &&& self.info.uploaded == (before.info.uploaded && !stale)
        &&& self.pro == (before.pro && !stale)
        &&& self.info.url == before.info.url
        &&& self.info.id == before.info.id
        &&& self.info.last_uploaded == before.info.last_uploaded
        &&& self.info.username == before.info.username
        &&& self.last_sent == before.last_sent
        &&& self.sysinfo_ver == before.sysinfo_ver
    }

    /// Answer of the version endpoint. When it answered, its version is kept
    /// and the flag set; when that version equals the stored one the upload is
    /// recorded as done and the result says so (the tick then ends).
    pub fn on_version_reply(
        &mut self,
        reply: Option<String>,
        stored_ver: &String,
        url: &String,
        id: &String,
        username: &String,
    ) -> (same: bool)
        ensures
            same == skips_post(reply, stored_ver@),
            reply is None ==> *final(self) == *old(self),
            reply is Some ==> {
                &&& final(self).sysinfo_ver == reply->0
                &&& final(self).pro
                &&& final(self).last_sent == old(self).last_sent
                &&& same ==> final(self).info.uploaded && final(self).info.url == *url
                    && final(self).info.id == *id && final(self).info.username == Some(*username)
                    && final(self).info.last_uploaded is None
                &&& !same ==> final(self).info == old(self).info
            },
    {
        match reply {
            None => false,
            Some(v) => {
                let same = v == *stored_ver;
                self.sysinfo_ver = v;
                self.pro = true;
                if same {
                    self.info = InfoUploaded::uploaded(url.clone(), id.clone(), username.clone());
                }
                same
            },
        }
    }

    /// Answer of the sysinfo upload (`None` when the request failed). On
    /// confirmation the upload is recorded, the flag set, and, when a
    /// fingerprint was taken, the fingerprint and version to store are
    /// returned. An unknown id lifts the resend timeout; any other answer
    /// starts it at `now`.
    pub fn on_sysinfo_reply(
        &mut self,
        reply: Option<String>,
        hash: &String,
        url: &String,
        id: &String,
        username: &String,
        now: u64,
    ) -> (store: Option<(String, String)>)
        ensures
            final(self).last_sent == old(self).last_sent,
            final(self).sysinfo_ver == old(self).sysinfo_ver,
            reply is Some && reply->0@ == updated_reply() ==> {
                &&& final(self).info.uploaded
                &&& final(self).info.url == *url
                &&& final(self).info.id == *id
                &&& final(self).info.username == Some(*username)
                &&& final(self).info.last_uploaded is None
                &&& final(self).pro
                &&& store == if hash@.len() > 0 {
                    Some((*hash, old(self).sysinfo_ver))
                } else {
                    None::<(String, String)>
                }
            },
            reply is Some && reply->0@ == not_found_reply() ==> {
                &&& final(self).info.last_uploaded is None
                &&& final(self).info.uploaded == old(self).info.uploaded
                &&& final(self).info.url == old(self).info.url
                &&& final(self).info.id == old(self).info.id
                &&& final(self).info.username == old(self).info.username
                &&& final(self).pro == old(self).pro
                &&& store is None
            },
            !(reply is Some && (reply->0@ == updated_reply() || reply->0@ == not_found_reply()))
                ==> {
                &&& final(self).info.last_uploaded == Some(now)
                &&& final(self).info.uploaded == old(self).info.uploaded
                &&& final(self).info.url == old(self).info.url
                &&& final(self).info.id == old(self).info.id
                &&& final(self).info.username == old(self).info.username
                &&& final(self).pro == old(self).pro
                &&& store is None
            },
    {
        let updated = String::from_str("SYSINFO_UPDATED");
        let not_found = String::from_str("ID_NOT_FOUND");
        proof {
            reveal_strlit("SYSINFO_UPDATED");
            reveal_strlit("ID_NOT_FOUND");
        }
        assert(updated@ =~= updated_reply());
        assert(not_found@ =~= not_found_reply());
        match reply {
            Some(x) => {
                if x == updated {
                    self.info = InfoUploaded::uploaded(url.clone(), id.clone(), username.clone());
                    self.pro = true;
                    if hash.as_str().is_empty() {
                        None
                    } else {
                        Some((hash.clone(), self.sysinfo_ver.clone()))
                    }
                } else if x == not_found {
                    self.info.last_uploaded = None;
                    None
                } else {
                    self.info.last_uploaded = Some(now);
                    None
                }
            },
            None => {
                self.info.last_uploaded = Some(now);
                None
            },
        }
    }

    /// Whether the heartbeat is sent at `now`: it is held back only while no
    /// session is active and the last one went out less than the heartbeat
    /// interval ago. When it is sent, `now` is recorded.
    pub fn heartbeat_due(&mut self, conns: &Vec<i32>, now: u64) -> (send: bool)
        ensures
            send == !(conns@.len() == 0 && old(self).last_sent is Some && elapsed(
                now,
                old(self).last_sent->0,
            ) < TIME_HEARTBEAT_MS),
            final(self).last_sent == if send {
                Some(now)
            } else {
                old(self).last_sent
            },
            final(self).info == old(self).info,
            final(self).sysinfo_ver == old(self).sysinfo_ver,
            final(self).pro == old(self).pro,
    {
        let hold = match self.last_sent {
            Some(t) => {
                let e = if now >= t {
                    now - t
                } else {
                    0
                };
                conns.len() == 0 && e < TIME_HEARTBEAT_MS
            },
            None => false,
        };
        if hold {
            false
        } else {
            self.last_sent = Some(now);
            true
        }
    }

    /// Applies a heartbeat reply: a `sysinfo` directive drops the recorded
    /// upload and asks to erase the fingerprint; a disconnect list is passed
    /// on; a stamp that differs from the one sent is to be stored; a strategy's
    /// option changes are to be merged.
    pub fn on_heartbeat_reply(&mut self, reply: HeartbeatReply, sent_modified_at: i64) -> (r:
        ReplyEffects)
        ensures
            r.clear_hash == reply.sysinfo,
            final(self).info.uploaded == (old(self).info.uploaded && !reply.sysinfo),
            final(self).info.url == old(self).info.url,
            final(self).info.id == old(self).info.id,
            final(self).info.last_uploaded == old(self).info.last_uploaded,
            final(self).info.username == old(self).info.username,
            final(self).last_sent == old(self).last_sent,
            final(self).sysinfo_ver == old(self).sysinfo_ver,
            final(self).pro == old(self).pro,
            r.disconnect == reply.disconnect,
            r.new_stamp == match reply.modified_at {
                Some(m) => if m != sent_modified_at {
                    Some(m)
                } else {
                    None
                },
                None => None,
            },
            r.config_options == match reply.strategy {
                Some(s) => Some(s.config_options),
                None => None,
            },
    {
        if reply.sysinfo {
            self.info.uploaded = false;
        }
        let new_stamp = match reply.modified_at {
            Some(m) => if m != sent_modified_at {
                Some(m)
            } else {
                None
            },
            None => None,
        };
        let config_options = match reply.strategy {
            Some(s) => Some(s.config_options),
            None => None,
        };
        ReplyEffects {
            clear_hash: reply.sysinfo,
            disconnect: reply.disconnect,
            new_stamp,
            config_options,
        }
    }
}

/// The version endpoint is asked before posting: the server is shared and the
/// fingerprint equals the stored one.
pub open spec fn checks_version(public: bool, url: &str, payload: &str, stored_hash: Seq<char>) -> bool {
    public && fingerprint_of(url, payload) == stored_hash
}

/// The version endpoint answered with the stored version, so the post is
/// skipped.
pub open spec fn skips_post(reply: Option<String>, stored_ver: Seq<char>) -> bool {
    reply is Some && reply->0@ == stored_ver
}

/// On a shared server, once an upload was confirmed and its fingerprint
/// stored, the next upload of the same bytes to the same endpoint asks the
/// version endpoint, and posts again exactly when the version it reports
/// differs from the stored one.
pub proof fn lemma_unchanged_snapshot_skips_post(
    url: &str,
    payload: &str,
    first: UploadPlan,
    stored_hash: String,
    stored_ver: String,
    reply: Option<String>,
)
    requires
        first.hash@ == fingerprint_of(url, payload),
        stored_hash == first.hash,
        reply is Some,
    ensures
        checks_version(true, url, payload, stored_hash@),
        skips_post(reply, stored_ver@) <==> reply->0@ == stored_ver@,
{
}

/// A sysinfo reply of `ID_NOT_FOUND` leaves no resend timeout: at any later
/// time the upload is due as soon as the recorded upload does not cover the
/// user and registration is allowed.
pub proof fn lemma_not_found_retries_at_once(
    before: SyncState,
    after: SyncState,
    username: Seq<char>,
    now: u64,
    no_register: bool,
)
    requires
        after.info.last_uploaded is None,
        after.info.uploaded == before.info.uploaded,
        after.info.username == before.info.username,
    ensures
        after.info.upload_needed(username, now, no_register) == (before.info.outdated_for(username)
            && !no_register),
{
}

/// A recorded upload to another endpoint or for another id counts as no
/// upload: after the check, the upload is due whenever the resend timeout and
/// the registration setting allow it, whatever the user.
pub proof fn lemma_stale_upload_redone(
    before: SyncState,
    after: SyncState,
    url: Seq<char>,
    id: Seq<char>,
    username: Seq<char>,
    now: u64,
    no_register: bool,
)
    requires
        after.is_invalidated(before, url, id),
        url != before.info.url@ || id != before.info.id@,
    ensures
        !after.info.uploaded,
        after.info.upload_needed(username, now, no_register) == (before.info.resend_allowed(now)
            && !no_register),
{
}

/// Fields added to a sysinfo snapshot before upload: the non-empty presets,
/// in order.
pub open spec fn present_fields(presets: Seq<(String, String)>) -> Seq<(String, String)>
    decreases presets.len(),
{
    if presets.len() == 0 {
        Seq::empty()
    } else {
        let rest = present_fields(presets.drop_last());
        if presets.last().1@.len() > 0 {
            rest.push(presets.last())
        } else {
            rest
        }
    }
}

/// The preset fields that go into an upload: those with a non-empty value.
pub fn preset_fields(presets: &Vec<(String, String)>) -> (r: Vec<(String, String)>)
    ensures
        r@ == present_fields(presets@),
{
    let mut r: Vec<(String, String)> = Vec::new();
    let mut i: usize = 0;
    while i < presets.len()
        invariant
            i <= presets@.len(),
            r@ == present_fields(presets@.subrange(0, i as int)),
        decreases presets.len() - i,
    {
        assert(presets@.subrange(0, i + 1).drop_last() =~= presets@.subrange(0, i as int));
        assert(presets@.subrange(0, i + 1).last() == presets@[i as int]);
        if !presets[i].1.as_str().is_empty() {
            r.push((presets[i].0.clone(), presets[i].1.clone()));
        }
        i = i + 1;
    }
    assert(presets@.subrange(0, presets@.len() as int) =~= presets@);
    r
}

/// How an upload starts. For a shared server the fingerprint of `payload` sent
/// to `url` is taken; when it equals the stored one the version endpoint is
/// asked first. A private server gets the post, with no fingerprint.
pub fn plan_upload(public: bool, url: &str, payload: &str, stored_hash: &String) -> (r: UploadPlan)
    ensures
        r.hash@ == if public {
            fingerprint_of(url, payload)
        } else {
            Seq::empty()
        },
        r.check_version == checks_version(public, url, payload, stored_hash@),
{
    if !public {
        return UploadPlan { hash: String::new(), check_version: false };
    }
    let hash = fingerprint(url, payload);
    let same = hash == *stored_hash;
    UploadPlan { hash, check_version: same }
}

/// Body of the heartbeat: the session list only when it is not empty, and the
/// stored settings stamp read as an integer (0 when it does not parse).
pub fn heartbeat_request(id: &String, uuid: &String, ver: i64, conns: &Vec<i32>, stamp: &str) -> (r:
    HeartbeatRequest)
    ensures
        r.id == *id,
        r.uuid == *uuid,
        r.ver == ver,
        r.conns is Some == (conns@.len() > 0),
        r.conns is Some ==> r.conns->0@ == conns@,
        r.modified_at == stamp_of(stamp@),
{
    let c = if conns.len() > 0 {
        let v = conns.clone();
        assert(v@ =~= conns@);
        Some(v)
    } else {
        None
    };
    HeartbeatRequest {
        id: id.clone(),
        uuid: uuid.clone(),
        ver,
        conns: c,
        modified_at: stamp_value(stamp),
    }
}

} // verus!
