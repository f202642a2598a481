use vstd::prelude::*;
use vstd::utf8::encode_utf8;

use crate::digest::{bytes_after, hex, hex_text, sha256, sha256_digest};
use crate::receipt::opt_view;
use crate::text::{chars_of, joined3, owned, push_char, str_eq};

verus! {

/// How long a job capability stays valid, in seconds.
pub const TTL: u64 = 120;

/// The digest under which a job capability token is kept: the SHA-256 of
/// the token in lowercase hexadecimal.
pub fn digest(value: &str) -> (r: String)
    ensures
        r@ == hex(sha256_digest(encode_utf8(value@))),
{
    let data = bytes_after(&[], value);
    assert(data@ =~= encode_utf8(value@));
    let d = sha256(data.as_slice());
    let r = hex_text(d.as_slice(), 32);
    assert(d@.subrange(0, 32) =~= d@);
    r
}

/// Whether a job capability may be granted for a strand: the strand must
/// exist (`keeper` is its soul) and belong to the requesting soul.
pub fn granted(keeper: &Option<String>, soul: &str) -> (r: Result<(), String>)
    ensures
        match keeper {
            None => r matches Err(e) && e@ == "strand not found"@,
            Some(k) => if k@ == soul@ {
                r is Ok
            } else {
                r matches Err(e) && e@ == "job capability origin does not match strand owner"@
            },
        },
{
    match keeper {
        None => Err(owned("strand not found")),
        Some(k) => if str_eq(k.as_str(), soul) {
            Ok(())
        } else {
            Err(owned("job capability origin does not match strand owner"))
        },
    }
}

/// When a capability granted at `now` (in milliseconds) expires: `TTL`
/// seconds later, held at `i64::MAX`.
pub fn expires(now: i64) -> (r: i64)
    ensures
        r == (if now + 120000 > i64::MAX {
            i64::MAX as int
        } else {
            now + 120000
        }),
{
    if now > 9223372036854775807i64 - 120000 {
        9223372036854775807i64
    } else {
        now + 120000
    }
}

/// The system clock's time type, carried through opaquely.
#[verifier::external_type_specification]
#[verifier::external_body]
pub struct ExSystemTime(std::time::SystemTime);

/// `SystemTime::now`. Nothing is stated of the value: it is the time.
#[verifier::external_body]
fn system_now() -> (r: std::time::SystemTime) {
    std::time::SystemTime::now()
}

/// `SystemTime::duration_since(UNIX_EPOCH)`. Nothing is stated of the
/// duration; the error is the clock's message when the time stands before
/// the epoch.
#[verifier::external_body]
fn since_epoch(time: &std::time::SystemTime) -> (r: Result<std::time::Duration, String>) {
    time.duration_since(std::time::UNIX_EPOCH).map_err(|error| error.to_string())
}

/// `Duration::as_millis`. Nothing is stated of the count.
#[verifier::external_body]
fn duration_millis(elapsed: &std::time::Duration) -> (r: u128) {
    elapsed.as_millis()
}

/// Milliseconds of the clock as a stored signed number.
pub fn millis_of(elapsed: u128) -> (r: Result<i64, String>)
    ensures
        elapsed <= i64::MAX ==> r == Ok::<i64, String>(elapsed as i64),
        elapsed > i64::MAX ==> (r matches Err(e) && e@ == "system clock is out of range"@),
{
    if elapsed > 9223372036854775807u128 {
        Err(owned("system clock is out of range"))
    } else {
        Ok(elapsed as i64)
    }
}

/// The current time in milliseconds since the Unix epoch. Whatever the
/// clock says, a value that is returned fits the stored signed number.
pub fn epoch() -> (r: Result<i64, String>)
    ensures
        r matches Ok(v) ==> v >= 0,
{
    let time = system_now();
    match since_epoch(&time) {
        Ok(elapsed) => millis_of(duration_millis(&elapsed)),
        Err(e) => Err(e),
    }
}

/// When a job started at `millis` is next reminded, `seconds` later, in
/// milliseconds since the epoch.
pub fn future(millis: i64, seconds: u64) -> (r: Result<u64, String>)
    ensures
        millis < 0 ==> (r matches Err(e) && e@ == "job start time is out of range"@),
        millis >= 0 && seconds * 1000 > u64::MAX ==> (r matches Err(e) && e@
            == "job reminder interval is out of range"@),
        millis >= 0 && seconds * 1000 <= u64::MAX && millis + seconds * 1000 > u64::MAX ==> (r matches Err(
            e,
        ) && e@ == "job reminder time is out of range"@),
        millis >= 0 && millis + seconds * 1000 <= u64::MAX ==> r == Ok::<u64, String>(
            (millis + seconds * 1000) as u64,
        ),
{
    if millis < 0 {
        return Err(owned("job start time is out of range"));
    }
    let base = millis as u64;
    let delta = match seconds.checked_mul(1000) {
        Some(d) => d,
        None => return Err(owned("job reminder interval is out of range")),
    };
    match base.checked_add(delta) {
        Some(total) => Ok(total),
        None => Err(owned("job reminder time is out of range")),
    }
}

/// The supervisor unit of a job stamp: `santi-`, the stamp with `_` written
/// as `-`, and `.service`.
pub open spec fn sidecar_of(stamp: Seq<char>) -> Seq<char> {
    "santi-"@ + stamp.map_values(|c: char| if c == '_' {
        '-'
    } else {
        c
    }) + ".service"@
}

pub fn sidecar(stamp: &str) -> (r: String)
    ensures
        r@ == sidecar_of(stamp@),
{
    let chars = chars_of(stamp);
    let mut mid = String::new();
    let mut i: usize = 0;
    while i < chars.len()
        invariant
            i <= chars@.len(),
            chars@ == stamp@,
            mid@ == stamp@.subrange(0, i as int).map_values(|c: char| if c == '_' {
                '-'
            } else {
                c
            }),
        decreases chars.len() - i,
    {
        let c = chars[i];
        push_char(&mut mid, if c == '_' {
            '-'
        } else {
            c
        });
        i = i + 1;
        assert(mid@ =~= stamp@.subrange(0, i as int).map_values(|c: char| if c == '_' {
            '-'
        } else {
            c
        }));
    }
    assert(stamp@.subrange(0, stamp@.len() as int) =~= stamp@);
    joined3("santi-", mid.as_str(), ".service")
}

/// A job capability as stored: when it expires, the job that consumed it
/// and the digest of the request it was consumed with.
#[derive(Clone, Debug)]
pub struct Capability {
    pub expires: i64,
    pub consumed: Option<String>,
    pub accepted: Option<String>,
}

/// A job request, as far as its admission reads it.
#[derive(Clone, Debug)]
pub struct Entry {
    pub timeout: u64,
    pub output: u64,
    pub remind: Option<u64>,
    pub digest: String,
}

/// The stored limits of an admitted job.
#[derive(Clone, Copy, Debug, PartialEq, Eq, Structural)]
pub struct Limits {
    pub timeout: i64,
    pub output: i64,
    pub remind: Option<i64>,
}

/// What presenting a capability with a request does.
#[derive(Clone, Debug)]
pub enum Admission {
    /// The capability was consumed before by this very request: the job it
    /// made stands.
    Existing(String),
    /// A new job is created with these limits.
    New(Limits),
}

/// The admission of a job request presenting capability `held` at time `now`
/// (in milliseconds): an unknown capability is invalid; a consumed one
/// answers with its job when the request is the one it accepted and is
/// refused otherwise; an expired one is refused; the limits must fit the
/// store's signed columns.
pub fn admitted(held: &Option<Capability>, draft: &Entry, now: i64) -> (r: Result<Admission, String>)
    ensures
        held is None ==> (r matches Err(e) && e@ == "invalid job capability"@),
        held is Some && held->0.consumed is Some ==> if opt_view(held->0.accepted) == Some(
            draft.digest@,
        ) {
            r matches Ok(Admission::Existing(j)) && j@ == held->0.consumed->0@
        } else {
            r matches Err(e) && e@ == "job capability conflicts with its accepted request"@
        },
        held is Some && held->0.consumed is None ==> if now > held->0.expires {
            r matches Err(e) && e@ == "job capability expired"@
        } else if draft.timeout > i64::MAX {
            r matches Err(e) && e@ == "job timeout is out of range"@
        } else if draft.output > i64::MAX {
            r matches Err(e) && e@ == "job output limit is out of range"@
        } else if draft.remind matches Some(m) && m > i64::MAX {
            r matches Err(e) && e@ == "job reminder interval is out of range"@
        } else {
            r matches Ok(Admission::New(l)) && l.timeout == draft.timeout && l.output
                == draft.output && match draft.remind {
                Some(m) => l.remind == Some(m as i64),
                None => l.remind is None,
            }
        },
{
    let c = match held {
        Some(c) => c,
        None => return Err(owned("invalid job capability")),
    };
    if let Some(job) = &c.consumed {
        let same = match &c.accepted {
            Some(a) => str_eq(a.as_str(), draft.digest.as_str()),
            None => false,
        };
        if !same {
            return Err(owned("job capability conflicts with its accepted request"));
        }
        return Ok(Admission::Existing(job.clone()));
    }
    if now > c.expires {
        return Err(owned("job capability expired"));
    }
    if draft.timeout > 9223372036854775807u64 {
        return Err(owned("job timeout is out of range"));
    }
    if draft.output > 9223372036854775807u64 {
        return Err(owned("job output limit is out of range"));
    }
    let remind = match draft.remind {
        Some(m) => {
            if m > 9223372036854775807u64 {
                return Err(owned("job reminder interval is out of range"));
            }
            Some(m as i64)
        },
        None => None,
    };
    Ok(Admission::New(Limits { timeout: draft.timeout as i64, output: draft.output as i64, remind }))
}

/// The admission of a job request, reading the clock only
/// for a capability not yet consumed. Whatever the clock says, a consumed
/// capability is answered as `admitted` answers it.
pub fn prepare(held: &Option<Capability>, draft: &Entry) -> (r: Result<Admission, String>)
    ensures
        held is None ==> (r matches Err(e) && e@ == "invalid job capability"@),
        held is Some && held->0.consumed is Some ==> if opt_view(held->0.accepted) == Some(
            draft.digest@,
        ) {
            r matches Ok(Admission::Existing(j)) && j@ == held->0.consumed->0@
        } else {
            r matches Err(e) && e@ == "job capability conflicts with its accepted request"@
        },
        r matches Ok(Admission::New(l)) ==> (held is Some && held->0.consumed is None
            && l.timeout == draft.timeout && l.output == draft.output),
{
    match held {
        Some(c) => {
            if c.consumed.is_none() {
                let now = epoch()?;
                admitted(held, draft, now)
            } else {
                admitted(held, draft, 0)
            }
        },
        None => admitted(held, draft, 0),
    }
}

} // verus!
