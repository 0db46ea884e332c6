//! Cookies of the Win32 web view: the fields a cookie carries, how they are
//! read from and given to the web view, and when the web view's values are
//! refused.

use vstd::prelude::*;

verus! {

/// `COREWEBVIEW2_COOKIE_SAME_SITE_KIND_NONE`.
pub const SAME_SITE_KIND_NONE: i32 = 0;
/// `COREWEBVIEW2_COOKIE_SAME_SITE_KIND_LAX`.
pub const SAME_SITE_KIND_LAX: i32 = 1;
/// `COREWEBVIEW2_COOKIE_SAME_SITE_KIND_STRICT`.
pub const SAME_SITE_KIND_STRICT: i32 = 2;

/// The first second a date-time of the `time` crate can hold, as a Unix
/// timestamp: the start of the year -9999.
pub const MIN_UNIX_TIMESTAMP: i64 = -377_705_116_800;
/// The last second a date-time of the `time` crate can hold, as a Unix
/// timestamp: the end of the year 9999.
pub const MAX_UNIX_TIMESTAMP: i64 = 253_402_300_799;

/// The same-site policy of a cookie.
#[derive(Debug, Clone, Copy, PartialEq, Eq, Structural)]
pub enum SameSite {
    Strict,
    Lax,
    /// Sent with cross-site requests too.
    NoRestriction,
}

/// When a cookie expires.
#[derive(Debug, Clone, Copy, PartialEq, Eq, Structural)]
pub enum Expiration {
    /// At the end of the session.
    Session,
    /// At this Unix timestamp, in seconds.
    DateTime(i64),
}

/// Why a cookie of the web view cannot be read.
#[derive(Debug, Clone, Copy, PartialEq, Eq, Structural)]
pub enum CookieError {
    /// A field holds a value out of its range (`E_INVALIDARG`).
    InvalidArg,
}

/// Whether `OffsetDateTime::from_unix_timestamp` of the `time` crate accepts
/// `timestamp`. Its source checks the timestamp against the range from the
/// first moment of `Date::MIN` to the last of `Date::MAX`; without the
/// `large-dates` feature, which this crate does not turn on, those are the
/// years -9999 and 9999.
#[verifier::external_body]
fn unix_timestamp_representable(timestamp: i64) -> (ok: bool)
    ensures
        ok == (MIN_UNIX_TIMESTAMP <= timestamp <= MAX_UNIX_TIMESTAMP),
{
    time::OffsetDateTime::from_unix_timestamp(timestamp).is_ok()
}

/// The same-site policy of a web view kind; `None` for a kind out of range.
pub open spec fn spec_same_site_from_kind(kind: i32) -> Option<SameSite> {
    if kind == SAME_SITE_KIND_LAX {
        Some(SameSite::Lax)
    } else if kind == SAME_SITE_KIND_STRICT {
        Some(SameSite::Strict)
    } else if kind == SAME_SITE_KIND_NONE {
        Some(SameSite::NoRestriction)
    } else {
        None
    }
}

/// The same-site policy of a web view kind; `None` for a kind out of range.
pub fn same_site_from_kind(kind: i32) -> (s: Option<SameSite>)
    ensures
        s == spec_same_site_from_kind(kind),
{
    if kind == SAME_SITE_KIND_LAX {
        Some(SameSite::Lax)
    } else if kind == SAME_SITE_KIND_STRICT {
        Some(SameSite::Strict)
    } else if kind == SAME_SITE_KIND_NONE {
        Some(SameSite::NoRestriction)
    } else {
        None
    }
}

/// The web view kind of a same-site policy: lax when none is set.
pub open spec fn spec_same_site_kind(s: Option<SameSite>) -> i32 {
    match s {
        Some(SameSite::Strict) => SAME_SITE_KIND_STRICT,
        Some(SameSite::NoRestriction) => SAME_SITE_KIND_NONE,
        _ => SAME_SITE_KIND_LAX,
    }
}

/// The web view kind of a same-site policy: lax when none is set.
pub fn same_site_kind(s: Option<SameSite>) -> (k: i32)
    ensures
        k == spec_same_site_kind(s),
{
    match s {
        Some(SameSite::Strict) => SAME_SITE_KIND_STRICT,
        Some(SameSite::NoRestriction) => SAME_SITE_KIND_NONE,
        _ => SAME_SITE_KIND_LAX,
    }
}

/// The same-site policy the web view sets with `kind`: lax for any kind but
/// strict and none.
pub fn same_site_set_by_kind(kind: i32) -> (s: SameSite)
    ensures
        s == (if kind == SAME_SITE_KIND_STRICT {
            SameSite::Strict
        } else if kind == SAME_SITE_KIND_NONE {
            SameSite::NoRestriction
        } else {
            SameSite::Lax
        }),
{
    if kind == SAME_SITE_KIND_STRICT {
        SameSite::Strict
    } else if kind == SAME_SITE_KIND_NONE {
        SameSite::NoRestriction
    } else {
        SameSite::Lax
    }
}

/// The expiration the web view gives: the end of the session, or the Unix
/// timestamp `seconds`, refused when a date-time cannot hold it.
pub fn expiration_from_web_view(seconds: i64, session: bool) -> (e: Result<Expiration, CookieError>)
    ensures
        session ==> e == Ok::<Expiration, CookieError>(Expiration::Session),
        !session ==> e == (if MIN_UNIX_TIMESTAMP <= seconds <= MAX_UNIX_TIMESTAMP {
            Ok(Expiration::DateTime(seconds))
        } else {
            Err(CookieError::InvalidArg)
        }),
{
    if session {
        Ok(Expiration::Session)
    } else if unix_timestamp_representable(seconds) {
        Ok(Expiration::DateTime(seconds))
    } else {
        Err(CookieError::InvalidArg)
    }
}

/// The Unix timestamp the web view is told a cookie expires at: `None` (told
/// as -1) for a session cookie or one with no expiration.
pub fn expires_timestamp(e: Option<Expiration>) -> (t: Option<i64>)
    ensures
        t == match e {
            Some(Expiration::DateTime(s)) => Some(s),
            _ => None,
        },
{
    match e {
        Some(Expiration::DateTime(s)) => Some(s),
        _ => None,
    }
}

/// Whether a cookie lasts for the session: only when its expiration says so.
pub fn is_session(e: Option<Expiration>) -> (b: bool)
    ensures
        b == (e == Some(Expiration::Session)),
{
    match e {
        Some(Expiration::Session) => true,
        _ => false,
    }
}

/// A cookie, by the fields the web view reads and sets; a field that was
/// never set is `None`.
#[derive(Debug, Clone)]
pub struct CookieRecord {
    pub name: String,
    pub value: String,
    pub domain: Option<String>,
    pub path: Option<String>,
    pub expires: Option<Expiration>,
    pub secure: Option<bool>,
    pub http_only: Option<bool>,
    pub same_site: Option<SameSite>,
}

/// A domain as a cookie reports it: one leading dot is left out.
pub open spec fn spec_without_leading_dot(d: Seq<char>) -> Seq<char> {
    if d.len() > 0 && d[0] == '.' {
        d.drop_first()
    } else {
        d
    }
}

/// A domain as a cookie reports it: one leading dot is left out.
pub fn without_leading_dot(d: &str) -> (r: String)
    ensures
        r@ == spec_without_leading_dot(d@),
{
    let n = d.unicode_len();
    if n > 0 && d.get_char(0) == '.' {
        let rest = d.substring_char(1, n);
        proof {
            assert(rest@ =~= d@.drop_first());
        }
        String::from_str(rest)
    } else {
        String::from_str(d)
    }
}

/// The text of an optional field, empty when it is not set.
pub open spec fn text_or_empty(s: Option<String>) -> Seq<char> {
    match s {
        Some(t) => t@,
        None => Seq::<char>::empty(),
    }
}

impl CookieRecord {
    /// A cookie with a name and a value and no other field set.
    pub fn new(name: &str, value: &str) -> (c: Self)
        ensures
            c.name@ == name@,
            c.value@ == value@,
            c.domain is None,
            c.path is None,
            c.expires is None,
            c.secure is None,
            c.http_only is None,
            c.same_site is None,
    {
        CookieRecord {
            name: String::from_str(name),
            value: String::from_str(value),
            domain: None,
            path: None,
            expires: None,
            secure: None,
            http_only: None,
            same_site: None,
        }
    }

    /// The domain the web view is told: the domain as a cookie reports it,
    /// without one leading dot, or empty when none is set.
    pub fn domain_or_empty(&self) -> (d: String)
        ensures
            d@ == spec_without_leading_dot(text_or_empty(self.domain)),
    {
        match &self.domain {
            Some(d) => without_leading_dot(d.as_str()),
            None => String::new(),
        }
    }

    /// The path the web view is told: empty when none is set.
    pub fn path_or_empty(&self) -> (p: String)
        ensures
            p@ == text_or_empty(self.path),
    {
        match &self.path {
            Some(p) => p.clone(),
            None => String::new(),
        }
    }

    /// Whether the web view is told the cookie is secure: not when unset.
    pub fn is_secure(&self) -> (b: bool)
        ensures
            b == (self.secure == Some(true)),
    {
        match self.secure {
            Some(v) => v,
            None => false,
        }
    }

    /// Whether the web view is told the cookie is HTTP only: not when unset.
    pub fn is_http_only(&self) -> (b: bool)
        ensures
            b == (self.http_only == Some(true)),
    {
        match self.http_only {
            Some(v) => v,
            None => false,
        }
    }

    /// The same-site kind the web view is told.
    pub fn same_site_kind(&self) -> (k: i32)
        ensures
            k == spec_same_site_kind(self.same_site),
    {
        same_site_kind(self.same_site)
    }

    /// Whether the web view is told the cookie lasts for the session.
    pub fn is_session(&self) -> (b: bool)
        ensures
            b == (self.expires == Some(Expiration::Session)),
    {
        is_session(self.expires)
    }

    /// Sets the same-site policy as the web view asks with `kind`.
    pub fn set_same_site_kind(&mut self, kind: i32)
        ensures
            final(self).same_site == Some(same_site_of_set_kind(kind)),
            final(self).name == old(self).name,
            final(self).value == old(self).value,
            final(self).domain == old(self).domain,
            final(self).path == old(self).path,
            final(self).expires == old(self).expires,
            final(self).secure == old(self).secure,
            final(self).http_only == old(self).http_only,
    {
        self.same_site = Some(same_site_set_by_kind(kind));
    }

    /// Sets the expiration as the web view asks: the end of the session, or
    /// the Unix timestamp `seconds`; a timestamp a date-time cannot hold is
    /// refused and leaves the cookie as it was.
    pub fn set_expires(&mut self, seconds: i64, session: bool) -> (r: Result<(), CookieError>)
        ensures
            r is Err <==> (!session && !(MIN_UNIX_TIMESTAMP <= seconds <= MAX_UNIX_TIMESTAMP)),
            r is Ok ==> final(self).expires == Some(
                if session {
                    Expiration::Session
                } else {
                    Expiration::DateTime(seconds)
                },
            ),
            r is Err ==> final(self).expires == old(self).expires,
            final(self).name == old(self).name,
            final(self).value == old(self).value,
            final(self).domain == old(self).domain,
            final(self).path == old(self).path,
            final(self).secure == old(self).secure,
            final(self).http_only == old(self).http_only,
            final(self).same_site == old(self).same_site,
    {
        match expiration_from_web_view(seconds, session) {
            Ok(e) => {
                self.expires = Some(e);
                Ok(())
            },
            Err(err) => Err(err),
        }
    }
}

/// The same-site policy the web view sets with `kind`.
pub open spec fn same_site_of_set_kind(kind: i32) -> SameSite {
    if kind == SAME_SITE_KIND_STRICT {
        SameSite::Strict
    } else if kind == SAME_SITE_KIND_NONE {
        SameSite::NoRestriction
    } else {
        SameSite::Lax
    }
}

/// The cookie the web view reports with these fields: every field is set,
/// and the cookie is refused when its expiration or its same-site kind is
/// out of range.
pub fn cookie_from_web_view(
    name: &str,
    value: &str,
    domain: &str,
    path: &str,
    expires: i64,
    secure: bool,
    http_only: bool,
    same_site: i32,
    session: bool,
) -> (r: Result<CookieRecord, CookieError>)
    ensures
        r is Err <==> ((!session && !(MIN_UNIX_TIMESTAMP <= expires <= MAX_UNIX_TIMESTAMP))
            || spec_same_site_from_kind(same_site) is None),
        r matches Ok(c) ==> {
            &&& c.name@ == name@
            &&& c.value@ == value@
            &&& c.domain matches Some(d) && d@ == domain@
            &&& c.path matches Some(p) && p@ == path@
            &&& c.expires == Some(
                if session {
                    Expiration::Session
                } else {
                    Expiration::DateTime(expires)
                },
            )
            &&& c.secure == Some(secure)
            &&& c.http_only == Some(http_only)
            &&& c.same_site == spec_same_site_from_kind(same_site)
        },
{
    let exp = match expiration_from_web_view(expires, session) {
        Ok(e) => e,
        Err(err) => {
            return Err(err);
        },
    };
    let ss = match same_site_from_kind(same_site) {
        Some(s) => s,
        None => {
            return Err(CookieError::InvalidArg);
        },
    };
    Ok(
        CookieRecord {
            name: String::from_str(name),
            value: String::from_str(value),
            domain: Some(String::from_str(domain)),
            path: Some(String::from_str(path)),
            expires: Some(exp),
            secure: Some(secure),
            http_only: Some(http_only),
            same_site: Some(ss),
        },
    )
}

/// A same-site policy given to the web view and read back is the same
/// policy; an unset one reads back as lax.
pub proof fn lemma_same_site_roundtrip(s: Option<SameSite>)
    ensures
        spec_same_site_from_kind(spec_same_site_kind(s)) == Some(
            match s {
                Some(p) => p,
                None => SameSite::Lax,
            },
        ),
        same_site_of_set_kind(spec_same_site_kind(s)) == match s {
            Some(p) => p,
            None => SameSite::Lax,
        },
{
}

/// Every kind the web view reports is set back as the same policy it reads
/// as.
pub proof fn lemma_kind_read_and_set_agree(kind: i32)
    requires
        spec_same_site_from_kind(kind) is Some,
    ensures
        spec_same_site_from_kind(kind) == Some(same_site_of_set_kind(kind)),
        spec_same_site_kind(spec_same_site_from_kind(kind)) == kind,
{
}

/// The timestamp the web view is told a cookie expires at: its date-time,
/// or -1 for a session cookie or one with no expiration.
pub open spec fn web_view_timestamp(e: Option<Expiration>) -> i64 {
    match e {
        Some(Expiration::DateTime(t)) => t,
        _ => -1i64,
    }
}

/// A cookie with every field set, given to the web view and read back from
/// it, is the same cookie: the web view gets its name, value, domain, path,
/// expiration (a timestamp and whether it lasts for the session), flags and
/// same-site kind, and reading these back is never refused and gives each
/// field as it was, but for the domain, which comes back as the cookie
/// reports it, without one leading dot.
pub proof fn lemma_complete_cookie_reads_back(r: CookieRecord)
    requires
        r.domain is Some,
        r.path is Some,
        r.secure is Some,
        r.http_only is Some,
        r.same_site is Some,
        r.expires matches Some(e) && (e matches Expiration::DateTime(t) ==> MIN_UNIX_TIMESTAMP <= t
            <= MAX_UNIX_TIMESTAMP),
    ensures
        ({
            let session = r.expires == Some(Expiration::Session);
            let t = web_view_timestamp(r.expires);
            let kind = spec_same_site_kind(r.same_site);
            &&& !((!session && !(MIN_UNIX_TIMESTAMP <= t <= MAX_UNIX_TIMESTAMP))
                || spec_same_site_from_kind(kind) is None)
            &&& Some(
                if session {
                    Expiration::Session
                } else {
                    Expiration::DateTime(t)
                },
            ) == r.expires
            &&& Some(spec_without_leading_dot(text_or_empty(r.domain))) == (match r.domain {
                Some(d) => Some(spec_without_leading_dot(d@)),
                None => None,
            })
            &&& Some(text_or_empty(r.path)) == (match r.path {
                Some(p) => Some(p@),
                None => None,
            })
            &&& Some(r.secure == Some(true)) == r.secure
            &&& Some(r.http_only == Some(true)) == r.http_only
            &&& spec_same_site_from_kind(kind) == r.same_site
        }),
{
}

/// The web view's same-site kinds, by number: 0 is no restriction, 1 is lax
/// and 2 is strict, read and set alike; any other kind is refused when read
/// and sets lax; an unset policy is told as lax.
pub proof fn lemma_same_site_kind_table(kind: i32)
    ensures
        spec_same_site_from_kind(0) == Some(SameSite::NoRestriction),
        spec_same_site_from_kind(1) == Some(SameSite::Lax),
        spec_same_site_from_kind(2) == Some(SameSite::Strict),
        !(0 <= kind <= 2) ==> spec_same_site_from_kind(kind) is None,
        spec_same_site_kind(Some(SameSite::NoRestriction)) == 0,
        spec_same_site_kind(Some(SameSite::Lax)) == 1,
        spec_same_site_kind(Some(SameSite::Strict)) == 2,
        spec_same_site_kind(None) == 1,
        same_site_of_set_kind(0) == SameSite::NoRestriction,
        same_site_of_set_kind(2) == SameSite::Strict,
        kind != 0 && kind != 2 ==> same_site_of_set_kind(kind) == SameSite::Lax,
{
}

/// The timestamp the web view is told is the date-time of a cookie that
/// expires at one, and -1 for a session cookie or one with no expiration.
pub proof fn lemma_web_view_timestamp(t: i64)
    ensures
        web_view_timestamp(Some(Expiration::DateTime(t))) == t,
        web_view_timestamp(Some(Expiration::Session)) == -1,
        web_view_timestamp(None) == -1,
{
}

/// A domain as a cookie reports it drops one leading dot and nothing else:
/// it is the domain itself when it does not start with a dot, and otherwise
/// the domain with its first character taken off.
pub proof fn lemma_without_leading_dot(d: Seq<char>)
    ensures
        d.len() > 0 && d[0] == '.' ==> seq!['.'] + spec_without_leading_dot(d) == d,
        !(d.len() > 0 && d[0] == '.') ==> spec_without_leading_dot(d) == d,
        spec_without_leading_dot(d).len() == (if d.len() > 0 && d[0] == '.' {
            d.len() - 1
        } else {
            d.len() as int
        }),
{
    if d.len() > 0 && d[0] == '.' {
        assert(seq!['.'] + d.drop_first() =~= d);
    }
}

} // verus!
