//! The authenticated write path: a caller hands a shared secret and a
//! notification payload; a mismatching secret is turned away with nothing
//! written, and a matching one appends exactly one event, stamped with the
//! current instant and an id derived from it.

use vstd::prelude::*;

use crate::decimal::{lemma_millis_id_injective, millis_id_of, millis_to_id};
use crate::events::{Event, Notification, PluginKind, Timing};
use crate::store::EventStore;
use crate::text::str_eq;

verus! {

use vstd::string::StringExecFns;

/// The error kinds the plugin surfaces.
#[derive(Debug)]
pub enum ApiError {
    /// The supplied secret does not equal the configured one; nothing was
    /// written.
    AuthenticationError,
    /// The external store failed a write; the underlying message is carried.
    StoreWriteError(String),
    /// The external store failed a read; the underlying message is carried.
    StoreReadError(String),
    /// Startup could not build the plugin: the lookup source was unreadable
    /// or the configuration malformed. Fatal, never a degraded table.
    InitializationError(String),
}

impl ApiError {
    /// The HTTP status this error is surfaced with.
    pub fn status_code(&self) -> (r: u16)
        ensures
            self is AuthenticationError ==> r == 401,
            !(self is AuthenticationError) ==> r == 500,
    {
        match self {
            ApiError::AuthenticationError => 401,
            _ => 500,
        }
    }
}

/// What the ingestion endpoint stores for a request: the supplied payload
/// verbatim, stamped with the given instant, scoped to this plugin, and
/// identified by the instant's decimal rendering.
pub open spec fn ingested_event(
    e: Event,
    app: Seq<char>,
    title: Seq<char>,
    content: Seq<char>,
    now: i64,
) -> bool {
    &&& e.timing == Timing::Instant(now)
    &&& e.id@ == millis_id_of(now as int)
    &&& e.plugin == PluginKind::Notification
    &&& e.event.app@ == app
    &&& e.event.title@ == title
    &&& e.event.content@ == content
}

/// Exact comparison of the supplied secret against the configured one.
pub fn secret_matches(supplied: &str, configured: &str) -> (r: bool)
    ensures
        r == (supplied@ == configured@),
{
    str_eq(supplied, configured)
}

/// Builds the event one authenticated request stores.
pub fn build_event(app: &str, title: &str, content: &str, now: i64) -> (e: Event)
    ensures
        ingested_event(e, app@, title@, content@, now),
{
    Event {
        timing: Timing::Instant(now),
        id: millis_to_id(now),
        plugin: PluginKind::Notification,
        event: Notification {
            app: String::from_str(app),
            title: String::from_str(title),
            content: String::from_str(content),
        },
    }
}

/// The authenticated write, at a given instant. A wrong secret changes
/// nothing and is answered with `AuthenticationError`; a right one appends
/// exactly one event, built from the request and the instant, and succeeds.
pub fn new_notification(
    store: &mut EventStore,
    configured_secret: &str,
    secret: &str,
    app: &str,
    title: &str,
    content: &str,
    now: i64,
) -> (r: Result<(), ApiError>)
    ensures
        secret@ != configured_secret@ ==> r is Err && (r matches Err(e) ==> e
            is AuthenticationError) && final(store).events() == old(store).events(),
        secret@ == configured_secret@ ==> r is Ok && final(store).events().len() == old(
            store,
        ).events().len() + 1 && final(store).events().drop_last() == old(store).events()
            && ingested_event(final(store).events().last(), app@, title@, content@, now),
{
    if !secret_matches(secret, configured_secret) {
        return Err(ApiError::AuthenticationError);
    }
    let e = build_event(app, title, content, now);
    store.register_single_event(&e);
    proof {
        assert(final(store).events().drop_last() =~= old(store).events());
    }
    Ok(())
}

/// Maps the external store's write outcome to the endpoint's response:
/// success is status 200 with an empty body; a write failure is status 500
/// carrying the store's message as a typed error. Reporting the failure to
/// the operator-facing error channel is the caller's fire-and-forget side
/// step and does not shape this response.
pub fn write_response(outcome: Result<(), String>) -> (r: (u16, Result<(), ApiError>))
    ensures
        outcome is Ok ==> r.0 == 200 && r.1 is Ok,
        outcome is Err ==> r.0 == 500 && r.1 is Err && (r.1 matches Err(
            ApiError::StoreWriteError(m),
        ) && m@ == outcome->Err_0@),
{
    match outcome {
        Ok(()) => (200, Ok(())),
        Err(m) => (500, Err(ApiError::StoreWriteError(m))),
    }
}

/// Relies on `std::time::SystemTime::now` and
/// `SystemTime::duration_since(UNIX_EPOCH)`: the wall-clock offset from the
/// epoch, as a direction flag and a millisecond magnitude. `duration_since`
/// hands the magnitude back either way — as its `Ok` duration on or after
/// the epoch, as the carried duration of its error before it — so the read
/// cannot panic. Nothing is assumed of the value.
#[verifier::external_body]
fn clock_since_epoch() -> (r: (bool, u128)) {
    match std::time::SystemTime::now().duration_since(std::time::UNIX_EPOCH) {
        Ok(d) => (false, d.as_millis()),
        Err(e) => (true, e.duration().as_millis()),
    }
}

/// The current wall-clock instant in signed milliseconds, saturated at the
/// representable bounds.
fn now_millis() -> i64 {
    let (before_epoch, millis) = clock_since_epoch();
    if before_epoch {
        if millis > i64::MAX as u128 {
            i64::MIN
        } else {
            -(millis as i64)
        }
    } else {
        if millis > i64::MAX as u128 {
            i64::MAX
        } else {
            millis as i64
        }
    }
}

/// The authenticated write at the current wall-clock instant: as
/// `new_notification`, with the instant read from the system clock.
pub fn handle_notification(
    store: &mut EventStore,
    configured_secret: &str,
    secret: &str,
    app: &str,
    title: &str,
    content: &str,
) -> (r: Result<(), ApiError>)
    ensures
        secret@ != configured_secret@ ==> r is Err && (r matches Err(e) ==> e
            is AuthenticationError) && final(store).events() == old(store).events(),
        secret@ == configured_secret@ ==> r is Ok && final(store).events().len() == old(
            store,
        ).events().len() + 1 && final(store).events().drop_last() == old(store).events()
            && exists|now: i64|
            ingested_event(final(store).events().last(), app@, title@, content@, now),
{
    let now = now_millis();
    let r = new_notification(store, configured_secret, secret, app, title, content, now);
    proof {
        if secret@ == configured_secret@ {
            assert(ingested_event(final(store).events().last(), app@, title@, content@, now));
        }
    }
    r
}

/// No deduplication: two ingests of an identical payload at distinct
/// instants store two events with distinct ids and distinct timings.
pub proof fn lemma_repeat_ingest_distinct(
    e1: Event,
    e2: Event,
    app: Seq<char>,
    title: Seq<char>,
    content: Seq<char>,
    n1: i64,
    n2: i64,
)
    requires
        ingested_event(e1, app, title, content, n1),
        ingested_event(e2, app, title, content, n2),
        n1 != n2,
    ensures
        e1.id@ != e2.id@,
        e1.timing != e2.timing,
{
    if e1.id@ == e2.id@ {
        lemma_millis_id_injective(n1 as int, n2 as int);
    }
}

} // verus!
