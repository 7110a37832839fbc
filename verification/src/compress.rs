//! The read-side projection: each stored event that a query returns is
//! turned into a `CompressedEvent`, its title resolved against the app-name
//! table with a verbatim fallback to the raw app id.

use vstd::prelude::*;

use crate::apps::AppsMap;
use crate::events::{CompressedEvent, Event, PluginKind, TimeRange};
use crate::ingest::ApiError;
use crate::store::{event_matches, lemma_matching_events_none, lemma_matching_events_push,
    matching_events};

verus! {

/// The display label an app id resolves to: the table's name on a hit, the
/// raw id itself on a miss — never empty unless the id itself is, and never
/// an error.
pub open spec fn resolved_title(app: Seq<char>, table: Map<Seq<char>, Seq<char>>) -> Seq<char> {
    if table.contains_key(app) {
        table[app]
    } else {
        app
    }
}

/// How a sequence of stored events and its compressed projection relate:
/// same length, same order, and for each position the instant is kept, the
/// payload is carried whole, and the title is the resolved display label.
pub open spec fn compresses_to(
    events: Seq<Event>,
    table: Map<Seq<char>, Seq<char>>,
    out: Seq<CompressedEvent>,
) -> bool {
    &&& out.len() == events.len()
    &&& forall|i: int|
        0 <= i < events.len() ==> {
            &&& (#[trigger] out[i]).time == events[i].timing
            &&& out[i].data == events[i].event
            &&& out[i].title@ == resolved_title(events[i].event.app@, table)
        }
}

/// Resolves one app id to its display label: the table's name on a hit, the
/// raw id on a miss.
pub fn resolve_title(apps: &AppsMap, app: &String) -> (r: String)
    ensures
        r@ == resolved_title(app@, apps.table()),
{
    match apps.get_app_name(app.as_str()) {
        Some(v) => v.clone(),
        None => app.clone(),
    }
}

/// Projects queried events into their display-ready form, preserving the
/// store's order and dropping nothing.
pub fn compress(events: &Vec<Event>, apps: &AppsMap) -> (r: Vec<CompressedEvent>)
    ensures
        compresses_to(events@, apps.table(), r@),
{
    let mut r: Vec<CompressedEvent> = Vec::new();
    let n = events.len();
    let mut i: usize = 0;
    while i < n
        invariant
            i <= n,
            n == events@.len(),
            r@.len() == i,
            forall|j: int|
                0 <= j < i ==> {
                    &&& (#[trigger] r@[j]).time == events@[j].timing
                    &&& r@[j].data == events@[j].event
                    &&& r@[j].title@ == resolved_title(events@[j].event.app@, apps.table())
                },
        decreases n - i,
    {
        let e = &events[i];
        let title = resolve_title(apps, &e.event.app);
        r.push(CompressedEvent { title, time: e.timing, data: e.event.duplicate() });
        i += 1;
    }
    r
}

/// The position of the first failed document outcome at or after `from`,
/// or `None` when every one from there on succeeded.
pub open spec fn first_err_from(docs: Seq<Result<Event, String>>, from: int) -> Option<int>
    decreases docs.len() - from,
{
    if from < 0 || from >= docs.len() {
        None
    } else if docs[from] is Err {
        Some(from)
    } else {
        first_err_from(docs, from + 1)
    }
}

/// What `first_err_from` returns, spelled out: a found position is the
/// first failure at or after the start, and `None` means there is none.
pub proof fn lemma_first_err_from(docs: Seq<Result<Event, String>>, from: int)
    requires
        0 <= from <= docs.len(),
    ensures
        match first_err_from(docs, from) {
            Some(i) => from <= i < docs.len() && docs[i] is Err && (forall|j: int|
                from <= j < i ==> docs[j] is Ok),
            None => forall|j: int| from <= j < docs.len() ==> docs[j] is Ok,
        },
    decreases docs.len() - from,
{
    if from < docs.len() && docs[from] is Ok {
        lemma_first_err_from(docs, from + 1);
    }
}

/// The events a fully successful stream of document outcomes carries, in
/// stream order.
pub open spec fn ok_events(docs: Seq<Result<Event, String>>) -> Seq<Event> {
    Seq::new(docs.len(), |i: int| docs[i]->Ok_0)
}

/// Consumes a stream of per-document read outcomes, fail-fast: the first
/// failed document aborts the whole query with a `StoreReadError` carrying
/// that document's message, and nothing of a partial result is served; with
/// no failure, every document is compressed, in stream order.
pub fn compress_documents(docs: &Vec<Result<Event, String>>, apps: &AppsMap) -> (r: Result<
    Vec<CompressedEvent>,
    ApiError,
>)
    ensures
        match first_err_from(docs@, 0) {
            None => r is Ok && compresses_to(ok_events(docs@), apps.table(), r->Ok_0@),
            Some(i) => r is Err && (r matches Err(ApiError::StoreReadError(m)) && m@ == docs@[
                i
            ]->Err_0@),
        },
{
    let mut out: Vec<CompressedEvent> = Vec::new();
    let n = docs.len();
    let mut i: usize = 0;
    while i < n
        invariant
            i <= n,
            n == docs@.len(),
            first_err_from(docs@, 0) == first_err_from(docs@, i as int),
            out@.len() == i,
            forall|j: int|
                0 <= j < i ==> {
                    &&& (#[trigger] docs@[j]) is Ok
                    &&& out@[j].time == docs@[j]->Ok_0.timing
                    &&& out@[j].data == docs@[j]->Ok_0.event
                    &&& out@[j].title@ == resolved_title(docs@[j]->Ok_0.event.app@, apps.table())
                },
        decreases n - i,
    {
        match &docs[i] {
            Ok(e) => {
                let title = resolve_title(apps, &e.event.app);
                out.push(CompressedEvent { title, time: e.timing, data: e.event.duplicate() });
            },
            Err(m) => {
                proof {
                    assert(first_err_from(docs@, i as int) == Some(i as int));
                }
                return Err(ApiError::StoreReadError(m.clone()));
            },
        }
        i += 1;
    }
    proof {
        assert(first_err_from(docs@, n as int) is None);
        assert(compresses_to(ok_events(docs@), apps.table(), out@));
    }
    Ok(out)
}

/// An ingest is never dropped, and a query over a range that holds only the
/// fresh event returns exactly its projection: one compressed event whose
/// instant is the written instant and whose payload round-trips whole.
pub proof fn lemma_fresh_ingest_queried_back(
    prior: Seq<Event>,
    e: Event,
    kind: PluginKind,
    range: TimeRange,
    table: Map<Seq<char>, Seq<char>>,
    out: Seq<CompressedEvent>,
)
    requires
        event_matches(e, kind, range),
        forall|i: int| 0 <= i < prior.len() ==> !event_matches(#[trigger] prior[i], kind, range),
        compresses_to(matching_events(prior.push(e), kind, range), table, out),
    ensures
        out.len() == 1,
        out[0].time == e.timing,
        out[0].data == e.event,
        out[0].title@ == resolved_title(e.event.app@, table),
{
    lemma_matching_events_none(prior, kind, range);
    lemma_matching_events_push(prior, e, kind, range);
    assert(matching_events(prior.push(e), kind, range) =~= seq![e]);
}

} // verus!
