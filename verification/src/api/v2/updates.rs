//! Browser compatibility updates: who may filter them, and how the stored
//! rows, one per feature change in a browser release, are grouped into one
//! update per release.

use vstd::prelude::*;

use crate::api::error::ApiError;
use crate::text::{split_on, split_str, str_eq, to_owned_string, views};

verus! {

/// The order of the listing.
#[derive(Debug, Clone, Copy, PartialEq, Eq, Structural)]
pub enum AscOrDesc {
    Asc,
    Desc,
}

/// The filters of the updates listing.
#[derive(Debug, Clone)]
pub struct BcdUpdatesQueryParams {
    pub browsers: Option<Vec<String>>,
    pub category: Option<Vec<String>>,
    pub page: Option<i64>,
    pub q: Option<String>,
    pub show: Option<String>,
    pub sort: Option<AscOrDesc>,
}

/// A comma separated list of a query string, as its items.
pub fn array_like(value: Option<String>) -> (res: Option<Vec<String>>)
    ensures
        match value {
            Some(s) => res matches Some(items) && views(items@) == split_on(s@, ","@),
            None => res is None,
        },
{
    match value {
        Some(s) => {
            proof { reveal_strlit(","); }
            Some(split_str(s.as_str(), ","))
        },
        None => None,
    }
}

/// Whether the query uses a filter that only logged-in users may use: any
/// filter but the page.
pub fn query_contains_restricted_filters(query: &BcdUpdatesQueryParams) -> (res: bool)
    ensures
        res == (query.browsers is Some || query.q is Some || query.sort is Some
            || query.category is Some || query.show is Some),
{
    query.browsers.is_some() || query.q.is_some() || query.sort.is_some()
        || query.category.is_some() || query.show.is_some()
}

/// Anonymous users get the updates unfiltered only.
pub fn check_updates_access(logged_in: bool, query: &BcdUpdatesQueryParams) -> (res: Result<(), ApiError>)
    ensures
        (!logged_in && (query.browsers is Some || query.q is Some || query.sort is Some
            || query.category is Some || query.show is Some))
            ==> (res matches Err(ApiError::LoginRequiredForFeature(f)) && f@ == "BCD Filters"@),
        (logged_in || !(query.browsers is Some || query.q is Some || query.sort is Some
            || query.category is Some || query.show is Some)) ==> res is Ok,
{
    if !logged_in && query_contains_restricted_filters(query) {
        Err(ApiError::LoginRequiredForFeature(to_owned_string("BCD Filters")))
    } else {
        Ok(())
    }
}

/// The query of the watched-updates listing: the same query, showing the
/// watched features.
pub fn watched_query(query: BcdUpdatesQueryParams) -> (res: BcdUpdatesQueryParams)
    ensures
        res.browsers == query.browsers,
        res.category == query.category,
        res.page == query.page,
        res.q == query.q,
        res.sort == query.sort,
        res.show matches Some(s) && s@ == "watched"@,
{
    BcdUpdatesQueryParams { show: Some(to_owned_string("watched")), ..query }
}

/// How a feature's support changed in a release.
#[derive(Debug, Clone, Copy, PartialEq, Eq, Structural)]
pub enum BcdUpdateEventType {
    AddedStable,
    RemovedStable,
    /// Any other change; such changes are not listed.
    Other,
}

/// The status flags of a feature.
#[derive(Debug, Clone, Copy, PartialEq, Eq, Structural)]
pub struct Status {
    pub deprecated: bool,
    pub experimental: bool,
    pub standard_track: bool,
}

/// A change of a feature in a release.
#[derive(Debug)]
pub struct Event {
    pub path: String,
    pub mdn_url: Option<String>,
    pub source_file: Option<String>,
    pub spec_url: Option<String>,
    pub status: Option<Status>,
    pub event_type: BcdUpdateEventType,
}

/// A stored row: a browser release and the feature changes it brought.
#[derive(Debug)]
pub struct BcdUpdateRow {
    pub browser: String,
    pub engine_version: String,
    pub engine: String,
    pub name: String,
    pub release_date: String,
    pub release_id: String,
    pub compat: Vec<Event>,
}

/// The kind of an update.
#[derive(Debug, Clone, Copy, PartialEq, Eq, Structural)]
pub enum UpdateType {
    BrowserGrouping,
}

/// The status flags of a feature, as listed.
#[derive(Debug, Clone, Copy, PartialEq, Eq, Structural)]
pub struct StatusInfo {
    pub deprecated: bool,
    pub experimental: bool,
    pub standard_track: bool,
}

impl StatusInfo {
    /// The flags of a status.
    pub fn from(val: &Status) -> (res: StatusInfo)
        ensures
            res == status_info(*val),
    {
        StatusInfo {
            deprecated: val.deprecated,
            experimental: val.experimental,
            standard_track: val.standard_track,
        }
    }
}

/// The flags of a status.
pub open spec fn status_info(s: Status) -> StatusInfo {
    StatusInfo { deprecated: s.deprecated, experimental: s.experimental, standard_track: s.standard_track }
}

/// The compatibility data of a changed feature.
#[derive(Debug)]
pub struct CompatInfo {
    pub mdn_url: Option<String>,
    pub source_file: Option<String>,
    pub spec_url: Option<String>,
    pub status: Option<StatusInfo>,
    pub engines: Vec<String>,
}

/// A changed feature, as listed.
#[derive(Debug)]
pub struct FeatureInfo {
    pub path: String,
    pub compat: CompatInfo,
}

/// Whether a listed feature shows the change: its path and addresses, its
/// status flags, and no engines.
pub open spec fn feature_from(f: FeatureInfo, e: Event) -> bool {
    &&& f.path == e.path
    &&& f.compat.mdn_url == e.mdn_url
    &&& f.compat.source_file == e.source_file
    &&& f.compat.spec_url == e.spec_url
    &&& f.compat.status == (match e.status { Some(s) => Some(status_info(s)), None => None })
    &&& f.compat.engines@.len() == 0
}

impl FeatureInfo {
    /// The listed form of a feature change.
    pub fn from(val: Event) -> (res: FeatureInfo)
        ensures
            feature_from(res, val),
    {
        let status = match &val.status {
            Some(s) => Some(StatusInfo::from(s)),
            None => None,
        };
        FeatureInfo {
            path: val.path,
            compat: CompatInfo {
                mdn_url: val.mdn_url,
                source_file: val.source_file,
                spec_url: val.spec_url,
                status,
                engines: Vec::new(),
            },
        }
    }
}

/// The browser release of an update.
#[derive(Debug)]
pub struct BrowserInfo {
    pub browser: String,
    pub version: String,
    pub name: String,
    pub engine: String,
    pub engine_version: String,
    pub release_notes: String,
}

/// The features added to and removed from a release.
#[derive(Debug)]
pub struct BcdUpdateEvent {
    pub added: Vec<FeatureInfo>,
    pub removed: Vec<FeatureInfo>,
}

/// The update of one browser release.
#[derive(Debug)]
pub struct BcdUpdate {
    pub typ: UpdateType,
    pub browser: Option<BrowserInfo>,
    pub events: BcdUpdateEvent,
    pub release_date: String,
}

/// A page of updates, the query it answers, and the number of the last page.
#[derive(Debug)]
pub struct BcdUpdatesPaginatedResponse {
    pub data: Vec<BcdUpdate>,
    pub query: BcdUpdatesQueryParams,
    pub last: i64,
}

/// Whether two rows belong to the same release: the same browser, engine,
/// name, date and release.
pub open spec fn same_release(a: BcdUpdateRow, b: BcdUpdateRow) -> bool {
    &&& a.browser@ == b.browser@
    &&& a.engine_version@ == b.engine_version@
    &&& a.engine@ == b.engine@
    &&& a.name@ == b.name@
    &&& a.release_date@ == b.release_date@
    &&& a.release_id@ == b.release_id@
}

/// The rows cut into runs of neighbours of the same release, in order.
pub open spec fn runs(rows: Seq<BcdUpdateRow>) -> Seq<Seq<BcdUpdateRow>>
    decreases rows.len(),
{
    if rows.len() == 0 {
        Seq::empty()
    } else {
        let g = runs(rows.drop_last());
        if g.len() > 0 && same_release(g.last()[0], rows.last()) {
            g.update(g.len() - 1, g.last().push(rows.last()))
        } else {
            g.push(seq![rows.last()])
        }
    }
}

/// The changes of one kind among a row's changes, in order.
pub open spec fn kind_events(evs: Seq<Event>, kind: BcdUpdateEventType) -> Seq<Event>
    decreases evs.len(),
{
    if evs.len() == 0 {
        Seq::empty()
    } else if evs.last().event_type == kind {
        kind_events(evs.drop_last(), kind).push(evs.last())
    } else {
        kind_events(evs.drop_last(), kind)
    }
}

/// The changes of one kind of a run of rows, row after row.
pub open spec fn group_events(g: Seq<BcdUpdateRow>, kind: BcdUpdateEventType) -> Seq<Event>
    decreases g.len(),
{
    if g.len() == 0 {
        Seq::empty()
    } else {
        group_events(g.drop_last(), kind) + kind_events(g.last().compat@, kind)
    }
}

/// Whether the listed features show the changes, one for one.
pub open spec fn features_of(fs: Seq<FeatureInfo>, es: Seq<Event>) -> bool {
    fs.len() == es.len() && forall|k: int| 0 <= k < fs.len() ==> feature_from(#[trigger] fs[k], es[k])
}

/// Whether browser information shows the release of a row, with empty
/// release notes.
pub open spec fn browser_from(b: BrowserInfo, r: BcdUpdateRow) -> bool {
    &&& b.browser == r.browser
    &&& b.version == r.release_id
    &&& b.name == r.name
    &&& b.engine == r.engine
    &&& b.engine_version == r.engine_version
    &&& b.release_notes@.len() == 0
}

/// Whether an update shows a run of rows: the release of its first row, and
/// the stable additions and removals of all its rows.
pub open spec fn update_of(u: BcdUpdate, g: Seq<BcdUpdateRow>) -> bool {
    &&& g.len() > 0
    &&& u.typ == UpdateType::BrowserGrouping
    &&& u.browser matches Some(b) && browser_from(b, g[0])
    &&& u.release_date == g[0].release_date
    &&& features_of(u.events.added@, group_events(g, BcdUpdateEventType::AddedStable))
    &&& features_of(u.events.removed@, group_events(g, BcdUpdateEventType::RemovedStable))
}

/// Lists the stable additions and removals among a row's changes after those
/// already listed.
fn add_events(added: &mut Vec<FeatureInfo>, removed: &mut Vec<FeatureInfo>, compat: Vec<Event>, Ghost(ea): Ghost<Seq<Event>>, Ghost(er): Ghost<Seq<Event>>)
    requires
        features_of(old(added)@, ea),
        features_of(old(removed)@, er),
    ensures
        features_of(final(added)@, ea + kind_events(compat@, BcdUpdateEventType::AddedStable)),
        features_of(final(removed)@, er + kind_events(compat@, BcdUpdateEventType::RemovedStable)),
{
    let ghost all = compat@;
    let mut compat = compat;
    let ghost mut done: int = 0;
    proof {
        assert(all.take(0) =~= Seq::<Event>::empty());
        assert(ea + kind_events(Seq::<Event>::empty(), BcdUpdateEventType::AddedStable) =~= ea);
        assert(er + kind_events(Seq::<Event>::empty(), BcdUpdateEventType::RemovedStable) =~= er);
    }
    while compat.len() > 0
        invariant
            0 <= done <= all.len(),
            compat@ == all.skip(done),
            features_of(added@, ea + kind_events(all.take(done), BcdUpdateEventType::AddedStable)),
            features_of(removed@, er + kind_events(all.take(done), BcdUpdateEventType::RemovedStable)),
        decreases compat@.len(),
    {
        let e = compat.remove(0);
        proof {
            assert(e == all[done]);
            assert(all.take(done + 1).drop_last() =~= all.take(done));
            assert(all.take(done + 1).last() == e);
            assert(compat@ =~= all.skip(done + 1));
        }
        let ghost ge = e;
        let ghost a0 = added@;
        let ghost r0 = removed@;
        match e.event_type {
            BcdUpdateEventType::AddedStable => {
                added.push(FeatureInfo::from(e));
                proof {
                    let ka = kind_events(all.take(done), BcdUpdateEventType::AddedStable);
                    assert(kind_events(all.take(done + 1), BcdUpdateEventType::AddedStable) == ka.push(ge));
                    assert(ea + ka.push(ge) =~= (ea + ka).push(ge));
                    assert(added@ == a0.push(added@.last()));
                    assert forall|k: int| 0 <= k < added@.len() implies
                        feature_from(#[trigger] added@[k], (ea + ka.push(ge))[k]) by {
                        if k < a0.len() {
                            assert(added@[k] == a0[k]);
                        }
                    }
                    assert(kind_events(all.take(done + 1), BcdUpdateEventType::RemovedStable)
                        == kind_events(all.take(done), BcdUpdateEventType::RemovedStable));
                }
            },
            BcdUpdateEventType::RemovedStable => {
                removed.push(FeatureInfo::from(e));
                proof {
                    let kr = kind_events(all.take(done), BcdUpdateEventType::RemovedStable);
                    assert(kind_events(all.take(done + 1), BcdUpdateEventType::RemovedStable) == kr.push(ge));
                    assert(er + kr.push(ge) =~= (er + kr).push(ge));
                    assert(removed@ == r0.push(removed@.last()));
                    assert forall|k: int| 0 <= k < removed@.len() implies
                        feature_from(#[trigger] removed@[k], (er + kr.push(ge))[k]) by {
                        if k < r0.len() {
                            assert(removed@[k] == r0[k]);
                        }
                    }
                    assert(kind_events(all.take(done + 1), BcdUpdateEventType::AddedStable)
                        == kind_events(all.take(done), BcdUpdateEventType::AddedStable));
                }
            },
            BcdUpdateEventType::Other => {
                proof {
                    assert(kind_events(all.take(done + 1), BcdUpdateEventType::AddedStable)
                        == kind_events(all.take(done), BcdUpdateEventType::AddedStable));
                    assert(kind_events(all.take(done + 1), BcdUpdateEventType::RemovedStable)
                        == kind_events(all.take(done), BcdUpdateEventType::RemovedStable));
                }
            },
        }
        proof { done = done + 1; }
    }
    proof {
        assert(all.skip(done).len() == 0);
        assert(all.take(done) =~= all);
    }
}

/// The update that starts with a row: its release, and its listed changes.
fn start_update(row: BcdUpdateRow) -> (res: BcdUpdate)
    ensures
        update_of(res, seq![row]),
{
    let ghost r = row;
    let mut added: Vec<FeatureInfo> = Vec::new();
    let mut removed: Vec<FeatureInfo> = Vec::new();
    proof {
        assert(features_of(added@, Seq::<Event>::empty()));
        assert(features_of(removed@, Seq::<Event>::empty()));
    }
    add_events(&mut added, &mut removed, row.compat, Ghost(Seq::empty()), Ghost(Seq::empty()));
    proof {
        assert(seq![r].drop_last() =~= Seq::<BcdUpdateRow>::empty());
        assert(seq![r].last() == r);
        assert(group_events(Seq::<BcdUpdateRow>::empty(), BcdUpdateEventType::AddedStable) =~= Seq::<Event>::empty());
        assert(group_events(Seq::<BcdUpdateRow>::empty(), BcdUpdateEventType::RemovedStable) =~= Seq::<Event>::empty());
        assert(Seq::<Event>::empty() + kind_events(r.compat@, BcdUpdateEventType::AddedStable)
            =~= group_events(seq![r], BcdUpdateEventType::AddedStable));
        assert(Seq::<Event>::empty() + kind_events(r.compat@, BcdUpdateEventType::RemovedStable)
            =~= group_events(seq![r], BcdUpdateEventType::RemovedStable));
    }
    BcdUpdate {
        typ: UpdateType::BrowserGrouping,
        browser: Some(BrowserInfo {
            browser: row.browser,
            version: row.release_id,
            name: row.name,
            engine: row.engine,
            engine_version: row.engine_version,
            release_notes: String::new(),
        }),
        events: BcdUpdateEvent { added, removed },
        release_date: row.release_date,
    }
}

/// Whether a row belongs to the release of an update.
fn same_release_as(u: &BcdUpdate, row: &BcdUpdateRow) -> (res: bool)
    requires
        u.browser is Some,
    ensures
        res == (u.browser->0.browser@ == row.browser@
            && u.browser->0.engine_version@ == row.engine_version@
            && u.browser->0.engine@ == row.engine@
            && u.browser->0.name@ == row.name@
            && u.release_date@ == row.release_date@
            && u.browser->0.version@ == row.release_id@),
{
    match &u.browser {
        Some(b) => str_eq(b.browser.as_str(), row.browser.as_str())
            && str_eq(b.engine_version.as_str(), row.engine_version.as_str())
            && str_eq(b.engine.as_str(), row.engine.as_str())
            && str_eq(b.name.as_str(), row.name.as_str())
            && str_eq(u.release_date.as_str(), row.release_date.as_str())
            && str_eq(b.version.as_str(), row.release_id.as_str()),
        None => false,
    }
}

/// Groups the rows into one update per run of neighbouring rows of the same
/// release, in order, each listing the stable additions and removals of its
/// rows.
pub fn group_updates(rows: Vec<BcdUpdateRow>) -> (res: Vec<BcdUpdate>)
    ensures
        res@.len() == runs(rows@).len(),
        forall|j: int| 0 <= j < res@.len() ==> update_of(#[trigger] res@[j], runs(rows@)[j]),
{
    let ghost orig = rows@;
    let mut rows = rows;
    let mut res: Vec<BcdUpdate> = Vec::new();
    let mut cur: Option<BcdUpdate> = None;
    let ghost mut i: int = 0;
    proof { assert(orig.skip(0) =~= orig); }
    while rows.len() > 0
        invariant
            0 <= i <= orig.len(),
            rows@ == orig.skip(i),
            i == 0 ==> cur is None && res@.len() == 0,
            i > 0 ==> {
                &&& cur is Some
                &&& runs(orig.take(i)).len() == res@.len() + 1
                &&& forall|j: int| 0 <= j < res@.len() ==> update_of(#[trigger] res@[j], runs(orig.take(i))[j])
                &&& update_of(cur->0, runs(orig.take(i)).last())
            },
        decreases rows@.len(),
    {
        let row = rows.remove(0);
        let ghost r = row;
        let ghost prev = runs(orig.take(i));
        proof {
            assert(r == orig[i]);
            assert(orig.take(i + 1).drop_last() =~= orig.take(i));
            assert(orig.take(i + 1).last() == r);
            assert(rows@ =~= orig.skip(i + 1));
        }
        match cur {
            Some(mut u) => {
                if same_release_as(&u, &row) {
                    let ghost u0 = u;
                    let ghost g = prev.last();
                    proof {
                        assert(same_release(g[0], r));
                        assert(runs(orig.take(i + 1)) == prev.update(prev.len() - 1, g.push(r)));
                        assert(g.push(r).drop_last() =~= g);
                    }
                    add_events(&mut u.events.added, &mut u.events.removed, row.compat,
                        Ghost(group_events(g, BcdUpdateEventType::AddedStable)),
                        Ghost(group_events(g, BcdUpdateEventType::RemovedStable)));
                    proof {
                        assert(update_of(u, g.push(r)));
                    }
                    cur = Some(u);
                } else {
                    proof {
                        let g = prev.last();
                        assert(!same_release(g[0], r));
                        assert(runs(orig.take(i + 1)) == prev.push(seq![r]));
                    }
                    res.push(u);
                    cur = Some(start_update(row));
                }
            },
            None => {
                proof {
                    assert(orig.take(1) =~= seq![r]);
                    assert(orig.take(1).drop_last() =~= Seq::<BcdUpdateRow>::empty());
                    assert(runs(orig.take(1)) =~= seq![seq![r]]);
                }
                cur = Some(start_update(row));
            },
        }
        proof { i = i + 1; }
    }
    proof { assert(orig.take(i) =~= orig); }
    match cur {
        Some(u) => {
            res.push(u);
        },
        None => {
            proof { assert(orig.len() == 0); }
        },
    }
    res
}


/// A page of the updates listing: the updates of the page's rows, the query,
/// and the number of the last page.
pub fn updates_page(rows: Vec<BcdUpdateRow>, query: BcdUpdatesQueryParams, last: i64) -> (res: BcdUpdatesPaginatedResponse)
    ensures
        res.data@.len() == runs(rows@).len(),
        forall|j: int| 0 <= j < res.data@.len() ==> update_of(#[trigger] res.data@[j], runs(rows@)[j]),
        res.query == query,
        res.last == last,
{
    BcdUpdatesPaginatedResponse { data: group_updates(rows), query, last }
}

/// The rows of the runs, run after run.
pub open spec fn concat_runs(gs: Seq<Seq<BcdUpdateRow>>) -> Seq<BcdUpdateRow>
    decreases gs.len(),
{
    if gs.len() == 0 {
        Seq::empty()
    } else {
        concat_runs(gs.drop_last()) + gs.last()
    }
}

/// The runs cut the rows without losing, adding or reordering any; every
/// run is non-empty, all its rows belong to the release of its first row,
/// and each run's first row does not belong to the release of the run
/// before it.
pub proof fn lemma_runs_partition(rows: Seq<BcdUpdateRow>)
    ensures
        concat_runs(runs(rows)) == rows,
        forall|j: int| 0 <= j < runs(rows).len() ==> (#[trigger] runs(rows)[j]).len() > 0,
        forall|j: int, k: int| 0 <= j < runs(rows).len() && 0 <= k < runs(rows)[j].len()
            ==> same_release(runs(rows)[j][0], #[trigger] runs(rows)[j][k]),
        forall|j: int| 0 < j < runs(rows).len()
            ==> !same_release(runs(rows)[j - 1][0], (#[trigger] runs(rows)[j])[0]),
    decreases rows.len(),
{
    if rows.len() > 0 {
        let prev = rows.drop_last();
        let r = rows.last();
        lemma_runs_partition(prev);
        let g = runs(prev);
        let gs = runs(rows);
        if g.len() > 0 && same_release(g.last()[0], r) {
            let n = g.len() - 1;
            assert(gs == g.update(n, g.last().push(r)));
            assert(gs.drop_last() =~= g.drop_last());
            assert(concat_runs(g) == concat_runs(g.drop_last()) + g.last());
            assert(concat_runs(gs) == concat_runs(gs.drop_last()) + gs.last());
            assert(concat_runs(gs) =~= concat_runs(g).push(r));
            assert(prev.push(r) =~= rows);
            assert forall|j: int, k: int| 0 <= j < gs.len() && 0 <= k < gs[j].len()
                implies same_release(gs[j][0], #[trigger] gs[j][k]) by {
                if j < n {
                    assert(gs[j] == g[j]);
                } else if k < g[n].len() {
                    assert(gs[j][k] == g[n][k]);
                    assert(gs[j][0] == g[n][0]);
                } else {
                    assert(gs[j][k] == r);
                    assert(gs[j][0] == g[n][0]);
                }
            }
            assert forall|j: int| 0 < j < gs.len() implies !same_release(gs[j - 1][0], (#[trigger] gs[j])[0]) by {
                assert(gs[j][0] == g[j][0]);
                assert(gs[j - 1][0] == g[j - 1][0]);
            }
        } else {
            assert(gs == g.push(seq![r]));
            assert(gs.drop_last() =~= g);
            assert(concat_runs(gs) =~= concat_runs(g) + seq![r]);
            assert(prev.push(r) =~= rows);
            assert(concat_runs(g) + seq![r] =~= concat_runs(g).push(r));
            assert forall|j: int, k: int| 0 <= j < gs.len() && 0 <= k < gs[j].len()
                implies same_release(gs[j][0], #[trigger] gs[j][k]) by {
                if j < g.len() {
                    assert(gs[j] == g[j]);
                }
            }
            assert forall|j: int| 0 < j < gs.len() implies !same_release(gs[j - 1][0], (#[trigger] gs[j])[0]) by {
                if j < g.len() {
                    assert(gs[j] == g[j]);
                    assert(gs[j - 1] == g[j - 1]);
                } else {
                    assert(gs[j][0] == r);
                    assert(gs[j - 1] == g.last());
                }
            }
        }
    }
}


/// The changes of a kind among a row's changes, as a filter.
pub open spec fn events_of_kind(evs: Seq<Event>, kind: BcdUpdateEventType) -> Seq<Event> {
    evs.filter(|e: Event| e.event_type == kind)
}

/// The changes listed for a kind are all the changes of that kind, in order,
/// one entry per change: as many entries as there are changes of the kind,
/// each of them listed, and nothing of another kind.
pub proof fn lemma_kind_events_lists_every_change(evs: Seq<Event>, kind: BcdUpdateEventType)
    ensures
        kind_events(evs, kind) == events_of_kind(evs, kind),
        kind_events(evs, kind).len() == events_of_kind(evs, kind).len(),
        forall|i: int| 0 <= i < evs.len() && evs[i].event_type == kind
            ==> kind_events(evs, kind).contains(#[trigger] evs[i]),
        forall|j: int| 0 <= j < kind_events(evs, kind).len() ==> (#[trigger] kind_events(evs, kind)[j]).event_type == kind,
    decreases evs.len(),
{
    reveal(Seq::filter);
    if evs.len() > 0 {
        let d = evs.drop_last();
        lemma_kind_events_lists_every_change(d, kind);
        assert(events_of_kind(evs, kind) == if evs.last().event_type == kind {
            events_of_kind(d, kind).push(evs.last())
        } else {
            events_of_kind(d, kind)
        });
        let k = kind_events(evs, kind);
        assert forall|i: int| 0 <= i < evs.len() && evs[i].event_type == kind
            implies k.contains(#[trigger] evs[i]) by {
            if i < evs.len() - 1 {
                assert(d[i] == evs[i]);
                assert(kind_events(d, kind).contains(d[i]));
                let j = choose|j: int| 0 <= j < kind_events(d, kind).len() && kind_events(d, kind)[j] == d[i];
                assert(k[j] == evs[i]);
            } else {
                assert(k.last() == evs[i]);
            }
        }
        assert forall|j: int| 0 <= j < k.len() implies (#[trigger] k[j]).event_type == kind by {
            if j < kind_events(d, kind).len() {
                assert(k[j] == kind_events(d, kind)[j]);
            }
        }
    }
}

} // verus!
