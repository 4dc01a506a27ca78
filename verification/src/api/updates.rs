//! Importing browser compatibility data: the rows written for browsers and
//! their releases, for features, and for the features added to and removed
//! from each release, with the caches of ids looked up along the way.

use chrono::{Datelike, NaiveDate};
use vstd::prelude::*;

use crate::text::{clone_strings, push_char, push_str, str_eq, to_owned_string, views};

verus! {

/// A calendar date.
#[derive(Debug, Clone, Copy, PartialEq, Eq, Structural)]
pub struct Date {
    pub year: i32,
    pub month: u32,
    pub day: u32,
}

/// The date that a text reads as, in the `YYYY-MM-DD` form; nothing where it
/// is not a valid date.
pub uninterp spec fn date_of(text: Seq<char>) -> Option<Date>;

/// Reads a date in the `YYYY-MM-DD` form (`chrono::NaiveDate::from_str`);
/// the result, a date or nothing, is named by `date_of`.
#[verifier::external_body]
fn parse_date(text: &str) -> (res: Option<Date>)
    ensures
        res == date_of(text@),
{
    text.parse::<NaiveDate>().ok().map(|d| Date { year: d.year(), month: d.month(), day: d.day() })
}

/// A release of a browser in the data file.
#[derive(Debug, Clone)]
pub struct ReleaseEntry {
    pub release_id: String,
    pub engine: Option<String>,
    pub engine_version: Option<String>,
    pub release_date: Option<String>,
    pub release_notes: Option<String>,
    pub status: Option<String>,
}

/// A browser in the data file, with its releases in order.
#[derive(Debug, Clone)]
pub struct BrowserEntry {
    pub name: String,
    pub accepts_flags: bool,
    pub accepts_webextensions: bool,
    pub pref_url: Option<String>,
    pub preview_name: Option<String>,
    pub releases: Vec<ReleaseEntry>,
}

/// The row written for a browser.
#[derive(Debug, Clone)]
pub struct BrowserRow {
    pub name: String,
    pub accepts_flags: bool,
    pub accepts_webextensions: bool,
    pub pref_url: Option<String>,
    pub preview_name: Option<String>,
}

/// The row written for a browser release.
#[derive(Debug, Clone)]
pub struct ReleaseRow {
    pub browser: String,
    pub engine: String,
    pub engine_version: String,
    pub release_id: String,
    pub release_date: Date,
    pub release_notes: Option<String>,
    pub status: Option<String>,
}

/// A text, or "Unknown" where there is none.
pub open spec fn or_unknown(o: Option<String>) -> Seq<char> {
    match o {
        Some(t) => t@,
        None => "Unknown"@,
    }
}

/// The number of leading releases that have a date: the import of a
/// browser's releases stops at the first one without.
pub open spec fn dated_prefix(rs: Seq<ReleaseEntry>) -> nat
    decreases rs.len(),
{
    if rs.len() == 0 {
        0
    } else if dated_prefix(rs.drop_last()) == rs.len() - 1 && rs.last().release_date is Some {
        rs.len()
    } else {
        dated_prefix(rs.drop_last())
    }
}

/// Whether a release row shows a release of a browser, with the date `d`.
pub open spec fn release_row_of(row: ReleaseRow, browser: Seq<char>, r: ReleaseEntry, d: Date) -> bool {
    &&& row.browser@ == browser
    &&& row.engine@ == or_unknown(r.engine)
    &&& row.engine_version@ == or_unknown(r.engine_version)
    &&& row.release_id@ == r.release_id@
    &&& row.release_date == d
    &&& opt_view(row.release_notes) == opt_view(r.release_notes)
    &&& opt_view(row.status) == opt_view(r.status)
}

pub open spec fn opt_view(o: Option<String>) -> Option<Seq<char>> {
    match o {
        Some(t) => Some(t@),
        None => None,
    }
}

/// The dated releases of the browsers, browser after browser: each browser's
/// releases up to the first one without a date.
pub open spec fn imported_releases(bs: Seq<BrowserEntry>) -> Seq<(Seq<char>, ReleaseEntry)>
    decreases bs.len(),
{
    if bs.len() == 0 {
        Seq::empty()
    } else {
        let b = bs.last();
        imported_releases(bs.drop_last())
            + b.releases@.take(dated_prefix(b.releases@) as int).map_values(|r: ReleaseEntry| (b.name@, r))
    }
}

/// Whether every imported release date reads as a date.
pub open spec fn dates_valid(rs: Seq<(Seq<char>, ReleaseEntry)>) -> bool {
    forall|k: int| 0 <= k < rs.len() ==> date_of((#[trigger] rs[k]).1.release_date->0@) is Some
}

/// Whether the browser rows show the browsers, one for one.
pub open spec fn browser_rows_of(rows: Seq<BrowserRow>, bs: Seq<BrowserEntry>) -> bool {
    &&& rows.len() == bs.len()
    &&& forall|k: int| 0 <= k < rows.len() ==> {
        &&& (#[trigger] rows[k]).name@ == bs[k].name@
        &&& rows[k].accepts_flags == bs[k].accepts_flags
        &&& rows[k].accepts_webextensions == bs[k].accepts_webextensions
        &&& opt_view(rows[k].pref_url) == opt_view(bs[k].pref_url)
        &&& opt_view(rows[k].preview_name) == opt_view(bs[k].preview_name)
    }
}

/// Whether the release rows show the imported releases, one for one.
pub open spec fn release_rows_of(rows: Seq<ReleaseRow>, rs: Seq<(Seq<char>, ReleaseEntry)>) -> bool {
    &&& rows.len() == rs.len()
    &&& forall|k: int| 0 <= k < rows.len() ==>
        release_row_of(#[trigger] rows[k], rs[k].0, rs[k].1, date_of(rs[k].1.release_date->0@)->0)
}

fn or_unknown_text(o: Option<String>) -> (res: String)
    ensures
        res@ == or_unknown(o),
{
    match o {
        Some(t) => t,
        None => to_owned_string("Unknown"),
    }
}

/// The rows of one browser's dated releases, after those already made;
/// nothing where a date does not read as a date.
fn release_rows(name: &String, releases: &Vec<ReleaseEntry>, rows: &mut Vec<ReleaseRow>, Ghost(done): Ghost<Seq<(Seq<char>, ReleaseEntry)>>) -> (ok: bool)
    requires
        release_rows_of(old(rows)@, done),
    ensures
        ({
            let mine = releases@.take(dated_prefix(releases@) as int).map_values(|r: ReleaseEntry| (name@, r));
            ok == dates_valid(mine) && (ok ==> release_rows_of(final(rows)@, done + mine))
        }),
{
    let ghost rs = releases@;
    let mut i: usize = 0;
    while i < releases.len()
        invariant
            i <= rs.len(),
            rs == releases@,
            dated_prefix(rs.take(i as int)) == i,
            i == rs.len() ==> dated_prefix(rs) == i,
            release_rows_of(rows@, done + rs.take(i as int).map_values(|r: ReleaseEntry| (name@, r))),
            dates_valid(rs.take(i as int).map_values(|r: ReleaseEntry| (name@, r))),
        ensures
            i <= rs.len(),
            dated_prefix(rs) == i,
            release_rows_of(rows@, done + rs.take(i as int).map_values(|r: ReleaseEntry| (name@, r))),
            dates_valid(rs.take(i as int).map_values(|r: ReleaseEntry| (name@, r))),
        decreases rs.len() - i,
    {
        let r = &releases[i];
        proof { assert(rs.take(i + 1).drop_last() =~= rs.take(i as int)); }
        match &r.release_date {
            None => {
                proof {
                    lemma_dated_prefix_stops(rs, i as int);
                }
                break;
            },
            Some(text) => {
                match parse_date(text.as_str()) {
                    None => {
                        proof {
                            lemma_dated_prefix_grows(rs, i as int);
                            lemma_dated_prefix_le(rs);
                            let mine = rs.take(dated_prefix(rs) as int).map_values(|e: ReleaseEntry| (name@, e));
                            assert(mine[i as int] == (name@, rs[i as int]));
                            assert(mine[i as int].1.release_date->0@ == text@);
                            assert(!dates_valid(mine));
                        }
                        return false;
                    },
                    Some(d) => {
                        proof { lemma_dated_prefix_grows(rs, i as int); }
                        let ghost before = rows@;
                        rows.push(ReleaseRow {
                            browser: name.clone(),
                            engine: or_unknown_text(r.engine.clone()),
                            engine_version: or_unknown_text(r.engine_version.clone()),
                            release_id: r.release_id.clone(),
                            release_date: d,
                            release_notes: r.release_notes.clone(),
                            status: r.status.clone(),
                        });
                        proof {
                            let prev = done + rs.take(i as int).map_values(|e: ReleaseEntry| (name@, e));
                            let next = done + rs.take(i + 1).map_values(|e: ReleaseEntry| (name@, e));
                            assert(next =~= prev.push((name@, rs[i as int])));
                            assert(rs.take(i + 1).map_values(|e: ReleaseEntry| (name@, e))
                                =~= rs.take(i as int).map_values(|e: ReleaseEntry| (name@, e)).push((name@, rs[i as int])));
                            assert(rows@ == before.push(rows@.last()));
                            assert forall|k: int| 0 <= k < rows@.len() implies
                                release_row_of(#[trigger] rows@[k], next[k].0, next[k].1, date_of(next[k].1.release_date->0@)->0) by {
                                if k < before.len() {
                                    assert(rows@[k] == before[k]);
                                }
                            }
                            assert(rs.take(i + 1).last() == rs[i as int]);
                        }
                    },
                }
            },
        }
        i = i + 1;
        proof {
            if i == rs.len() {
                assert(rs.take(i as int) =~= rs);
            }
        }
    }
    true
}

/// `dated_prefix` of a sequence whose first `i` releases are dated and whose
/// next one is not.
proof fn lemma_dated_prefix_stops(rs: Seq<ReleaseEntry>, i: int)
    requires
        0 <= i < rs.len(),
        dated_prefix(rs.take(i)) == i,
        rs[i].release_date is None,
    ensures
        dated_prefix(rs) == i,
    decreases rs.len(),
{
    if rs.len() == i + 1 {
        assert(rs.drop_last() =~= rs.take(i));
    } else {
        assert(rs.drop_last().take(i) =~= rs.take(i));
        assert(rs.drop_last()[i] == rs[i]);
        lemma_dated_prefix_stops(rs.drop_last(), i);
        assert(dated_prefix(rs.drop_last()) == i);
    }
}

/// The first `i + 1` releases are all kept when the first `i` are and the
/// next one is dated.
proof fn lemma_dated_prefix_grows(rs: Seq<ReleaseEntry>, i: int)
    requires
        0 <= i < rs.len(),
        dated_prefix(rs.take(i)) == i,
        rs[i].release_date is Some,
    ensures
        dated_prefix(rs) >= i + 1,
        dated_prefix(rs.take(i + 1)) == i + 1,
    decreases rs.len(),
{
    assert(rs.take(i + 1).drop_last() =~= rs.take(i));
    assert(rs.take(i + 1).last() == rs[i]);
    if rs.len() == i + 1 {
        assert(rs.take(i + 1) =~= rs);
    } else {
        assert(rs.drop_last().take(i) =~= rs.take(i));
        assert(rs.drop_last().take(i + 1) =~= rs.take(i + 1));
        assert(rs.drop_last()[i] == rs[i]);
        lemma_dated_prefix_grows(rs.drop_last(), i);
        lemma_dated_prefix_mono(rs);
    }
}

proof fn lemma_dated_prefix_le(rs: Seq<ReleaseEntry>)
    ensures
        dated_prefix(rs) <= rs.len(),
    decreases rs.len(),
{
    if rs.len() > 0 {
        lemma_dated_prefix_le(rs.drop_last());
    }
}

proof fn lemma_dated_prefix_mono(rs: Seq<ReleaseEntry>)
    requires
        rs.len() > 0,
    ensures
        dated_prefix(rs) >= dated_prefix(rs.drop_last()),
{
    lemma_dated_prefix_le(rs.drop_last());
}

/// The rows of an import of browsers: one row per browser, and one per
/// dated release (each browser's releases up to the first one without a
/// date; a missing engine or engine version reads "Unknown"). Nothing where a
/// release date is not a date.
pub fn browser_and_release_rows(browsers: &Vec<BrowserEntry>) -> (res: Option<(Vec<BrowserRow>, Vec<ReleaseRow>)>)
    ensures
        dates_valid(imported_releases(browsers@)) ==> (res matches Some(rows)
            && browser_rows_of(rows.0@, browsers@)
            && release_rows_of(rows.1@, imported_releases(browsers@))),
        !dates_valid(imported_releases(browsers@)) ==> res is None,
{
    let ghost bs = browsers@;
    let mut brows: Vec<BrowserRow> = Vec::new();
    let mut rrows: Vec<ReleaseRow> = Vec::new();
    let mut i: usize = 0;
    proof { assert(imported_releases(bs.take(0)) =~= Seq::empty()); }
    while i < browsers.len()
        invariant
            i <= bs.len(),
            bs == browsers@,
            browser_rows_of(brows@, bs.take(i as int)),
            release_rows_of(rrows@, imported_releases(bs.take(i as int))),
            dates_valid(imported_releases(bs.take(i as int))),
        decreases bs.len() - i,
    {
        let b = &browsers[i];
        let ghost before = brows@;
        brows.push(BrowserRow {
            name: b.name.clone(),
            accepts_flags: b.accepts_flags,
            accepts_webextensions: b.accepts_webextensions,
            pref_url: b.pref_url.clone(),
            preview_name: b.preview_name.clone(),
        });
        let ghost done = imported_releases(bs.take(i as int));
        proof {
            assert(bs.take(i + 1).drop_last() =~= bs.take(i as int));
            assert(bs.take(i + 1).last() == bs[i as int]);
            assert forall|k: int| 0 <= k < brows@.len() implies {
                &&& (#[trigger] brows@[k]).name@ == bs.take(i + 1)[k].name@
                &&& brows@[k].accepts_flags == bs.take(i + 1)[k].accepts_flags
                &&& brows@[k].accepts_webextensions == bs.take(i + 1)[k].accepts_webextensions
                &&& opt_view(brows@[k].pref_url) == opt_view(bs.take(i + 1)[k].pref_url)
                &&& opt_view(brows@[k].preview_name) == opt_view(bs.take(i + 1)[k].preview_name)
            } by {
                if k < before.len() {
                    assert(brows@[k] == before[k]);
                }
            }
        }
        let ok = release_rows(&b.name, &b.releases, &mut rrows, Ghost(done));
        if !ok {
            proof {
                let mine = b.releases@.take(dated_prefix(b.releases@) as int).map_values(|r: ReleaseEntry| (b.name@, r));
                lemma_dates_valid_prefix(bs, i as int, mine);
            }
            return None;
        }
        proof {
            let mine = b.releases@.take(dated_prefix(b.releases@) as int).map_values(|r: ReleaseEntry| (b.name@, r));
            assert(imported_releases(bs.take(i + 1)) == done + mine);
            assert forall|k: int| 0 <= k < (done + mine).len() implies
                date_of((#[trigger] (done + mine)[k]).1.release_date->0@) is Some by {
                if k < done.len() {
                    assert((done + mine)[k] == done[k]);
                } else {
                    assert((done + mine)[k] == mine[k - done.len()]);
                }
            }
        }
        i = i + 1;
    }
    proof { assert(bs.take(bs.len() as int) =~= bs); }
    Some((brows, rrows))
}

/// A browser whose kept releases hold a date that does not read makes the
/// whole import's dates invalid.
proof fn lemma_dates_valid_prefix(bs: Seq<BrowserEntry>, i: int, mine: Seq<(Seq<char>, ReleaseEntry)>)
    requires
        0 <= i < bs.len(),
        mine == bs[i].releases@.take(dated_prefix(bs[i].releases@) as int).map_values(|r: ReleaseEntry| (bs[i].name@, r)),
        !dates_valid(mine),
    ensures
        !dates_valid(imported_releases(bs)),
    decreases bs.len(),
{
    let k = choose|k: int| 0 <= k < mine.len() && !(date_of((#[trigger] mine[k]).1.release_date->0@) is Some);
    if i == bs.len() - 1 {
        let all = imported_releases(bs);
        let done = imported_releases(bs.drop_last());
        assert(all == done + mine);
        assert(all[done.len() + k] == mine[k]);
    } else {
        assert(bs.drop_last()[i] == bs[i]);
        lemma_dates_valid_prefix(bs.drop_last(), i, mine);
        let done = imported_releases(bs.drop_last());
        let all = imported_releases(bs);
        let k2 = choose|k2: int| 0 <= k2 < done.len() && !(date_of((#[trigger] done[k2]).1.release_date->0@) is Some);
        assert(all[k2] == done[k2]);
    }
}


/// The status flags of a feature in the data file; each may be missing.
#[derive(Debug, Clone, Copy, PartialEq, Eq, Structural)]
pub struct StatusEntry {
    pub deprecated: Option<bool>,
    pub experimental: Option<bool>,
    pub standard_track: Option<bool>,
}

/// A feature in the data file.
#[derive(Debug, Clone)]
pub struct FeatureEntry {
    pub path: Option<String>,
    pub mdn_url: Option<String>,
    pub source_file: Option<String>,
    pub spec_url: Option<String>,
    pub status: Option<StatusEntry>,
}

/// The row written for a feature.
#[derive(Debug, Clone)]
pub struct FeatureRow {
    pub path: String,
    pub mdn_url: Option<String>,
    pub source_file: String,
    pub spec_url: Option<String>,
    pub deprecated: Option<bool>,
    pub experimental: Option<bool>,
    pub standard_track: Option<bool>,
}

/// The features that are imported: those with a source file.
pub open spec fn imported_features(fs: Seq<FeatureEntry>) -> Seq<FeatureEntry>
    decreases fs.len(),
{
    if fs.len() == 0 {
        Seq::empty()
    } else if fs.last().source_file is Some {
        imported_features(fs.drop_last()).push(fs.last())
    } else {
        imported_features(fs.drop_last())
    }
}

/// Whether a feature row shows a feature: its texts, and each status flag
/// where the feature has a status.
pub open spec fn feature_row_of(row: FeatureRow, f: FeatureEntry) -> bool {
    &&& row.path@ == f.path->0@
    &&& opt_view(row.mdn_url) == opt_view(f.mdn_url)
    &&& row.source_file@ == f.source_file->0@
    &&& opt_view(row.spec_url) == opt_view(f.spec_url)
    &&& row.deprecated == (match f.status { Some(st) => st.deprecated, None => None })
    &&& row.experimental == (match f.status { Some(st) => st.experimental, None => None })
    &&& row.standard_track == (match f.status { Some(st) => st.standard_track, None => None })
}

/// The rows of an import of features: one per feature with a source file,
/// in order; features without one are left out.
pub fn feature_rows(features: &Vec<FeatureEntry>) -> (res: Vec<FeatureRow>)
    requires
        forall|k: int| 0 <= k < features@.len() && (#[trigger] features@[k]).source_file is Some
            ==> features@[k].path is Some,
    ensures
        res@.len() == imported_features(features@).len(),
        forall|k: int| 0 <= k < res@.len() ==> feature_row_of(#[trigger] res@[k], imported_features(features@)[k]),
{
    let ghost fs = features@;
    let mut res: Vec<FeatureRow> = Vec::new();
    let mut i: usize = 0;
    while i < features.len()
        invariant
            i <= fs.len(),
            fs == features@,
            forall|k: int| 0 <= k < fs.len() && (#[trigger] fs[k]).source_file is Some ==> fs[k].path is Some,
            res@.len() == imported_features(fs.take(i as int)).len(),
            forall|k: int| 0 <= k < res@.len() ==> feature_row_of(#[trigger] res@[k], imported_features(fs.take(i as int))[k]),
        decreases fs.len() - i,
    {
        let f = &features[i];
        proof {
            assert(fs.take(i + 1).drop_last() =~= fs.take(i as int));
            assert(fs.take(i + 1).last() == fs[i as int]);
        }
        match (&f.path, &f.source_file) {
            (Some(path), Some(source_file)) => {
                let ghost before = res@;
                let (deprecated, experimental, standard_track) = match &f.status {
                    Some(st) => (st.deprecated, st.experimental, st.standard_track),
                    None => (None, None, None),
                };
                res.push(FeatureRow {
                    path: path.clone(),
                    mdn_url: f.mdn_url.clone(),
                    source_file: source_file.clone(),
                    spec_url: f.spec_url.clone(),
                    deprecated,
                    experimental,
                    standard_track,
                });
                proof {
                    let next = imported_features(fs.take(i + 1));
                    assert(next == imported_features(fs.take(i as int)).push(fs[i as int]));
                    assert forall|k: int| 0 <= k < res@.len() implies feature_row_of(#[trigger] res@[k], next[k]) by {
                        if k < before.len() {
                            assert(res@[k] == before[k]);
                        }
                    }
                }
            },
            _ => {
                proof {
                    assert(fs[i as int].source_file is None);
                }
            },
        }
        i = i + 1;
    }
    proof { assert(fs.take(fs.len() as int) =~= fs); }
    res
}

/// The number of feature rows written at once.
pub const FEATURE_BATCH: usize = 1000;

/// The batches in which `n` rows are written: consecutive ranges of
/// `FEATURE_BATCH` rows, the last one shorter.
pub fn batch_ranges(n: usize) -> (res: Vec<(usize, usize)>)
    ensures
        res@.len() == (n + FEATURE_BATCH - 1) / (FEATURE_BATCH as int),
        forall|k: int| 0 <= k < res@.len() ==> {
            &&& (#[trigger] res@[k]).0 == k * FEATURE_BATCH
            &&& res@[k].1 == if (k + 1) * FEATURE_BATCH <= n { (k + 1) * FEATURE_BATCH } else { n as int }
        },
{
    let mut res: Vec<(usize, usize)> = Vec::new();
    let mut start: usize = 0;
    while start < n
        invariant
            start <= n,
            start < n ==> start == res@.len() * FEATURE_BATCH,
            start < n ==> res@.len() < (n + FEATURE_BATCH - 1) / (FEATURE_BATCH as int),
            start >= n ==> res@.len() == (n + FEATURE_BATCH - 1) / (FEATURE_BATCH as int),
            forall|k: int| 0 <= k < res@.len() ==> {
                &&& (#[trigger] res@[k]).0 == k * FEATURE_BATCH
                &&& res@[k].1 == if (k + 1) * FEATURE_BATCH <= n { (k + 1) * FEATURE_BATCH } else { n as int }
            },
        decreases n - start,
    {
        proof { lemma_batches(n as int, res@.len() as int); }
        let size = if n - start < FEATURE_BATCH { n - start } else { FEATURE_BATCH };
        let ghost len0 = res@.len();
        res.push((start, start + size));
        start = start + size;
        proof {
            assert((len0 + 1) * FEATURE_BATCH == len0 * FEATURE_BATCH + FEATURE_BATCH) by (nonlinear_arith);
            if start < n {
                assert(start == (len0 + 1) * FEATURE_BATCH);
            }
            lemma_batches(n as int, len0 as int);
        }
    }
    proof {
        if n == 0 {
            assert((n + FEATURE_BATCH - 1) / (FEATURE_BATCH as int) == 0);
        }
    }
    res
}

/// How many batches there are before and after one more batch.
proof fn lemma_batches(n: int, k: int)
    requires
        0 <= k,
        k * 1000 < n,
    ensures
        k < (n + 999) / 1000,
        (k + 1) * 1000 < n ==> k + 1 < (n + 999) / 1000,
        (k + 1) * 1000 >= n ==> k + 1 == (n + 999) / 1000,
{
    assert(k < (n + 999) / 1000) by (nonlinear_arith)
        requires 0 <= k, k * 1000 < n;
    assert((k + 1) * 1000 < n ==> k + 1 < (n + 999) / 1000) by (nonlinear_arith)
        requires 0 <= k;
    assert((k + 1) * 1000 >= n ==> k + 1 == (n + 999) / 1000) by (nonlinear_arith)
        requires 0 <= k, k * 1000 < n;
}


/// One object of an entry of the changes file: it names the release (a
/// browser and a version), or lists added or removed features.
#[derive(Debug, Clone)]
pub struct ChangePart {
    pub browser: Option<String>,
    pub version: Option<String>,
    pub added: Option<Vec<String>>,
    pub removed: Option<Vec<String>>,
}

/// The changes of one release, read from an entry of the changes file.
#[derive(Debug, Clone)]
pub struct ReleaseChanges {
    /// The cache key of the release.
    pub key: String,
    pub browser: String,
    pub version: String,
    pub added: Option<Vec<String>>,
    pub removed: Option<Vec<String>>,
}

/// The index of the first part that names a browser.
pub open spec fn first_browser_part(parts: Seq<ChangePart>, from: int) -> Option<int>
    decreases parts.len() - from,
{
    if from < 0 || from >= parts.len() {
        None
    } else if parts[from].browser is Some {
        Some(from)
    } else {
        first_browser_part(parts, from + 1)
    }
}

/// The texts of an optional list of strings.
pub open spec fn opt_list(o: Option<Vec<String>>) -> Option<Seq<Seq<char>>> {
    match o {
        Some(v) => Some(views(v@)),
        None => None,
    }
}

fn clone_list(o: &Option<Vec<String>>) -> (res: Option<Vec<String>>)
    ensures
        opt_list(res) == opt_list(*o),
{
    match o {
        Some(v) => Some(clone_strings(v)),
        None => None,
    }
}

/// Whether a list of features is given and not empty.
pub open spec fn non_empty(o: Option<Vec<String>>) -> bool {
    o matches Some(v) && v@.len() > 0
}

/// The index of the first part with added (or, with `added` false, removed)
/// features.
pub open spec fn first_change_part(parts: Seq<ChangePart>, added: bool, from: int) -> Option<int>
    decreases parts.len() - from,
{
    if from < 0 || from >= parts.len() {
        None
    } else if non_empty(if added { parts[from].added } else { parts[from].removed }) {
        Some(from)
    } else {
        first_change_part(parts, added, from + 1)
    }
}

/// A text padded with spaces on the right to at least `width` characters.
pub open spec fn pad_right(s: Seq<char>, width: nat) -> Seq<char> {
    if s.len() >= width {
        s
    } else {
        s + Seq::new((width - s.len()) as nat, |i: int| ' ')
    }
}

/// The cache key of a release: the browser, a dash, and the version padded
/// to two characters.
pub open spec fn release_key(browser: Seq<char>, version: Seq<char>) -> Seq<char> {
    pad_right(browser, 1) + "-"@ + pad_right(version, 2)
}

fn padded(s: &str, width: usize) -> (res: String)
    ensures
        res@ == pad_right(s@, width as nat),
{
    let mut res = to_owned_string(s);
    let n = crate::text::chars_of(s).len();
    let mut k: usize = n;
    while k < width
        invariant
            n == s@.len(),
            n <= k <= width || (k == n && n >= width),
            res@ == s@ + Seq::new((k - n) as nat, |i: int| ' '),
        decreases width - k,
    {
        push_char(&mut res, ' ');
        proof {
            assert(s@ + Seq::new((k + 1 - n) as nat, |i: int| ' ')
                =~= (s@ + Seq::new((k - n) as nat, |i: int| ' ')).push(' '));
        }
        k = k + 1;
    }
    proof {
        if n >= width {
            assert(s@ + Seq::new(0nat, |i: int| ' ') =~= s@);
        }
    }
    res
}

fn find_browser_part(parts: &Vec<ChangePart>) -> (res: Option<usize>)
    ensures
        match res {
            Some(i) => first_browser_part(parts@, 0) == Some(i as int) && i < parts@.len()
                && parts@[i as int].browser is Some,
            None => first_browser_part(parts@, 0) is None,
        },
{
    let mut i: usize = 0;
    while i < parts.len()
        invariant
            i <= parts@.len(),
            first_browser_part(parts@, 0) == first_browser_part(parts@, i as int),
        decreases parts@.len() - i,
    {
        if parts[i].browser.is_some() {
            return Some(i);
        }
        i = i + 1;
    }
    None
}

fn find_change_part(parts: &Vec<ChangePart>, added: bool) -> (res: Option<usize>)
    ensures
        match res {
            Some(i) => first_change_part(parts@, added, 0) == Some(i as int) && i < parts@.len(),
            None => first_change_part(parts@, added, 0) is None,
        },
{
    let mut i: usize = 0;
    while i < parts.len()
        invariant
            i <= parts@.len(),
            first_change_part(parts@, added, 0) == first_change_part(parts@, added, i as int),
        decreases parts@.len() - i,
    {
        let list = if added { &parts[i].added } else { &parts[i].removed };
        let hit = match list {
            Some(v) => v.len() > 0,
            None => false,
        };
        if hit {
            return Some(i);
        }
        i = i + 1;
    }
    None
}

/// The changes of a release: the release named by the first part that names
/// a browser, and the first non-empty lists of added and of removed
/// features. An entry without either list is skipped.
pub fn release_changes(parts: &Vec<ChangePart>) -> (res: Option<ReleaseChanges>)
    requires
        first_browser_part(parts@, 0) matches Some(b) && parts@[b].version is Some,
    ensures
        ({
            let b = first_browser_part(parts@, 0)->0;
            let browser = parts@[b].browser->0@;
            let version = parts@[b].version->0@;
            let fa = first_change_part(parts@, true, 0);
            let fr = first_change_part(parts@, false, 0);
            &&& (fa is None && fr is None) ==> res is None
            &&& !(fa is None && fr is None) ==> (res matches Some(c) && {
                &&& c.key@ == release_key(browser, version)
                &&& c.browser@ == browser
                &&& c.version@ == version
                &&& opt_list(c.added) == (match fa { Some(k) => opt_list(parts@[k].added), None => None })
                &&& opt_list(c.removed) == (match fr { Some(k) => opt_list(parts@[k].removed), None => None })
            })
        }),
{
    let b = find_browser_part(parts).unwrap();
    let browser = parts[b].browser.clone().unwrap();
    let version = parts[b].version.clone().unwrap();
    let fa = find_change_part(parts, true);
    let fr = find_change_part(parts, false);
    if fa.is_none() && fr.is_none() {
        return None;
    }
    let mut key = padded(browser.as_str(), 1);
    push_str(&mut key, "-");
    let v = padded(version.as_str(), 2);
    push_str(&mut key, v.as_str());
    let added = match fa {
        Some(k) => clone_list(&parts[k].added),
        None => None,
    };
    let removed = match fr {
        Some(k) => clone_list(&parts[k].removed),
        None => None,
    };
    Some(ReleaseChanges { key, browser, version, added, removed })
}


/// Ids looked up during an import, by name, so that each is looked up once.
pub struct IdCache {
    entries: Vec<(String, i64)>,
}

/// Whether a list of entries holds a name.
pub open spec fn has_name(s: Seq<(String, i64)>, k: Seq<char>) -> bool {
    exists|i: int| 0 <= i < s.len() && (#[trigger] s[i]).0@ == k
}

/// The id of a name in a list of entries.
pub open spec fn id_of(s: Seq<(String, i64)>, k: Seq<char>) -> i64 {
    s[choose|i: int| 0 <= i < s.len() && (#[trigger] s[i]).0@ == k].1
}

impl View for IdCache {
    type V = Map<Seq<char>, i64>;

    closed spec fn view(&self) -> Map<Seq<char>, i64> {
        Map::new(|k: Seq<char>| has_name(self.entries@, k), |k: Seq<char>| id_of(self.entries@, k))
    }
}

impl IdCache {
    /// No name appears twice.
    pub closed spec fn wf(&self) -> bool {
        forall|i: int, j: int| 0 <= i < j < self.entries@.len()
            ==> (#[trigger] self.entries@[i]).0@ != (#[trigger] self.entries@[j]).0@
    }

    /// An empty cache.
    pub fn new() -> (res: IdCache)
        ensures
            res.wf(),
            res@ == Map::<Seq<char>, i64>::empty(),
    {
        let res = IdCache { entries: Vec::new() };
        proof { assert(res@ =~= Map::<Seq<char>, i64>::empty()); }
        res
    }

    fn position(&self, name: &str) -> (res: Option<usize>)
        ensures
            match res {
                Some(i) => i < self.entries@.len() && self.entries@[i as int].0@ == name@,
                None => !has_name(self.entries@, name@),
            },
    {
        let mut i: usize = 0;
        while i < self.entries.len()
            invariant
                i <= self.entries@.len(),
                forall|k: int| 0 <= k < i ==> (#[trigger] self.entries@[k]).0@ != name@,
            decreases self.entries@.len() - i,
        {
            if str_eq(self.entries[i].0.as_str(), name) {
                return Some(i);
            }
            i = i + 1;
        }
        None
    }

    /// The id cached for a name.
    pub fn get(&self, name: &str) -> (res: Option<i64>)
        requires
            self.wf(),
        ensures
            res == (if self@.dom().contains(name@) { Some(self@[name@]) } else { None }),
    {
        match self.position(name) {
            Some(i) => {
                proof {
                    let j = choose|j: int| 0 <= j < self.entries@.len() && (#[trigger] self.entries@[j]).0@ == name@;
                    if j != i {
                        if j < i {
                            assert(self.entries@[j].0@ != self.entries@[i as int].0@);
                        } else {
                            assert(self.entries@[i as int].0@ != self.entries@[j].0@);
                        }
                    }
                    assert(self@.dom().contains(name@));
                }
                Some(self.entries[i].1)
            },
            None => None,
        }
    }

    /// Caches the id of a name, in place of any id cached for it before.
    pub fn insert(&mut self, name: String, id: i64)
        requires
            old(self).wf(),
        ensures
            final(self).wf(),
            final(self)@ == old(self)@.insert(name@, id),
    {
        let ghost old_entries = self.entries@;
        let ghost k = name@;
        match self.position(name.as_str()) {
            Some(i) => {
                self.entries.set(i, (name, id));
                proof {
                    let s = self.entries@;
                    assert forall|a: int, b: int| 0 <= a < b < s.len() implies (#[trigger] s[a]).0@ != (#[trigger] s[b]).0@ by {
                        if a == i {
                            assert(old_entries[b].0@ != old_entries[i as int].0@);
                        } else if b == i {
                            assert(old_entries[a].0@ != old_entries[i as int].0@);
                        } else {
                            assert(s[a] == old_entries[a] && s[b] == old_entries[b]);
                        }
                    }
                    assert forall|n: Seq<char>| #[trigger] has_name(s, n) == (has_name(old_entries, n) || n == k) by {
                        if has_name(old_entries, n) {
                            let j = choose|j: int| 0 <= j < old_entries.len() && (#[trigger] old_entries[j]).0@ == n;
                            if j == i {
                                assert(s[i as int].0@ == n);
                            } else {
                                assert(s[j] == old_entries[j]);
                            }
                        }
                        if has_name(s, n) {
                            let j = choose|j: int| 0 <= j < s.len() && (#[trigger] s[j]).0@ == n;
                            if j != i {
                                assert(s[j] == old_entries[j]);
                            }
                        }
                        if n == k {
                            assert(s[i as int].0@ == n);
                        }
                    }
                    assert forall|n: Seq<char>| #[trigger] has_name(s, n) implies id_of(s, n) == (if n == k { id } else { id_of(old_entries, n) }) by {
                        let j = choose|j: int| 0 <= j < s.len() && (#[trigger] s[j]).0@ == n;
                        if n == k {
                            if j != i {
                                if j < i { assert(s[j].0@ != s[i as int].0@); } else { assert(s[i as int].0@ != s[j].0@); }
                            }
                        } else {
                            assert(j != i);
                            assert(s[j] == old_entries[j]);
                            let j2 = choose|j2: int| 0 <= j2 < old_entries.len() && (#[trigger] old_entries[j2]).0@ == n;
                            if j2 != j {
                                if j2 < j { assert(old_entries[j2].0@ != old_entries[j].0@); } else { assert(old_entries[j].0@ != old_entries[j2].0@); }
                            }
                        }
                    }
                    assert(self@ =~= old(self)@.insert(k, id));
                }
            },
            None => {
                self.entries.push((name, id));
                proof {
                    let s = self.entries@;
                    let last = (s.len() - 1) as int;
                    assert forall|a: int, b: int| 0 <= a < b < s.len() implies (#[trigger] s[a]).0@ != (#[trigger] s[b]).0@ by {
                        if b == last {
                            assert(s[a] == old_entries[a]);
                        } else {
                            assert(s[a] == old_entries[a] && s[b] == old_entries[b]);
                        }
                    }
                    assert forall|n: Seq<char>| #[trigger] has_name(s, n) == (has_name(old_entries, n) || n == k) by {
                        if has_name(old_entries, n) {
                            let j = choose|j: int| 0 <= j < old_entries.len() && (#[trigger] old_entries[j]).0@ == n;
                            assert(s[j] == old_entries[j]);
                        }
                        if has_name(s, n) {
                            let j = choose|j: int| 0 <= j < s.len() && (#[trigger] s[j]).0@ == n;
                            if j != last {
                                assert(s[j] == old_entries[j]);
                            }
                        }
                        if n == k {
                            assert(s[last].0@ == n);
                        }
                    }
                    assert forall|n: Seq<char>| #[trigger] has_name(s, n) implies id_of(s, n) == (if n == k { id } else { id_of(old_entries, n) }) by {
                        let j = choose|j: int| 0 <= j < s.len() && (#[trigger] s[j]).0@ == n;
                        if n == k {
                            if j != last {
                                assert(s[j] == old_entries[j]);
                                assert(has_name(old_entries, k));
                            }
                        } else {
                            assert(j != last);
                            assert(s[j] == old_entries[j]);
                            let j2 = choose|j2: int| 0 <= j2 < old_entries.len() && (#[trigger] old_entries[j2]).0@ == n;
                            if j2 != j {
                                if j2 < j { assert(old_entries[j2].0@ != old_entries[j].0@); } else { assert(old_entries[j].0@ != old_entries[j2].0@); }
                            }
                        }
                    }
                    assert(self@ =~= old(self)@.insert(k, id));
                }
            },
        }
    }
}

/// What a cache gives back for a name is what was last cached for it; the
/// other names keep their ids.
pub proof fn lemma_cache_read_after_write(cache: Map<Seq<char>, i64>, name: Seq<char>, id: i64, other: Seq<char>)
    requires
        other != name,
    ensures
        cache.insert(name, id).dom().contains(name),
        cache.insert(name, id)[name] == id,
        cache.insert(name, id).dom().contains(other) == cache.dom().contains(other),
        cache.dom().contains(other) ==> cache.insert(name, id)[other] == cache[other],
{
}

/// The row written for a feature change in a release.
#[derive(Debug, Clone, Copy, PartialEq, Eq, Structural)]
pub struct BcdUpdateInsert {
    pub browser_release: i64,
    pub document_id: i64,
    pub event_type: crate::api::v2::updates::BcdUpdateEventType,
    pub feature: i64,
}

/// The rows for the features (by id) that a release changed in one way, in
/// order.
pub fn update_inserts(browser_release: i64, event_type: crate::api::v2::updates::BcdUpdateEventType, features: &Vec<i64>) -> (res: Vec<BcdUpdateInsert>)
    ensures
        res@.len() == features@.len(),
        forall|k: int| 0 <= k < res@.len() ==> #[trigger] res@[k] == (BcdUpdateInsert {
            browser_release,
            document_id: 1,
            event_type,
            feature: features@[k],
        }),
{
    let mut res: Vec<BcdUpdateInsert> = Vec::new();
    let mut i: usize = 0;
    while i < features.len()
        invariant
            i <= features@.len(),
            res@.len() == i,
            forall|k: int| 0 <= k < i ==> #[trigger] res@[k] == (BcdUpdateInsert {
                browser_release,
                document_id: 1,
                event_type,
                feature: features@[k],
            }),
        decreases features@.len() - i,
    {
        res.push(BcdUpdateInsert { browser_release, document_id: 1, event_type, feature: features[i] });
        i = i + 1;
    }
    res
}


/// The features with a source file, as a filter.
pub open spec fn with_source_file(fs: Seq<FeatureEntry>) -> Seq<FeatureEntry> {
    fs.filter(|f: FeatureEntry| f.source_file is Some)
}

/// Every feature with a source file is imported, whatever else it carries
/// (a status or none): the imported features are those with a source file,
/// in order, one per such feature, and no feature without one.
pub proof fn lemma_every_sourced_feature_imported(fs: Seq<FeatureEntry>)
    ensures
        imported_features(fs) == with_source_file(fs),
        imported_features(fs).len() == with_source_file(fs).len(),
        forall|i: int| 0 <= i < fs.len() && fs[i].source_file is Some
            ==> imported_features(fs).contains(#[trigger] fs[i]),
        forall|j: int| 0 <= j < imported_features(fs).len() ==> (#[trigger] imported_features(fs)[j]).source_file is Some,
    decreases fs.len(),
{
    reveal(Seq::filter);
    if fs.len() > 0 {
        let d = fs.drop_last();
        lemma_every_sourced_feature_imported(d);
        assert(with_source_file(fs) == if fs.last().source_file is Some {
            with_source_file(d).push(fs.last())
        } else {
            with_source_file(d)
        });
        let k = imported_features(fs);
        assert forall|i: int| 0 <= i < fs.len() && fs[i].source_file is Some
            implies k.contains(#[trigger] fs[i]) by {
            if i < fs.len() - 1 {
                assert(d[i] == fs[i]);
                assert(imported_features(d).contains(d[i]));
                let j = choose|j: int| 0 <= j < imported_features(d).len() && imported_features(d)[j] == d[i];
                assert(k[j] == fs[i]);
            } else {
                assert(k.last() == fs[i]);
            }
        }
        assert forall|j: int| 0 <= j < k.len() implies (#[trigger] k[j]).source_file is Some by {
            if j < imported_features(d).len() {
                assert(k[j] == imported_features(d)[j]);
            }
        }
    }
}

} // verus!
