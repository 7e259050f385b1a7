//! Reading release versions out of a directory-listing page.
//!
//! Each anchor of the page names a release directory such as `1.11/`. The
//! scan keeps two running values: `dev`, the largest minor version seen,
//! and `stable`, the value `dev` held just before it last grew.
use vstd::prelude::*;
use crate::game::{SourceEngineVersion, engine_major};
use crate::error::Error;
use crate::text::{
    after_sep, before_sep, chars_of, decimal_text, find_sep, parse_u32, parse_u32_in, push_decimal,
    strings_view, trim_end_char, trim_end_char_at, trim_end_white_at, trim_start_white_at, trim_white,
};

verus! {

/// The `(major, minor)` pair that one anchor text names, if it names one:
/// trailing `/` removed, then surrounding whitespace, then the first two
/// `.`-separated fields read as `u32`.
pub open spec fn entry_version(s: Seq<char>) -> Option<(u32, u32)> {
    let t = trim_white(trim_end_char(s, '/'));
    match parse_u32(before_sep(t, '.')) {
        Some(major) => match after_sep(t, '.') {
            Some(rest) => match parse_u32(before_sep(rest, '.')) {
                Some(minor) => Some((major, minor)),
                None => None,
            },
            None => None,
        },
        None => None,
    }
}

/// The minor versions, in page order, of the entries whose major is `major`.
pub open spec fn matching_minors(entries: Seq<Seq<char>>, major: u32) -> Seq<u32>
    decreases entries.len(),
{
    if entries.len() == 0 {
        Seq::empty()
    } else {
        let rest = matching_minors(entries.drop_last(), major);
        match entry_version(entries.last()) {
            Some(v) => if v.0 == major { rest.push(v.1) } else { rest },
            None => rest,
        }
    }
}

/// `(stable, dev)` after scanning `minors` in order from `(0, 0)`: a minor
/// above `dev` moves `dev` into `stable` and becomes the new `dev`.
pub open spec fn track(minors: Seq<u32>) -> (u32, u32)
    decreases minors.len(),
{
    if minors.len() == 0 {
        (0, 0)
    } else {
        let prev = track(minors.drop_last());
        if minors.last() > prev.1 {
            (prev.1, minors.last())
        } else {
            prev
        }
    }
}

/// The entries that remain after the first `skip` navigation rows.
pub open spec fn listed(entries: Seq<Seq<char>>, skip: nat) -> Seq<Seq<char>> {
    if skip <= entries.len() {
        entries.skip(skip as int)
    } else {
        Seq::empty()
    }
}

/// `(stable, dev)` for engine `engine` on a page whose anchors are `entries`.
pub open spec fn scan_spec(entries: Seq<Seq<char>>, skip: nat, engine: SourceEngineVersion) -> (u32, u32) {
    track(matching_minors(listed(entries, skip), engine_major(engine)))
}

/// The `(major, minor)` pair that the anchor text `s` names, if any.
pub fn parse_entry(s: &str) -> (r: Option<(u32, u32)>)
    ensures
        r == entry_version(s@),
{
    let cs = chars_of(s);
    let n = cs.len();
    assert(cs@.subrange(0, n as int) =~= cs@);
    let end = trim_end_char_at(&cs, n, '/');
    let end2 = trim_end_white_at(&cs, 0, end);
    let start = trim_start_white_at(&cs, 0, end2);
    let ghost t = cs@.subrange(start as int, end2 as int);
    assert(t == trim_white(trim_end_char(s@, '/')));
    let dot = find_sep(&cs, start, end2, '.');
    let major = parse_u32_in(&cs, start, dot);
    match major {
        None => None,
        Some(major) => {
            if dot == end2 {
                None
            } else {
                let dot2 = find_sep(&cs, dot + 1, end2, '.');
                match parse_u32_in(&cs, dot + 1, dot2) {
                    None => None,
                    Some(minor) => Some((major, minor)),
                }
            }
        },
    }
}

/// Whether the anchor text `s` names a release of major version `major`.
pub open spec fn is_release_of(s: Seq<char>, major: u32) -> bool {
    entry_version(s) is Some && entry_version(s).unwrap().0 == major
}

/// `(stable, dev)` minors for `engine` over the anchors `entries`, the
/// first `skip` of them being navigation rows.
pub fn scan_minors(entries: &Vec<String>, skip: usize, engine: SourceEngineVersion) -> (r: (u32, u32))
    ensures
        r == scan_spec(strings_view(entries@), skip as nat, engine),
{
    let ghost view = strings_view(entries@);
    let major = engine.major();
    let n = entries.len();
    let start = if skip < n { skip } else { n };
    let mut stable: u32 = 0;
    let mut dev: u32 = 0;
    let mut i = start;
    assert(view.subrange(start as int, start as int) =~= Seq::<Seq<char>>::empty());
    while i < n
        invariant
            start <= i <= n,
            n == entries@.len(),
            view == strings_view(entries@),
            major == engine_major(engine),
            (stable, dev) == track(matching_minors(view.subrange(start as int, i as int), major)),
        decreases n - i,
    {
        let ghost pre = view.subrange(start as int, i as int);
        let ghost cur = view.subrange(start as int, i + 1);
        assert(cur.drop_last() =~= pre);
        assert(cur.last() == entries@[i as int]@);
        let parsed = parse_entry(entries[i].as_str());
        match parsed {
            Some(v) => {
                if v.0 == major {
                    assert(matching_minors(cur, major) == matching_minors(pre, major).push(v.1));
                    assert(matching_minors(cur, major).drop_last() =~= matching_minors(pre, major));
                    if v.1 > dev {
                        stable = dev;
                        dev = v.1;
                    }
                }
            },
            None => {},
        }
        i += 1;
    }
    assert(listed(view, skip as nat) =~= view.subrange(start as int, n as int));
    (stable, dev)
}

proof fn lemma_track_dev_is_max(ms: Seq<u32>)
    ensures
        forall|j: int| 0 <= j < ms.len() ==> ms[j] <= track(ms).1,
        ms.len() > 0 ==> exists|j: int| 0 <= j < ms.len() && ms[j] == track(ms).1,
    decreases ms.len(),
{
    if ms.len() > 0 {
        let pre = ms.drop_last();
        lemma_track_dev_is_max(pre);
        assert forall|j: int| 0 <= j < ms.len() implies ms[j] <= track(ms).1 by {
            if j < pre.len() {
                assert(ms[j] == pre[j]);
            }
        }
        if ms.last() <= track(pre).1 && pre.len() > 0 {
            let j = choose|j: int| 0 <= j < pre.len() && pre[j] == track(pre).1;
            assert(ms[j] == pre[j]);
        } else if ms.last() <= track(pre).1 {
            assert(ms[ms.len() - 1] == ms.last());
        } else {
            assert(ms[ms.len() - 1] == ms.last());
        }
    }
}

proof fn lemma_matching_minors(entries: Seq<Seq<char>>, major: u32)
    ensures
        forall|i: int| 0 <= i < entries.len() && is_release_of(entries[i], major) ==>
            exists|k: int| 0 <= k < matching_minors(entries, major).len()
                && matching_minors(entries, major)[k] == (#[trigger] entry_version(entries[i])).unwrap().1,
        forall|k: int| 0 <= k < matching_minors(entries, major).len() ==>
            exists|i: int| 0 <= i < entries.len()
                && entry_version(entries[i]) == Some((major, #[trigger] matching_minors(entries, major)[k])),
    decreases entries.len(),
{
    if entries.len() > 0 {
        let pre = entries.drop_last();
        lemma_matching_minors(pre, major);
        let mp = matching_minors(pre, major);
        let mm = matching_minors(entries, major);
        let last = entries.len() - 1;
        assert(entries[last] == entries.last());
        assert forall|i: int| 0 <= i < entries.len() && is_release_of(entries[i], major) implies
            exists|k: int| 0 <= k < mm.len() && mm[k] == (#[trigger] entry_version(entries[i])).unwrap().1 by {
            if i < last {
                assert(entries[i] == pre[i]);
                let k = choose|k: int| 0 <= k < mp.len() && mp[k] == entry_version(pre[i]).unwrap().1;
                assert(mm[k] == mp[k]);
            } else {
                assert(mm[mp.len() as int] == entry_version(entries[i]).unwrap().1);
            }
        }
        assert forall|k: int| 0 <= k < mm.len() implies
            exists|i: int| 0 <= i < entries.len() && entry_version(entries[i]) == Some((major, #[trigger] mm[k])) by {
            if k < mp.len() {
                assert(mm[k] == mp[k]);
                let i = choose|i: int| 0 <= i < pre.len() && entry_version(pre[i]) == Some((major, mp[k]));
                assert(entries[i] == pre[i]);
            } else {
                assert(entry_version(entries[last]) == Some((major, mm[k])));
            }
        }
    }
}

proof fn lemma_track_stable_below_dev(ms: Seq<u32>)
    ensures
        track(ms).0 <= track(ms).1,
    decreases ms.len(),
{
    if ms.len() > 0 {
        lemma_track_stable_below_dev(ms.drop_last());
    }
}

/// The stable minor only ever holds an earlier dev value, so it never
/// exceeds the dev minor of the same page.
pub proof fn lemma_stable_not_above_dev(entries: Seq<Seq<char>>, skip: nat, engine: SourceEngineVersion)
    ensures
        resolve_spec(entries, skip, Branch::Stable, engine).minor
            <= resolve_spec(entries, skip, Branch::Dev, engine).minor,
{
    lemma_track_stable_below_dev(matching_minors(listed(entries, skip), engine_major(engine)));
}

/// When the listed entries name at least one release of the requested
/// engine, the `dev` minor that a scan finds is the largest minor among
/// those releases, and one of them carries it.
pub proof fn lemma_dev_is_latest(entries: Seq<Seq<char>>, skip: nat, engine: SourceEngineVersion)
    requires
        exists|i: int| 0 <= i < listed(entries, skip).len()
            && is_release_of(#[trigger] listed(entries, skip)[i], engine_major(engine)),
    ensures
        forall|i: int| 0 <= i < listed(entries, skip).len()
            && is_release_of(#[trigger] listed(entries, skip)[i], engine_major(engine))
            ==> entry_version(listed(entries, skip)[i]).unwrap().1 <= scan_spec(entries, skip, engine).1,
        exists|i: int| 0 <= i < listed(entries, skip).len()
            && entry_version(#[trigger] listed(entries, skip)[i])
                == Some((engine_major(engine), scan_spec(entries, skip, engine).1)),
{
    let l = listed(entries, skip);
    let major = engine_major(engine);
    let mm = matching_minors(l, major);
    lemma_matching_minors(l, major);
    lemma_track_dev_is_max(mm);
    let i0 = choose|i: int| 0 <= i < l.len() && is_release_of(#[trigger] l[i], major);
    let k0 = choose|k: int| 0 <= k < mm.len() && mm[k] == entry_version(l[i0]).unwrap().1;
    assert(mm.len() > 0);
    let k = choose|j: int| 0 <= j < mm.len() && mm[j] == track(mm).1;
    assert(mm[k] == track(mm).1);
    let i = choose|i: int| 0 <= i < l.len() && entry_version(l[i]) == Some((major, #[trigger] mm[k]));
    assert(entry_version(l[i]) == Some((major, scan_spec(entries, skip, engine).1)));
    assert forall|i: int| 0 <= i < l.len() && is_release_of(#[trigger] l[i], major)
        implies entry_version(l[i]).unwrap().1 <= scan_spec(entries, skip, engine).1 by {
        let k = choose|k: int| 0 <= k < mm.len() && mm[k] == entry_version(l[i]).unwrap().1;
    }
}

/// A release track.
#[derive(Debug, Clone, Copy, PartialEq, Eq, Structural)]
pub enum Branch {
    Stable,
    Dev,
}

/// A release directory, written `major.minor`.
#[derive(Debug, Clone, Copy, PartialEq, Eq, Structural)]
pub struct ResolvedVersion {
    pub major: u32,
    pub minor: u32,
}

pub open spec fn version_text(major: u32, minor: u32) -> Seq<char> {
    decimal_text(major as nat) + seq!['.'] + decimal_text(minor as nat)
}

impl ResolvedVersion {
    /// The directory name, such as `1.12`.
    pub fn to_version_string(&self) -> (r: String)
        ensures
            r@ == version_text(self.major, self.minor),
    {
        let mut s = String::new();
        push_decimal(&mut s, self.major);
        proof {
            reveal_strlit(".");
        }
        s.append(".");
        push_decimal(&mut s, self.minor);
        assert(s@ =~= version_text(self.major, self.minor));
        s
    }
}

/// The version that `branch` selects for `engine` on a page with anchors `entries`.
pub open spec fn resolve_spec(
    entries: Seq<Seq<char>>,
    skip: nat,
    branch: Branch,
    engine: SourceEngineVersion,
) -> ResolvedVersion {
    let t = scan_spec(entries, skip, engine);
    ResolvedVersion {
        major: engine_major(engine),
        minor: match branch {
            Branch::Stable => t.0,
            Branch::Dev => t.1,
        },
    }
}

/// The release that `branch` selects for `engine`, given the anchor texts
/// of the listing page in page order; the first `skip` are navigation rows.
/// With no release of that engine listed the minor is 0.
pub fn resolve_latest(
    entries: &Vec<String>,
    skip: usize,
    branch: Branch,
    engine: SourceEngineVersion,
) -> (r: ResolvedVersion)
    ensures
        r == resolve_spec(strings_view(entries@), skip as nat, branch, engine),
{
    let (stable, dev) = scan_minors(entries, skip, engine);
    let minor = match branch {
        Branch::Stable => stable,
        Branch::Dev => dev,
    };
    ResolvedVersion { major: engine.major(), minor }
}

/// The inner markup of each `<a>` element of an HTML page, in the order in
/// which the parsed tree holds its nodes.
pub uninterp spec fn anchors_of(page: Seq<char>) -> Seq<Seq<char>>;

/// Relies on scraper: `Selector::parse("a")` builds the anchor selector (a
/// fixed, valid selector, so the parse always succeeds), `Html::parse_fragment`
/// parses the page, `Html::select` walks the tree's nodes in the order the
/// tree holds them and `ElementRef::inner_html` gives each anchor's inner
/// markup. The texts depend on the page alone.
#[verifier::external_body]
fn anchor_texts(page: &str) -> (r: Vec<String>)
    ensures
        strings_view(r@) == anchors_of(page@),
{
    let selector = scraper::Selector::parse("a").expect("`a` is a valid selector");
    let html = scraper::Html::parse_fragment(page);
    html.select(&selector).map(|e| e.inner_html()).collect()
}

/// The release that `branch` selects for `engine` on the listing page
/// `page`, whose first `skip` anchors are navigation rows. Every page has
/// one: with no release of `engine` listed, the minor is 0.
pub fn resolve_from_page(
    page: &str,
    skip: usize,
    branch: Branch,
    engine: SourceEngineVersion,
) -> (r: Result<ResolvedVersion, Error>)
    ensures
        r == Ok::<ResolvedVersion, Error>(resolve_spec(anchors_of(page@), skip as nat, branch, engine)),
{
    let entries = anchor_texts(page);
    Ok(resolve_latest(&entries, skip, branch, engine))
}

} // verus!
