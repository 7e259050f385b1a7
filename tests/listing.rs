use mannager::game::SourceEngineVersion;
use mannager::listing::{parse_entry, resolve_from_page, resolve_latest, Branch, ResolvedVersion};
use mannager::plugins::{MetamodBranch, MetamodDownloader, SourcemodBranch, SourcemodDownloader};
use mannager::platform::TargetOs;

fn entries(v: &[&str]) -> Vec<String> {
    v.iter().map(|s| s.to_string()).collect()
}

#[test]
fn dev_branch_picks_highest_minor_per_engine() {
    let e = entries(&["1.5/", "1.7/", "1.6/", "2.3/"]);
    let v1 = resolve_latest(&e, 0, Branch::Dev, SourceEngineVersion::Source1);
    assert_eq!(v1.to_version_string(), "1.7");
    let v2 = resolve_latest(&e, 0, Branch::Dev, SourceEngineVersion::Source2);
    assert_eq!(v2.to_version_string(), "2.3");
}

#[test]
fn stable_branch_is_dev_before_its_last_rise() {
    let e = entries(&["1.5/", "1.7/", "1.6/", "2.3/"]);
    let v = resolve_latest(&e, 0, Branch::Stable, SourceEngineVersion::Source1);
    assert_eq!(v, ResolvedVersion { major: 1, minor: 5 });
    let v2 = resolve_latest(&e, 0, Branch::Stable, SourceEngineVersion::Source2);
    assert_eq!(v2, ResolvedVersion { major: 2, minor: 0 });
}

#[test]
fn navigation_rows_are_skipped() {
    let e = entries(&["Parent Directory", "1.12/", "1.11/"]);
    let v = resolve_latest(&e, 2, Branch::Dev, SourceEngineVersion::Source1);
    assert_eq!(v.minor, 11);
    let none = resolve_latest(&e, 10, Branch::Dev, SourceEngineVersion::Source1);
    assert_eq!(none.to_version_string(), "1.0");
}

#[test]
fn no_matching_entry_gives_minor_zero() {
    let e = entries(&["../", "3.1/", "x.y/"]);
    let v = resolve_latest(&e, 0, Branch::Dev, SourceEngineVersion::Source2);
    assert_eq!(v.to_version_string(), "2.0");
}

#[test]
fn entries_parse_like_directory_names() {
    assert_eq!(parse_entry("1.11/"), Some((1, 11)));
    assert_eq!(parse_entry(" 2.0 "), Some((2, 0)));
    assert_eq!(parse_entry("1.10.7/"), Some((1, 10)));
    assert_eq!(parse_entry("+1.4//"), Some((1, 4)));
    assert_eq!(parse_entry("1.7/ "), None);
    assert_eq!(parse_entry("1"), None);
    assert_eq!(parse_entry("1."), None);
    assert_eq!(parse_entry("-1.2"), None);
    assert_eq!(parse_entry("1.99999999999"), None);
    assert_eq!(parse_entry("Parent Directory"), None);
}

#[test]
fn page_anchors_are_read_in_order() {
    let page = "<a href=\"../\">Parent</a><a href=\"1.5/\">1.5/</a><a href=\"1.7/\">1.7/</a>\
                <a href=\"1.6/\">1.6/</a><a href=\"2.3/\">2.3/</a>";
    let v = resolve_from_page(page, 1, Branch::Dev, SourceEngineVersion::Source1).unwrap();
    assert_eq!(v.to_version_string(), "1.7");
    let v2 = resolve_from_page(page, 1, Branch::Dev, SourceEngineVersion::Source2).unwrap();
    assert_eq!(v2.to_version_string(), "2.3");
}

#[test]
fn sourcemod_listing_skips_one_row() {
    let page = "<a>1.99/</a><a>1.11/</a><a>1.12/</a>";
    let v = SourcemodDownloader::latest_version(page, &SourcemodBranch::Dev, &SourceEngineVersion::Source1)
        .unwrap();
    assert_eq!(v.to_version_string(), "1.12");
    let s = SourcemodDownloader::latest_version(page, &SourcemodBranch::Stable, &SourceEngineVersion::Source1)
        .unwrap();
    assert_eq!(s.to_version_string(), "1.11");
}

#[test]
fn metamod_listing_skips_five_rows() {
    let page = "<a>1.50/</a><a>a</a><a>b</a><a>c</a><a>d</a><a>1.11/</a><a>1.12/</a>";
    let v = MetamodDownloader::latest_version(page, &MetamodBranch::Dev, &SourceEngineVersion::Source1)
        .unwrap();
    assert_eq!(v.to_version_string(), "1.12");
}

#[test]
fn release_addresses() {
    let v = ResolvedVersion { major: 1, minor: 12 };
    assert_eq!(
        MetamodDownloader::latest_name_url(&v, TargetOs::Linux),
        "https://mms.alliedmods.net/mmsdrop/1.12/mmsource-latest-linux"
    );
    assert_eq!(
        SourcemodDownloader::latest_name_url(&v, TargetOs::Windows),
        "https://sm.alliedmods.net/smdrop/1.12/sourcemod-latest-windows"
    );
    assert_eq!(
        SourcemodDownloader::archive_url(&v, "sourcemod-1.12.0-git7110-linux.tar.gz"),
        "https://sm.alliedmods.net/smdrop/1.12/sourcemod-1.12.0-git7110-linux.tar.gz"
    );
    assert_eq!(
        MetamodDownloader::archive_url(&ResolvedVersion { major: 2, minor: 0 }, "mm.zip"),
        "https://mms.alliedmods.net/mmsdrop/2.0/mm.zip"
    );
}

#[test]
fn empty_listing_still_resolves_to_minor_zero() {
    let v = SourcemodDownloader::latest_version("<p>nothing</p>", &SourcemodBranch::Stable, &SourceEngineVersion::Source1);
    assert_eq!(v.unwrap().to_version_string(), "1.0");
    let m = MetamodDownloader::latest_version("<a>2.1/</a>", &MetamodBranch::Dev, &SourceEngineVersion::Source2);
    assert_eq!(m.unwrap().to_version_string(), "2.0");
}
