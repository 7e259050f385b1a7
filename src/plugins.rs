//! Where the plugin runtimes (Metamod:Source and SourceMod) are published,
//! and which release of each a server gets.
use vstd::prelude::*;
use crate::error::Error;
use crate::game::SourceEngineVersion;
use crate::listing::{anchors_of, resolve_from_page, resolve_spec, version_text, Branch, ResolvedVersion};
use crate::platform::{os_name_spec, TargetOs};

verus! {

/// `{base}/{major}.{minor}/{file}`.
pub open spec fn release_url_spec(base: Seq<char>, version: ResolvedVersion, file: Seq<char>) -> Seq<char> {
    base + seq!['/'] + version_text(version.major, version.minor) + seq!['/'] + file
}

/// The address of `file` in the release directory `version` under `base`.
pub fn release_url(base: &str, version: &ResolvedVersion, file: &str) -> (r: String)
    ensures
        r@ == release_url_spec(base@, *version, file@),
{
    proof {
        reveal_strlit("/");
    }
    let mut s = String::from_str(base);
    s.append("/");
    let v = version.to_version_string();
    s.append(v.as_str());
    s.append("/");
    s.append(file);
    assert(s@ =~= release_url_spec(base@, *version, file@));
    s
}

pub struct MetamodDownloader;

#[derive(Debug, Clone, Copy, PartialEq, Eq, Structural)]
pub enum MetamodBranch {
    Stable,
    Dev,
}

impl MetamodBranch {
    pub fn to_branch(&self) -> (r: Branch)
        ensures
            r == (match *self {
                MetamodBranch::Stable => Branch::Stable,
                MetamodBranch::Dev => Branch::Dev,
            }),
    {
        match self {
            MetamodBranch::Stable => Branch::Stable,
            MetamodBranch::Dev => Branch::Dev,
        }
    }
}

pub open spec fn metamod_listing() -> Seq<char> {
    "https://mms.alliedmods.net/mmsdrop"@
}

/// The listing page opens with this many navigation anchors.
pub const METAMOD_NAVIGATION_ROWS: usize = 5;

impl MetamodDownloader {
    /// The directory-listing page of all releases.
    pub fn listing_url() -> (r: &'static str)
        ensures
            r@ == metamod_listing(),
    {
        "https://mms.alliedmods.net/mmsdrop"
    }

    /// The release that `branch` selects for `engine`, read from the
    /// listing page's HTML; the minor is 0 when no release of `engine` is
    /// listed.
    pub fn latest_version(
        page: &str,
        branch: &MetamodBranch,
        engine: &SourceEngineVersion,
    ) -> (r: Result<ResolvedVersion, Error>)
        ensures
            r == Ok::<ResolvedVersion, Error>(resolve_spec(
                anchors_of(page@),
                METAMOD_NAVIGATION_ROWS as nat,
                match *branch {
                    MetamodBranch::Stable => Branch::Stable,
                    MetamodBranch::Dev => Branch::Dev,
                },
                *engine,
            )),
    {
        resolve_from_page(page, METAMOD_NAVIGATION_ROWS, branch.to_branch(), *engine)
    }

    /// The small text file naming the newest archive of release `version`.
    pub fn latest_name_url(version: &ResolvedVersion, os: TargetOs) -> (r: String)
        ensures
            r@ == release_url_spec(metamod_listing(), *version, "mmsource-latest-"@ + os_name_spec(os)),
    {
        let mut file = String::from_str("mmsource-latest-");
        file.append(os.name());
        release_url(Self::listing_url(), version, file.as_str())
    }

    /// The archive `name` of release `version`.
    pub fn archive_url(version: &ResolvedVersion, name: &str) -> (r: String)
        ensures
            r@ == release_url_spec(metamod_listing(), *version, name@),
    {
        release_url(Self::listing_url(), version, name)
    }
}

pub struct SourcemodDownloader;

#[derive(Debug, Clone, Copy, PartialEq, Eq, Structural)]
pub enum SourcemodBranch {
    Stable,
    Dev,
}

impl SourcemodBranch {
    pub fn to_branch(&self) -> (r: Branch)
        ensures
            r == (match *self {
                SourcemodBranch::Stable => Branch::Stable,
                SourcemodBranch::Dev => Branch::Dev,
            }),
    {
        match self {
            SourcemodBranch::Stable => Branch::Stable,
            SourcemodBranch::Dev => Branch::Dev,
        }
    }
}

pub open spec fn sourcemod_listing() -> Seq<char> {
    "https://sm.alliedmods.net/smdrop"@
}

/// The listing page opens with this many navigation anchors.
pub const SOURCEMOD_NAVIGATION_ROWS: usize = 1;

impl SourcemodDownloader {
    /// The directory-listing page of all releases.
    pub fn listing_url() -> (r: &'static str)
        ensures
            r@ == sourcemod_listing(),
    {
        "https://sm.alliedmods.net/smdrop"
    }

    /// The release that `branch` selects for `engine`, read from the
    /// listing page's HTML; the minor is 0 when no release of `engine` is
    /// listed.
    pub fn latest_version(
        page: &str,
        branch: &SourcemodBranch,
        engine: &SourceEngineVersion,
    ) -> (r: Result<ResolvedVersion, Error>)
        ensures
            r == Ok::<ResolvedVersion, Error>(resolve_spec(
                anchors_of(page@),
                SOURCEMOD_NAVIGATION_ROWS as nat,
                match *branch {
                    SourcemodBranch::Stable => Branch::Stable,
                    SourcemodBranch::Dev => Branch::Dev,
                },
                *engine,
            )),
    {
        resolve_from_page(page, SOURCEMOD_NAVIGATION_ROWS, branch.to_branch(), *engine)
    }

    /// The small text file naming the newest archive of release `version`.
    pub fn latest_name_url(version: &ResolvedVersion, os: TargetOs) -> (r: String)
        ensures
            r@ == release_url_spec(sourcemod_listing(), *version, "sourcemod-latest-"@ + os_name_spec(os)),
    {
        let mut file = String::from_str("sourcemod-latest-");
        file.append(os.name());
        release_url(Self::listing_url(), version, file.as_str())
    }

    /// The archive `name` of release `version`.
    pub fn archive_url(version: &ResolvedVersion, name: &str) -> (r: String)
        ensures
            r@ == release_url_spec(sourcemod_listing(), *version, name@),
    {
        release_url(Self::listing_url(), version, name)
    }
}

} // verus!
