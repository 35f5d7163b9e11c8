//! The choice of the release to offer when the user checks for updates.

use vstd::prelude::*;
use crate::text::{seq_contains, str_contains, str_eq};
use crate::version::{is_newer_version, newer_version, strip_leading_v, trim_leading_v};

verus! {

/// The signed release manifest the update check reads first.
pub const UPDATE_MANIFEST_URL: &'static str =
    "https://github.com/bruceblink/alter-sendmer/releases/latest/download/latest.json";

/// The release API read when the manifest cannot be fetched.
pub const GITHUB_RELEASE_URL: &'static str =
    "https://api.github.com/repos/bruceblink/alter-sendmer/releases/latest";

/// The release page offered when no asset matches the running platform.
pub const RELEASES_URL: &'static str = "https://github.com/bruceblink/alter-sendmer/releases/latest";

/// The sponsorship page.
pub const SPONSOR_URL: &'static str = "https://buymeacoffee.com/bruceblink";

/// The operating system the client runs on, as far as release assets distinguish them.
#[derive(Clone, Copy, Debug, PartialEq, Eq, Structural)]
pub enum Platform {
    Windows,
    MacOs,
    Linux,
}

impl Platform {
    /// The key of this platform in the release manifest's `platforms` table.
    pub fn manifest_key(self) -> (res: &'static str)
        ensures
            res == (match self {
                Platform::Windows => "windows-x86_64-nsis",
                Platform::MacOs => "darwin-universal",
                Platform::Linux => "linux-x86_64",
            }),
    {
        match self {
            Platform::Windows => "windows-x86_64-nsis",
            Platform::MacOs => "darwin-universal",
            Platform::Linux => "linux-x86_64",
        }
    }

    /// The ending of this platform's installer among a release's assets.
    pub fn asset_suffix(self) -> (res: &'static str)
        ensures
            res == (match self {
                Platform::Windows => "x64-setup.exe",
                Platform::MacOs => ".dmg",
                Platform::Linux => ".AppImage",
            }),
    {
        match self {
            Platform::Windows => "x64-setup.exe",
            Platform::MacOs => ".dmg",
            Platform::Linux => ".AppImage",
        }
    }
}

/// A newer release and where to download it.
#[derive(Clone, Debug, PartialEq, Eq)]
pub struct UpdateInfo {
    pub version: String,
    pub download_url: String,
}

/// One downloadable file of a published release.
#[derive(Clone, Debug, PartialEq, Eq)]
pub struct ReleaseAsset {
    pub name: String,
    pub browser_download_url: String,
}

/// The download URL of the first asset whose name contains `suffix`.
pub open spec fn matching_asset_url(assets: Seq<ReleaseAsset>, suffix: Seq<char>) -> Option<
    Seq<char>,
>
    decreases assets.len(),
{
    if assets.len() == 0 {
        None
    } else if seq_contains(assets[0].name@, suffix) {
        Some(assets[0].browser_download_url@)
    } else {
        matching_asset_url(assets.drop_first(), suffix)
    }
}

/// One platform entry of the release manifest: its key and, where the entry gives one as
/// a string, its download URL.
#[derive(Clone, Debug, PartialEq, Eq)]
pub struct ManifestPlatform {
    pub key: String,
    pub url: Option<String>,
}

/// The download URL of the first manifest entry under `key`, if that entry gives one.
pub open spec fn manifest_url(platforms: Seq<ManifestPlatform>, key: Seq<char>) -> Option<
    Seq<char>,
>
    decreases platforms.len(),
{
    if platforms.len() == 0 {
        None
    } else if platforms[0].key@ == key {
        match platforms[0].url {
            Some(url) => Some(url@),
            None => None,
        }
    } else {
        manifest_url(platforms.drop_first(), key)
    }
}

/// The download URL that the manifest gives for the platform `key`.
pub fn platform_url(platforms: &Vec<ManifestPlatform>, key: &str) -> (res: Option<String>)
    ensures
        match res {
            Some(url) => manifest_url(platforms@, key@) == Some(url@),
            None => manifest_url(platforms@, key@) is None,
        },
{
    let mut i: usize = 0;
    assert(platforms@.skip(0) =~= platforms@);
    while i < platforms.len()
        invariant
            i <= platforms@.len(),
            manifest_url(platforms@, key@) == manifest_url(platforms@.skip(i as int), key@),
        decreases platforms@.len() - i,
    {
        assert(platforms@.skip(i as int).drop_first() =~= platforms@.skip(i + 1));
        if str_eq(platforms[i].key.as_str(), key) {
            return match &platforms[i].url {
                Some(url) => Some(url.clone()),
                None => None,
            };
        }
        i = i + 1;
    }
    None
}

/// Offers the manifest's release where it is newer than `current`, at the platform's
/// download URL, or at the release page where the manifest lists none for it.
pub fn update_from_manifest(current: &str, version: String, platform_url: Option<String>) -> (res:
    Option<UpdateInfo>)
    ensures
        newer_version(current@, version@) ==> (res matches Some(info) && info.version@ == version@
            && info.download_url@ == (match platform_url {
            Some(url) => url@,
            None => RELEASES_URL@,
        })),
        !newer_version(current@, version@) ==> res is None,
{
    let download_url = match platform_url {
        Some(url) => url,
        None => RELEASES_URL.to_owned(),
    };
    if !is_newer_version(current, version.as_str()) {
        return None;
    }
    Some(UpdateInfo { version, download_url })
}

/// The download URL of the first asset whose name contains `suffix`.
fn find_asset_url(assets: &Vec<ReleaseAsset>, suffix: &str) -> (res: Option<String>)
    ensures
        match res {
            Some(url) => matching_asset_url(assets@, suffix@) == Some(url@),
            None => matching_asset_url(assets@, suffix@) is None,
        },
{
    let mut i: usize = 0;
    assert(assets@.skip(0) =~= assets@);
    while i < assets.len()
        invariant
            i <= assets@.len(),
            matching_asset_url(assets@, suffix@) == matching_asset_url(
                assets@.skip(i as int),
                suffix@,
            ),
        decreases assets@.len() - i,
    {
        assert(assets@.skip(i as int).drop_first() =~= assets@.skip(i + 1));
        assert(assets@.skip(i as int)[0] == assets@[i as int]);
        if str_contains(assets[i].name.as_str(), suffix) {
            return Some(assets[i].browser_download_url.clone());
        }
        i = i + 1;
    }
    None
}

/// Offers the published release named by `tag_name` (leading `v`s dropped) where it is
/// newer than `current`, at the first asset whose name contains `suffix`, or at the
/// release page where none does.
pub fn update_from_release(
    current: &str,
    tag_name: &str,
    assets: &Vec<ReleaseAsset>,
    suffix: &str,
) -> (res: Option<UpdateInfo>)
    ensures
        newer_version(current@, trim_leading_v(tag_name@)) ==> (res matches Some(info)
            && info.version@ == trim_leading_v(tag_name@) && info.download_url@ == (
        match matching_asset_url(assets@, suffix@) {
            Some(url) => url,
            None => RELEASES_URL@,
        })),
        !newer_version(current@, trim_leading_v(tag_name@)) ==> res is None,
{
    let version = strip_leading_v(tag_name);
    let found = find_asset_url(assets, suffix);
    let download_url = match found {
        Some(url) => url,
        None => RELEASES_URL.to_owned(),
    };
    if !is_newer_version(current, version.as_str()) {
        return None;
    }
    Some(UpdateInfo { version, download_url })
}

} // verus!
