use alter_sendme::update::{
    platform_url, update_from_manifest, update_from_release, ManifestPlatform, Platform,
    ReleaseAsset, UpdateInfo,
    GITHUB_RELEASE_URL, RELEASES_URL, UPDATE_MANIFEST_URL,
};
use alter_sendme::version::{is_newer_version, strip_leading_v, version_triple_of};

#[test]
fn compares_semver_like_versions() {
    assert!(is_newer_version("0.2.0", "0.2.1"));
    assert!(is_newer_version("0.2.0", "1.0.0"));
    assert!(!is_newer_version("0.2.0", "0.2.0"));
    assert!(!is_newer_version("0.2.0", "0.1.99"));
    assert!(is_newer_version("v0.2.0", "v0.3.0"));
}

#[test]
fn version_pieces_read_like_integer_parsing() {
    assert_eq!(version_triple_of("1.2.3"), (1, 2, 3));
    assert_eq!(version_triple_of("vv4.5"), (4, 5, 0));
    assert_eq!(version_triple_of("1.x.3"), (1, 0, 3));
    assert_eq!(version_triple_of("+7.08.9.10"), (7, 8, 9));
    assert_eq!(version_triple_of(""), (0, 0, 0));
    assert_eq!(version_triple_of("1..2"), (1, 0, 2));
    assert_eq!(version_triple_of("-1.2.3"), (0, 2, 3));
    assert_eq!(version_triple_of("18446744073709551615.1"), (u64::MAX, 1, 0));
    assert_eq!(version_triple_of("18446744073709551616.1"), (0, 1, 0));
    assert_eq!(version_triple_of("1.2.3-beta"), (1, 2, 0));
}

#[test]
fn newer_is_a_strict_order() {
    assert!(!is_newer_version("1.2.3", "v1.2.3"));
    assert!(is_newer_version("1.2.3", "1.10.0"));
    assert!(!is_newer_version("1.10.0", "1.2.3"));
    assert!(is_newer_version("0.9.9", "1"));
}

#[test]
fn strips_every_leading_v() {
    assert_eq!(strip_leading_v("vv1.0"), "1.0");
    assert_eq!(strip_leading_v("1.0v"), "1.0v");
    assert_eq!(strip_leading_v("v"), "");
}

#[test]
fn manifest_update_uses_platform_url_or_release_page() {
    assert_eq!(
        update_from_manifest("0.4.0", "0.5.0".to_string(), Some("https://example.test/a.exe".to_string())),
        Some(UpdateInfo {
            version: "0.5.0".to_string(),
            download_url: "https://example.test/a.exe".to_string(),
        })
    );
    assert_eq!(
        update_from_manifest("0.4.0", "0.5.0".to_string(), None),
        Some(UpdateInfo {
            version: "0.5.0".to_string(),
            download_url: RELEASES_URL.to_string(),
        })
    );
    assert_eq!(update_from_manifest("0.4.0", "0.4.0".to_string(), None), None);
}

#[test]
fn release_update_picks_the_first_matching_asset() {
    let assets = vec![
        ReleaseAsset {
            name: "alter-sendme.dmg".to_string(),
            browser_download_url: "https://example.test/mac".to_string(),
        },
        ReleaseAsset {
            name: "alter-sendme_x64-setup.exe".to_string(),
            browser_download_url: "https://example.test/win".to_string(),
        },
        ReleaseAsset {
            name: "second_x64-setup.exe".to_string(),
            browser_download_url: "https://example.test/win2".to_string(),
        },
    ];
    let suffix = Platform::Windows.asset_suffix();
    assert_eq!(
        update_from_release("0.4.0", "v0.6.1", &assets, suffix),
        Some(UpdateInfo {
            version: "0.6.1".to_string(),
            download_url: "https://example.test/win".to_string(),
        })
    );
    assert_eq!(
        update_from_release("0.4.0", "v0.6.1", &assets, Platform::Linux.asset_suffix()),
        Some(UpdateInfo {
            version: "0.6.1".to_string(),
            download_url: RELEASES_URL.to_string(),
        })
    );
    assert_eq!(update_from_release("0.7.0", "v0.6.1", &assets, suffix), None);
}

#[test]
fn platforms_name_their_manifest_keys() {
    assert_eq!(Platform::Windows.manifest_key(), "windows-x86_64-nsis");
    assert_eq!(Platform::MacOs.manifest_key(), "darwin-universal");
    assert_eq!(Platform::Linux.manifest_key(), "linux-x86_64");
    assert_eq!(Platform::MacOs.asset_suffix(), ".dmg");
}

#[test]
fn update_endpoints_name_the_active_repository() {
    assert_eq!(
        UPDATE_MANIFEST_URL,
        "https://github.com/bruceblink/alter-sendmer/releases/latest/download/latest.json"
    );
    assert_eq!(
        GITHUB_RELEASE_URL,
        "https://api.github.com/repos/bruceblink/alter-sendmer/releases/latest"
    );
    assert_eq!(RELEASES_URL, "https://github.com/bruceblink/alter-sendmer/releases/latest");
}

#[test]
fn the_manifest_gives_the_url_of_the_platform_key() {
    let platforms = vec![
        ManifestPlatform { key: "darwin-universal".to_string(), url: Some("https://x/mac.dmg".to_string()) },
        ManifestPlatform { key: "linux-x86_64".to_string(), url: None },
        ManifestPlatform { key: "windows-x86_64-nsis".to_string(), url: Some("https://x/win.exe".to_string()) },
    ];
    assert_eq!(
        platform_url(&platforms, Platform::Windows.manifest_key()),
        Some("https://x/win.exe".to_string())
    );
    assert_eq!(platform_url(&platforms, Platform::Linux.manifest_key()), None);
    assert_eq!(platform_url(&platforms, "other"), None);
}
