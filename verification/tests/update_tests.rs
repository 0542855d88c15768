use ollama_supervisor::platform::{HostProfile, PlatformId};
use ollama_supervisor::command::{CommandOutput, Completion};
use ollama_supervisor::update::{
    assess_release, choose_asset, find_download_url_for_platform, get_download_target,
    get_downloads_dir, judge_release, last_segment_of, make_open_downloads_command,
    make_update_info, name_meets_rule, read_open_downloads, version_of_tag, GitHubAsset,
    GitHubRelease,
};
use ollama_supervisor::version::{ReleaseVersion, VersionOrder};

fn asset(name: &str) -> GitHubAsset {
    GitHubAsset {
        name: name.to_string(),
        browser_download_url: format!("https://example.test/{}", name),
        content_type: "application/octet-stream".to_string(),
        size: 1,
    }
}

fn url(names: &[&str], platform: &str) -> Option<String> {
    let assets: Vec<GitHubAsset> = names.iter().map(|n| asset(n)).collect();
    find_download_url_for_platform(&assets, platform)
}

fn release(tag: &str, names: &[&str]) -> GitHubRelease {
    GitHubRelease {
        tag_name: tag.to_string(),
        name: "Release".to_string(),
        body: "notes".to_string(),
        html_url: "https://example.test/release".to_string(),
        assets: names.iter().map(|n| asset(n)).collect(),
        published_at: "2024-01-01T00:00:00Z".to_string(),
        prerelease: false,
    }
}

#[test]
fn macos_prefers_the_plain_name_then_universal_builds() {
    let all = ["App_x86_64.dmg", "App-mac.dmg", "App-Universal.dmg", "BeautifyOllama.DMG", "App.exe"];
    assert_eq!(url(&all, "macos"), Some("https://example.test/BeautifyOllama.DMG".to_string()));
    assert_eq!(url(&all[..3], "macos"), Some("https://example.test/App-Universal.dmg".to_string()));
    assert_eq!(url(&all[..2], "macos"), Some("https://example.test/App-mac.dmg".to_string()));
    assert_eq!(url(&all[..1], "macos"), Some("https://example.test/App_x86_64.dmg".to_string()));
    assert_eq!(url(&["app_aarch64_darwin.dmg", "x.dmg"], "macos"), Some("https://example.test/app_aarch64_darwin.dmg".to_string()));
    assert_eq!(url(&["app_aarch64.dmg", "darwin.dmg"], "macos"), Some("https://example.test/darwin.dmg".to_string()));
    assert_eq!(url(&["App.exe", "app.deb"], "macos"), None);
    assert_eq!(url(&[], "macos"), None);
}

#[test]
fn windows_and_linux_assets() {
    let all = ["app.deb", "setup-win64.zip", "App.msi", "BeautifyOllama.exe", "beautifyollama.msi"];
    assert_eq!(url(&all, "windows"), Some("https://example.test/BeautifyOllama.exe".to_string()));
    assert_eq!(url(&all[..3], "windows"), Some("https://example.test/setup-win64.zip".to_string()));
    assert_eq!(url(&["a.dmg", "darwin.tar.gz"], "windows"), Some("https://example.test/darwin.tar.gz".to_string()));
    assert_eq!(url(&["a.dmg"], "windows"), None);
    let all = ["a.dmg", "app-LINUX.tar.gz", "x.AppImage", "beautifyollama.AppImage", "BeautifyOllama.deb"];
    assert_eq!(url(&all, "linux"), Some("https://example.test/beautifyollama.AppImage".to_string()));
    assert_eq!(url(&all[..3], "linux"), Some("https://example.test/app-LINUX.tar.gz".to_string()));
    assert_eq!(url(&["a.dmg", "b.deb"], "linux"), Some("https://example.test/b.deb".to_string()));
    assert_eq!(url(&["a.dmg", "b.exe"], "linux"), None);
}

#[test]
fn unknown_platform_names_get_no_file() {
    let all = ["beautifyollama.dmg", "beautifyollama.exe", "beautifyollama.deb"];
    assert_eq!(url(&all, "unknown"), None);
    assert_eq!(url(&all, "freebsd"), None);
    assert_eq!(url(&all, "MacOS"), None);
    assert_eq!(url(&all, ""), None);
}

#[test]
fn choosing_by_names_in_small_letters() {
    let names: Vec<Vec<char>> = ["x.dmg", "macos.dmg", "beautifyollama.dmg"]
        .iter()
        .map(|n| n.chars().collect())
        .collect();
    assert_eq!(choose_asset(&names, PlatformId::MacOs), Some(2));
    assert_eq!(choose_asset(&names[..2].to_vec(), PlatformId::MacOs), Some(1));
    assert_eq!(choose_asset(&names, PlatformId::Linux), None);
    assert_eq!(choose_asset(&names, PlatformId::Unknown), None);
    let upper: Vec<char> = "BEAUTIFYOLLAMA.DMG".chars().collect();
    assert!(!name_meets_rule(PlatformId::MacOs, 0, &upper));
    assert!(!name_meets_rule(PlatformId::MacOs, 3, &upper));
    let lower: Vec<char> = "beautifyollama.dmg".chars().collect();
    assert!(name_meets_rule(PlatformId::MacOs, 0, &lower));
    assert!(!name_meets_rule(PlatformId::MacOs, 1, &lower));
    assert!(name_meets_rule(PlatformId::MacOs, 3, &lower));
    assert!(name_meets_rule(PlatformId::MacOs, 9, &lower));
}

#[test]
fn tags_name_versions() {
    assert_eq!(version_of_tag("v1.2.3"), "1.2.3");
    assert_eq!(version_of_tag("vvv1.2.3"), "1.2.3");
    assert_eq!(version_of_tag("1.2.3"), "1.2.3");
    assert_eq!(version_of_tag("V1.2.3"), "V1.2.3");
    assert_eq!(version_of_tag("v"), "");
    assert_eq!(version_of_tag(""), "");
    assert_eq!(version_of_tag("v1v"), "1v");
}

#[test]
fn a_later_release_is_an_update() {
    let info = assess_release(&release("v1.3.0", &["BeautifyOllama.dmg", "x.exe"]), "1.2.9", "macos").unwrap();
    assert!(info.available);
    assert_eq!(info.current_version, "1.2.9");
    assert_eq!(info.latest_version, "1.3.0");
    assert_eq!(info.download_url, Some("https://example.test/BeautifyOllama.dmg".to_string()));
    assert_eq!(info.release_notes, Some("notes".to_string()));
    assert_eq!(info.release_url, Some("https://example.test/release".to_string()));
    for (tag, current, available) in [
        ("v1.2.9", "1.2.9", false),
        ("v1.2.8", "1.2.9", false),
        ("v1.10.0", "1.9.0", true),
        ("v2.0.0", "10.0.0", false),
        ("v1.0.0", "1.0.0-rc.1", true),
        ("v1.0.0-rc.1", "1.0.0", false),
        ("v1.0.0-beta.11", "1.0.0-beta.2", true),
        ("v1.0.0-alpha.beta", "1.0.0-alpha.1", true),
        ("1.0.1", "1.0.0", true),
        ("v1.0.0+build.2", "1.0.0+build.1", true),
    ] {
        let info = assess_release(&release(tag, &[]), current, "linux").unwrap();
        assert_eq!(info.available, available, "{} against {}", tag, current);
        assert_eq!(info.download_url, None);
    }
}

#[test]
fn versions_that_cannot_be_read() {
    let e = assess_release(&release("v1.0.0", &[]), "1.0", "linux").unwrap_err();
    assert!(e.starts_with("Invalid current version: "), "{}", e);
    assert!(e.len() > "Invalid current version: ".len());
    let e = assess_release(&release("release-7", &[]), "1.0.0", "linux").unwrap_err();
    assert!(e.starts_with("Invalid latest version: "), "{}", e);
    let e = assess_release(&release("nightly", &[]), "one", "linux").unwrap_err();
    assert!(e.starts_with("Invalid current version: "), "{}", e);
    let e = assess_release(&release("v1.0.01", &[]), "1.0.0", "linux").unwrap_err();
    assert!(e.starts_with("Invalid latest version: "), "{}", e);
}

#[test]
fn update_info_from_an_order() {
    let info = make_update_info(Some(VersionOrder::Later), "1.0.0", "1.1.0", None, "n", "p");
    assert!(info.available);
    for order in [Some(VersionOrder::Same), Some(VersionOrder::Earlier), None] {
        let info = make_update_info(order, "1.0.0", "1.1.0", Some("u".to_string()), "n", "p");
        assert!(!info.available);
        assert_eq!(info.download_url, Some("u".to_string()));
    }
}

#[test]
fn downloads_go_below_the_users_directory() {
    let host = HostProfile {
        user: "ada".to_string(),
        home: "/home/ada".to_string(),
        user_profile: "C:\\Users\\Ada".to_string(),
    };
    assert_eq!(get_downloads_dir(PlatformId::Linux, &host), "/home/ada/Downloads");
    assert_eq!(get_downloads_dir(PlatformId::MacOs, &host), "/home/ada/Downloads");
    assert_eq!(get_downloads_dir(PlatformId::Unknown, &host), "/home/ada/Downloads");
    assert_eq!(get_downloads_dir(PlatformId::Windows, &host), "C:\\Users\\Ada/Downloads");
    assert_eq!(
        get_download_target(PlatformId::Linux, &host, "https://example.test/r/v1/App.AppImage"),
        "/home/ada/Downloads/App.AppImage"
    );
    assert_eq!(get_download_target(PlatformId::Linux, &host, "https://example.test/"), "/home/ada/Downloads/");
    assert_eq!(get_download_target(PlatformId::Linux, &host, "file"), "/home/ada/Downloads/file");
    for s in ["", "/", "a", "a/", "/a", "a/b/c", "a//", "https://x/y.dmg"] {
        let ours: String = last_segment_of(&s.chars().collect::<Vec<char>>()).iter().collect();
        assert_eq!(ours, s.split('/').last().unwrap_or("update"), "input {:?}", s);
    }
    let c = make_open_downloads_command(PlatformId::MacOs, &host, "/p");
    assert_eq!((c.program.as_str(), c.args.clone()), ("open", vec!["/home/ada/Downloads".to_string()]));
    assert_eq!(make_open_downloads_command(PlatformId::Windows, &host, "/p").program, "explorer");
    assert_eq!(make_open_downloads_command(PlatformId::Linux, &host, "/p").program, "xdg-open");
}

fn version(major: u64, minor: u64, patch: u64) -> ReleaseVersion {
    ReleaseVersion { major, minor, patch, pre: String::new(), build: String::new() }
}

#[test]
fn a_release_is_judged_by_what_was_read() {
    let judge = |running: Result<ReleaseVersion, String>,
                 latest: Result<ReleaseVersion, String>,
                 order: Option<VersionOrder>| {
        judge_release(&running, &latest, order, "1.0.0", "1.1.0", Some("u".to_string()), "n", "p")
    };
    let info = judge(Ok(version(1, 0, 0)), Ok(version(1, 1, 0)), Some(VersionOrder::Later)).unwrap();
    assert!(info.available);
    assert_eq!((info.current_version.as_str(), info.latest_version.as_str()), ("1.0.0", "1.1.0"));
    assert_eq!(info.download_url, Some("u".to_string()));
    for order in [Some(VersionOrder::Same), Some(VersionOrder::Earlier), None] {
        assert!(!judge(Ok(version(1, 0, 0)), Ok(version(1, 1, 0)), order).unwrap().available);
    }
    assert_eq!(
        judge(Err("bad".to_string()), Ok(version(1, 1, 0)), Some(VersionOrder::Later)).unwrap_err(),
        "Invalid current version: bad"
    );
    assert_eq!(
        judge(Ok(version(1, 0, 0)), Err("worse".to_string()), None).unwrap_err(),
        "Invalid latest version: worse"
    );
    assert_eq!(
        judge(Err("bad".to_string()), Err("worse".to_string()), None).unwrap_err(),
        "Invalid current version: bad"
    );
}

#[test]
fn showing_the_downloads_directory() {
    let host = HostProfile {
        user: "ada".to_string(),
        home: "/home/ada".to_string(),
        user_profile: "C:\\Users\\Ada".to_string(),
    };
    let ended = Completion::Finished(CommandOutput {
        success: false,
        code: Some(1),
        stdout: String::new(),
        stderr: "ignored".to_string(),
    });
    assert_eq!(
        read_open_downloads(PlatformId::Linux, &host, &ended),
        Ok("Opened downloads folder: /home/ada/Downloads".to_string())
    );
    assert_eq!(
        read_open_downloads(PlatformId::Windows, &host, &ended),
        Ok("Opened downloads folder: C:\\Users\\Ada/Downloads".to_string())
    );
    assert_eq!(
        read_open_downloads(PlatformId::Linux, &host, &Completion::NotStarted("xdg-open: not found".to_string())),
        Err("Failed to open downloads folder: xdg-open: not found".to_string())
    );
}
