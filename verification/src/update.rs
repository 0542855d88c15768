//! Looking for a newer release of the application.
//!
//! The release is fetched by the caller. What is decided here is whether
//! it is newer than what runs, which of its files fits the platform, and
//! where a downloaded file is put.

use vstd::prelude::*;
use vstd::string::StringExecFns;
use crate::command::{
    make_tool_env, plain_command, push_arg, tool_env, CommandLine, CommandLineView, Completion,
    CompletionView,
};
use crate::platform::{platform_named, HostProfile, HostProfileView, PlatformId};
use crate::text::{
    chars_of, contains, contains_in, copy_range, ends_with, ends_with_in, same_text, string_of,
};
use crate::version::{
    order_versions, parse_version, parsed_view, semver_order, semver_parsed, ReleaseVersion,
    ReleaseVersionView, VersionOrder,
};
use crate::words::{optional_text, rows, scan_until, text_result_view, texts};

verus! {

/// One file of a release.
#[derive(Debug)]
pub struct GitHubAsset {
    pub name: String,
    pub browser_download_url: String,
    pub content_type: String,
    pub size: u64,
}

/// A release, as the release service describes it.
#[derive(Debug)]
pub struct GitHubRelease {
    pub tag_name: String,
    pub name: String,
    pub body: String,
    pub html_url: String,
    pub assets: Vec<GitHubAsset>,
    pub published_at: String,
    pub prerelease: bool,
}

/// What the update check found.
#[derive(Debug)]
pub struct UpdateInfo {
    pub available: bool,
    pub current_version: String,
    pub latest_version: String,
    pub download_url: Option<String>,
    pub release_notes: Option<String>,
    pub release_url: Option<String>,
}

pub struct UpdateInfoView {
    pub available: bool,
    pub current_version: Seq<char>,
    pub latest_version: Seq<char>,
    pub download_url: Option<Seq<char>>,
    pub release_notes: Option<Seq<char>>,
    pub release_url: Option<Seq<char>>,
}

impl View for UpdateInfo {
    type V = UpdateInfoView;

    open spec fn view(&self) -> UpdateInfoView {
        UpdateInfoView {
            available: self.available,
            current_version: self.current_version@,
            latest_version: self.latest_version@,
            download_url: optional_text(self.download_url),
            release_notes: optional_text(self.release_notes),
            release_url: optional_text(self.release_url),
        }
    }
}

/// A text in small letters, as `str::to_lowercase` of the standard library
/// gives it.
pub uninterp spec fn lowercase_text(text: Seq<char>) -> Seq<char>;

/// `text` in small letters.
///
/// The body calls `str::to_lowercase`, which follows Unicode's rules for
/// small letters. The contract claims that the result depends on the text
/// alone, under the name `lowercase_text`.
#[verifier::external_body]
pub(crate) fn to_lowercase(text: &str) -> (r: String)
    ensures
        r@ == lowercase_text(text@),
{
    text.to_lowercase()
}

/// How many rounds of rules a platform has. The rules of an earlier round
/// are stricter; a later round is tried only where no file met an earlier
/// one.
pub open spec fn rounds(platform: PlatformId) -> int {
    match platform {
        PlatformId::MacOs => 4,
        PlatformId::Windows => 2,
        PlatformId::Linux => 2,
        PlatformId::Unknown => 0,
    }
}

/// Whether a file's name, in small letters, meets the rule of `round` for
/// `platform`.
pub open spec fn meets_rule(platform: PlatformId, round: int, name: Seq<char>) -> bool {
    match platform {
        PlatformId::MacOs => if round == 0 {
            name == "beautifyollama.dmg"@
        } else if round == 1 {
            ends_with(name, ".dmg"@) && (contains(name, "universal"@) || contains(name, "macos"@))
        } else if round == 2 {
            ends_with(name, ".dmg"@) && !contains(name, "aarch64"@) && !contains(name, "x86_64"@)
                && (contains(name, "mac"@) || contains(name, "darwin"@))
        } else {
            ends_with(name, ".dmg"@)
        },
        PlatformId::Windows => if round == 0 {
            name == "beautifyollama.msi"@ || name == "beautifyollama.exe"@
        } else {
            contains(name, "win"@) || contains(name, "windows"@) || ends_with(name, ".msi"@)
                || ends_with(name, ".exe"@)
        },
        PlatformId::Linux => if round == 0 {
            name == "beautifyollama.deb"@ || name == "beautifyollama.appimage"@
        } else {
            contains(name, "linux"@) || ends_with(name, ".appimage"@) || ends_with(name, ".deb"@)
        },
        PlatformId::Unknown => false,
    }
}

/// The first file at or after `from` whose name meets the rule of `round`.
pub open spec fn first_meeting(
    names: Seq<Seq<char>>,
    platform: PlatformId,
    round: int,
    from: int,
) -> Option<int>
    decreases names.len() - from,
{
    if from < 0 || from >= names.len() {
        None
    } else if meets_rule(platform, round, names[from]) {
        Some(from)
    } else {
        first_meeting(names, platform, round, from + 1)
    }
}

/// The file that is chosen from `round` on: the first file that meets the
/// rule of the earliest round that any file meets.
pub open spec fn chosen_from(names: Seq<Seq<char>>, platform: PlatformId, round: int) -> Option<int>
    decreases rounds(platform) - round,
{
    if round < 0 || round >= rounds(platform) {
        None
    } else {
        match first_meeting(names, platform, round, 0) {
            Some(index) => Some(index),
            None => chosen_from(names, platform, round + 1),
        }
    }
}

/// The file that is chosen for `platform` among files of these names, given
/// in small letters; `None` where no file fits.
pub open spec fn chosen_asset(names: Seq<Seq<char>>, platform: PlatformId) -> Option<int> {
    chosen_from(names, platform, 0)
}

fn holds(name: &[char], word: &str) -> (r: bool)
    ensures
        r == contains(name@, word@),
{
    contains_in(name, chars_of(word).as_slice())
}

fn ends(name: &[char], word: &str) -> (r: bool)
    ensures
        r == ends_with(name@, word@),
{
    ends_with_in(name, chars_of(word).as_slice())
}

fn equals(name: &[char], word: &str) -> (r: bool)
    ensures
        r == (name@ == word@),
{
    same_text(name, chars_of(word).as_slice())
}

/// Whether a file's name, in small letters, meets the rule of `round` for
/// `platform`.
pub fn name_meets_rule(platform: PlatformId, round: usize, name: &[char]) -> (r: bool)
    ensures
        r == meets_rule(platform, round as int, name@),
{
    match platform {
        PlatformId::MacOs => {
            if round == 0 {
                equals(name, "beautifyollama.dmg")
            } else if round == 1 {
                ends(name, ".dmg") && (holds(name, "universal") || holds(name, "macos"))
            } else if round == 2 {
                ends(name, ".dmg") && !holds(name, "aarch64") && !holds(name, "x86_64") && (holds(
                    name,
                    "mac",
                ) || holds(name, "darwin"))
            } else {
                ends(name, ".dmg")
            }
        },
        PlatformId::Windows => {
            if round == 0 {
                equals(name, "beautifyollama.msi") || equals(name, "beautifyollama.exe")
            } else {
                holds(name, "win") || holds(name, "windows") || ends(name, ".msi") || ends(
                    name,
                    ".exe",
                )
            }
        },
        PlatformId::Linux => {
            if round == 0 {
                equals(name, "beautifyollama.deb") || equals(name, "beautifyollama.appimage")
            } else {
                holds(name, "linux") || ends(name, ".appimage") || ends(name, ".deb")
            }
        },
        PlatformId::Unknown => false,
    }
}

/// The file that is chosen for `platform` among files of these names, given
/// in small letters.
pub fn choose_asset(names: &Vec<Vec<char>>, platform: PlatformId) -> (r: Option<usize>)
    ensures
        match r {
            Some(index) => chosen_asset(rows(names@), platform) == Some(index as int) && index
                < names.len(),
            None => chosen_asset(rows(names@), platform) is None,
        },
{
    let count: usize = match platform {
        PlatformId::MacOs => 4,
        PlatformId::Windows => 2,
        PlatformId::Linux => 2,
        PlatformId::Unknown => 0,
    };
    let mut round: usize = 0;
    while round < count
        invariant
            round <= count,
            count == rounds(platform),
            chosen_asset(rows(names@), platform) == chosen_from(rows(names@), platform, round as int),
        decreases count - round,
    {
        let mut i: usize = 0;
        while i < names.len()
            invariant
                i <= names.len(),
                round < count,
                first_meeting(rows(names@), platform, round as int, 0) == first_meeting(
                    rows(names@),
                    platform,
                    round as int,
                    i as int,
                ),
                count == rounds(platform),
                chosen_asset(rows(names@), platform) == chosen_from(
                    rows(names@),
                    platform,
                    round as int,
                ),
            decreases names.len() - i,
        {
            assert(rows(names@)[i as int] == names@[i as int]@);
            if name_meets_rule(platform, round, names[i].as_slice()) {
                return Some(i);
            }
            i += 1;
        }
        round += 1;
    }
    None
}

/// The names of the files in small letters, in their order.
pub open spec fn lowered_names(assets: Seq<GitHubAsset>) -> Seq<Seq<char>> {
    Seq::new(assets.len(), |i: int| lowercase_text(assets[i].name@))
}

/// The address of the file of a release that fits `platform`: the address
/// of the file that `chosen_asset` picks by the files' names in small
/// letters. `platform` is the platform's name; a name that is none of
/// `macos`, `windows` and `linux` gets no file.
pub fn find_download_url_for_platform(assets: &[GitHubAsset], platform: &str) -> (r: Option<String>)
    ensures
        match chosen_asset(lowered_names(assets@), platform_named(platform@)) {
            Some(index) => r is Some && r->Some_0@ == assets@[index].browser_download_url@,
            None => r is None,
        },
{
    let mut names: Vec<Vec<char>> = Vec::new();
    let mut i: usize = 0;
    while i < assets.len()
        invariant
            i <= assets.len(),
            rows(names@) == lowered_names(assets@).take(i as int),
        decreases assets.len() - i,
    {
        let ghost so_far = rows(names@);
        let name = chars_of(to_lowercase(assets[i].name.as_str()).as_str());
        names.push(name);
        assert(rows(names@) =~= so_far.push(name@));
        assert(so_far.push(name@) =~= lowered_names(assets@).take(i + 1));
        i += 1;
    }
    assert(lowered_names(assets@).take(assets.len() as int) == lowered_names(assets@));
    match choose_asset(&names, PlatformId::from_name(platform)) {
        Some(index) => Some(assets[index].browser_download_url.clone()),
        None => None,
    }
}

pub open spec fn is_not_v(c: char) -> bool {
    c != 'v'
}

/// The version that a release tag names: the tag without the `v`s at its
/// start.
pub open spec fn tag_version(tag: Seq<char>) -> Seq<char> {
    tag.skip(scan_until(tag, 0, |c: char| is_not_v(c)))
}

/// The version that a release tag names.
pub fn version_of_tag(tag: &str) -> (r: String)
    ensures
        r@ == tag_version(tag@),
{
    let text = chars_of(tag);
    let ghost stop = |c: char| is_not_v(c);
    let mut i: usize = 0;
    while i < text.len() && text[i] == 'v'
        invariant
            i <= text.len(),
            stop == |c: char| is_not_v(c),
            scan_until(text@, 0, stop) == scan_until(text@, i as int, stop),
        decreases text.len() - i,
    {
        i += 1;
    }
    let rest = copy_range(text.as_slice(), i, text.len());
    assert(text@.subrange(i as int, text.len() as int) == text@.skip(i as int));
    string_of(rest.as_slice())
}

/// What the update check reports, given how the latest version stands to
/// the current one: an update is available exactly where the latest
/// version is the later.
pub open spec fn update_report(
    order: Option<VersionOrder>,
    current: Seq<char>,
    latest: Seq<char>,
    download_url: Option<Seq<char>>,
    notes: Seq<char>,
    page: Seq<char>,
) -> UpdateInfoView {
    UpdateInfoView {
        available: order == Some(VersionOrder::Later),
        current_version: current,
        latest_version: latest,
        download_url,
        release_notes: Some(notes),
        release_url: Some(page),
    }
}

/// What the update check reports, given how the latest version stands to
/// the current one.
pub fn make_update_info(
    order: Option<VersionOrder>,
    current: &str,
    latest: &str,
    download_url: Option<String>,
    notes: &str,
    page: &str,
) -> (r: UpdateInfo)
    ensures
        r@ == update_report(order, current@, latest@, optional_text(download_url), notes@, page@),
{
    let available = match order {
        Some(VersionOrder::Later) => true,
        _ => false,
    };
    UpdateInfo {
        available,
        current_version: current.to_string(),
        latest_version: latest.to_string(),
        download_url,
        release_notes: Some(notes.to_string()),
        release_url: Some(page.to_string()),
    }
}

/// What the update check makes of two versions as they were read, and of
/// how the latest stands to the one that runs: the report, or why a version
/// could not be read. The version that runs is looked at first; where
/// neither could be read, the error is its error.
pub open spec fn judged_release(
    running: Result<ReleaseVersionView, Seq<char>>,
    latest: Result<ReleaseVersionView, Seq<char>>,
    order: Option<VersionOrder>,
    current: Seq<char>,
    latest_text: Seq<char>,
    download_url: Option<Seq<char>>,
    notes: Seq<char>,
    page: Seq<char>,
) -> Result<UpdateInfoView, Seq<char>> {
    match running {
        Err(error) => Err("Invalid current version: "@ + error),
        Ok(_) => match latest {
            Err(error) => Err("Invalid latest version: "@ + error),
            Ok(_) => Ok(update_report(order, current, latest_text, download_url, notes, page)),
        },
    }
}

/// How the latest version stands to the one that runs, where both could be
/// read.
pub open spec fn release_order(
    running: Result<ReleaseVersionView, Seq<char>>,
    latest: Result<ReleaseVersionView, Seq<char>>,
) -> Option<VersionOrder> {
    match (running, latest) {
        (Ok(runs), Ok(newest)) => semver_order(newest, runs),
        _ => None,
    }
}

/// What the update check makes of a release: the report, or why one of the
/// two versions cannot be read.
pub open spec fn release_verdict(
    tag: Seq<char>,
    current: Seq<char>,
    download_url: Option<Seq<char>>,
    notes: Seq<char>,
    page: Seq<char>,
) -> Result<UpdateInfoView, Seq<char>> {
    judged_release(
        semver_parsed(current),
        semver_parsed(tag_version(tag)),
        release_order(semver_parsed(current), semver_parsed(tag_version(tag))),
        current,
        tag_version(tag),
        download_url,
        notes,
        page,
    )
}

pub open spec fn info_view(r: Result<UpdateInfo, String>) -> Result<UpdateInfoView, Seq<char>> {
    match r {
        Ok(info) => Ok(info@),
        Err(error) => Err(error@),
    }
}

/// What the update check makes of two versions as they were read, and of
/// how the latest stands to the one that runs.
pub fn judge_release(
    running: &Result<ReleaseVersion, String>,
    latest: &Result<ReleaseVersion, String>,
    order: Option<VersionOrder>,
    current: &str,
    latest_text: &str,
    download_url: Option<String>,
    notes: &str,
    page: &str,
) -> (r: Result<UpdateInfo, String>)
    ensures
        info_view(r) == judged_release(
            parsed_view(*running),
            parsed_view(*latest),
            order,
            current@,
            latest_text@,
            optional_text(download_url),
            notes@,
            page@,
        ),
{
    match running {
        Err(error) => {
            let mut message = "Invalid current version: ".to_string();
            message.append(error.as_str());
            Err(message)
        },
        Ok(_) => match latest {
            Err(error) => {
                let mut message = "Invalid latest version: ".to_string();
                message.append(error.as_str());
                Err(message)
            },
            Ok(_) => Ok(make_update_info(order, current, latest_text, download_url, notes, page)),
        },
    }
}

/// Compares a release with the version that runs, for the platform of the
/// given name.
pub fn assess_release(release: &GitHubRelease, current_version: &str, platform: &str) -> (r: Result<
    UpdateInfo,
    String,
>)
    ensures
        info_view(r) == release_verdict(
            release.tag_name@,
            current_version@,
            match chosen_asset(lowered_names(release.assets@), platform_named(platform@)) {
                Some(index) => Some(release.assets@[index].browser_download_url@),
                None => None,
            },
            release.body@,
            release.html_url@,
        ),
{
    let latest_text = version_of_tag(release.tag_name.as_str());
    let running = parse_version(current_version);
    let latest = parse_version(latest_text.as_str());
    let order = match (&running, &latest) {
        (Ok(runs), Ok(newest)) => order_versions(newest, runs),
        _ => None,
    };
    let download_url = find_download_url_for_platform(release.assets.as_slice(), platform);
    judge_release(
        &running,
        &latest,
        order,
        current_version,
        latest_text.as_str(),
        download_url,
        release.body.as_str(),
        release.html_url.as_str(),
    )
}

/// What stands behind the last slash of a text; the whole text where it has
/// no slash.
pub open spec fn last_segment(text: Seq<char>) -> Seq<char>
    decreases text.len(),
{
    if text.len() == 0 || text.last() == '/' {
        Seq::empty()
    } else {
        last_segment(text.drop_last()).push(text.last())
    }
}

/// The directory where downloads are put.
pub open spec fn downloads_dir(platform: PlatformId, host: HostProfileView) -> Seq<char> {
    if platform == PlatformId::Windows {
        host.user_profile + "/Downloads"@
    } else {
        host.home + "/Downloads"@
    }
}

/// Where the file behind an address is put: in the downloads directory,
/// under the last segment of the address.
pub open spec fn download_target(platform: PlatformId, host: HostProfileView, url: Seq<char>) -> Seq<
    char,
> {
    downloads_dir(platform, host) + "/"@ + last_segment(url)
}

/// What stands behind the last slash of a text.
pub fn last_segment_of(text: &[char]) -> (r: Vec<char>)
    ensures
        r@ == last_segment(text@),
{
    let mut start: usize = text.len();
    assert(text@.take(start as int) == text@);
    assert(last_segment(text@) + text@.subrange(start as int, text.len() as int) =~= last_segment(
        text@,
    ));
    while start > 0 && text[start - 1] != '/'
        invariant
            start <= text.len(),
            last_segment(text@) == last_segment(text@.take(start as int)) + text@.subrange(
                start as int,
                text.len() as int,
            ),
        decreases start,
    {
        let ghost head = text@.take(start as int);
        assert(head.drop_last() == text@.take(start - 1));
        assert(last_segment(head) == last_segment(text@.take(start - 1)).push(text@[start - 1]));
        assert(last_segment(text@.take(start - 1)).push(text@[start - 1]) + text@.subrange(
            start as int,
            text.len() as int,
        ) =~= last_segment(text@.take(start - 1)) + text@.subrange(
            start - 1,
            text.len() as int,
        ));
        start = start - 1;
    }
    assert(last_segment(text@.take(start as int)) =~= Seq::<char>::empty());
    copy_range(text, start, text.len())
}

/// The directory where downloads are put.
pub fn get_downloads_dir(platform: PlatformId, host: &HostProfile) -> (r: String)
    ensures
        r@ == downloads_dir(platform, host@),
{
    let mut dir = if platform == PlatformId::Windows {
        host.user_profile.clone()
    } else {
        host.home.clone()
    };
    dir.append("/Downloads");
    dir
}

/// Where the file behind an address is put.
pub fn get_download_target(platform: PlatformId, host: &HostProfile, url: &str) -> (r: String)
    ensures
        r@ == download_target(platform, host@, url@),
{
    let mut path = get_downloads_dir(platform, host);
    path.append("/");
    path.append(string_of(last_segment_of(chars_of(url).as_slice()).as_slice()).as_str());
    path
}

/// The command that shows the downloads directory in the platform's file
/// manager.
pub open spec fn open_downloads_command(
    platform: PlatformId,
    host: HostProfileView,
    search_path: Seq<char>,
) -> CommandLineView {
    plain_command(
        match platform {
            PlatformId::MacOs => "open"@,
            PlatformId::Windows => "explorer"@,
            _ => "xdg-open"@,
        },
        seq![downloads_dir(platform, host)],
        tool_env(search_path),
    )
}

pub fn make_open_downloads_command(platform: PlatformId, host: &HostProfile, search_path: &str) -> (r:
    CommandLine)
    ensures
        r@ == open_downloads_command(platform, host@, search_path@),
{
    let mut args: Vec<String> = Vec::new();
    push_arg(&mut args, get_downloads_dir(platform, host).as_str());
    assert(texts(args@) =~= seq![downloads_dir(platform, host@)]);
    let program = match platform {
        PlatformId::MacOs => "open".to_string(),
        PlatformId::Windows => "explorer".to_string(),
        _ => "xdg-open".to_string(),
    };
    CommandLine {
        program,
        args,
        env: make_tool_env(search_path),
        quiet: false,
        no_window: false,
    }
}

/// What the user is told after the downloads directory was to be shown.
pub open spec fn open_downloads_verdict(
    platform: PlatformId,
    host: HostProfileView,
    completion: CompletionView,
) -> Result<Seq<char>, Seq<char>> {
    match completion {
        CompletionView::Finished(_) => Ok(
            "Opened downloads folder: "@ + downloads_dir(platform, host),
        ),
        CompletionView::NotStarted(error) => Err("Failed to open downloads folder: "@ + error),
    }
}

/// Reads how the command that shows the downloads directory ended.
pub fn read_open_downloads(platform: PlatformId, host: &HostProfile, completion: &Completion) -> (r:
    Result<String, String>)
    ensures
        text_result_view(r) == open_downloads_verdict(platform, host@, completion@),
{
    match completion {
        Completion::Finished(_) => {
            let mut message = "Opened downloads folder: ".to_string();
            message.append(get_downloads_dir(platform, host).as_str());
            Ok(message)
        },
        Completion::NotStarted(error) => {
            let mut message = "Failed to open downloads folder: ".to_string();
            message.append(error.as_str());
            Err(message)
        },
    }
}

} // verus!
