//! The search path that every command of the supervisor runs with.
//!
//! A program that is started from the desktop often inherits a search path
//! without the directories where a package manager puts its binaries. The
//! augmented path is the inherited one with the well-known directories of
//! the platform added at its end, each only where the path does not hold it
//! yet.

use vstd::prelude::*;

use crate::platform::{HostProfile, HostProfileView, PlatformId};
use crate::text::{
    chars_of, contains, contains_in, extend_chars, fold_case, fold_case_of, string_of,
    lemma_contains_extend, lemma_contains_suffix, lemma_fold_case_concat,
};
use crate::words::rows;

verus! {

/// The well-known binary directories of a platform, in the order in which
/// they are added.
pub open spec fn known_directories(platform: PlatformId, host: HostProfileView) -> Seq<Seq<char>> {
    match platform {
        PlatformId::MacOs => seq![
            "/opt/homebrew/bin"@,
            "/usr/local/bin"@,
            "/usr/bin"@,
            "/bin"@,
        ],
        PlatformId::Linux => seq![
            "/usr/local/bin"@,
            "/usr/bin"@,
            "/bin"@,
            "/home/"@ + host.user + "/.local/bin"@,
        ],
        PlatformId::Windows => seq![
            "C:\\Program Files\\Ollama"@,
            "C:\\Program Files (x86)\\Ollama"@,
            host.user_profile + "\\AppData\\Local\\Programs\\Ollama"@,
        ],
        PlatformId::Unknown => Seq::empty(),
    }
}

/// Whether `path` holds `directory` already: whether the directory's text
/// stands somewhere in the path's text. On Windows, where the file system
/// does not tell capital letters from small ones, neither does this test
/// (for the letters of ASCII).
pub open spec fn holds_directory(platform: PlatformId, path: Seq<char>, directory: Seq<char>) -> bool {
    if platform == PlatformId::Windows {
        contains(fold_case(path), fold_case(directory))
    } else {
        contains(path, directory)
    }
}

/// `path` with one directory added at its end, unless it holds it already.
pub open spec fn with_directory(platform: PlatformId, path: Seq<char>, directory: Seq<char>) -> Seq<
    char,
> {
    if holds_directory(platform, path, directory) {
        path
    } else {
        path + platform.path_separator() + directory
    }
}

/// `path` with each of the directories added in turn.
pub open spec fn with_directories(
    platform: PlatformId,
    path: Seq<char>,
    directories: Seq<Seq<char>>,
) -> Seq<char>
    decreases directories.len(),
{
    if directories.len() == 0 {
        path
    } else {
        with_directory(
            platform,
            with_directories(platform, path, directories.drop_last()),
            directories.last(),
        )
    }
}

/// The augmented search path.
pub open spec fn augmented_path(platform: PlatformId, base: Seq<char>, host: HostProfileView) -> Seq<
    char,
> {
    with_directories(platform, base, known_directories(platform, host))
}

/// A path still holds a directory after more text is added at its end.
pub proof fn lemma_holds_after_growth(
    platform: PlatformId,
    path: Seq<char>,
    more: Seq<char>,
    directory: Seq<char>,
)
    requires
        holds_directory(platform, path, directory),
    ensures
        holds_directory(platform, path + more, directory),
{
    if platform == PlatformId::Windows {
        lemma_fold_case_concat(path, more);
        lemma_contains_extend(fold_case(path), fold_case(more), fold_case(directory));
    } else {
        lemma_contains_extend(path, more, directory);
    }
}

/// A path holds the directory that was added to it.
pub proof fn lemma_with_directory_holds(platform: PlatformId, path: Seq<char>, directory: Seq<char>)
    ensures
        holds_directory(platform, with_directory(platform, path, directory), directory),
{
    if !holds_directory(platform, path, directory) {
        let head = path + platform.path_separator();
        if platform == PlatformId::Windows {
            lemma_fold_case_concat(head, directory);
            lemma_contains_suffix(fold_case(head), fold_case(directory));
        } else {
            lemma_contains_suffix(head, directory);
        }
    }
}

/// After the directories were added, the path holds each of them.
pub proof fn lemma_with_directories_holds_all(
    platform: PlatformId,
    path: Seq<char>,
    directories: Seq<Seq<char>>,
)
    ensures
        forall|i: int|
            0 <= i < directories.len() ==> holds_directory(
                platform,
                with_directories(platform, path, directories),
                #[trigger] directories[i],
            ),
    decreases directories.len(),
{
    if directories.len() > 0 {
        let before = with_directories(platform, path, directories.drop_last());
        let after = with_directories(platform, path, directories);
        lemma_with_directories_holds_all(platform, path, directories.drop_last());
        lemma_with_directory_holds(platform, before, directories.last());
        assert forall|i: int| 0 <= i < directories.len() implies holds_directory(
            platform,
            after,
            #[trigger] directories[i],
        ) by {
            if i < directories.len() - 1 {
                assert(directories.drop_last()[i] == directories[i]);
                if after != before {
                    lemma_holds_after_growth(
                        platform,
                        before,
                        platform.path_separator() + directories.last(),
                        directories[i],
                    );
                    assert(before + (platform.path_separator() + directories.last()) == after);
                }
            }
        }
    }
}

/// Adding directories that the path holds already changes nothing.
pub proof fn lemma_with_directories_unchanged(
    platform: PlatformId,
    path: Seq<char>,
    directories: Seq<Seq<char>>,
)
    requires
        forall|i: int|
            0 <= i < directories.len() ==> holds_directory(platform, path, #[trigger] directories[i]),
    ensures
        with_directories(platform, path, directories) == path,
    decreases directories.len(),
{
    if directories.len() > 0 {
        assert forall|i: int| 0 <= i < directories.drop_last().len() implies holds_directory(
            platform,
            path,
            #[trigger] directories.drop_last()[i],
        ) by {
            assert(directories.drop_last()[i] == directories[i]);
        }
        lemma_with_directories_unchanged(platform, path, directories.drop_last());
        assert(holds_directory(platform, path, directories[directories.len() - 1]));
    }
}

/// Augmenting a path a second time changes nothing: an augmented path holds
/// every well-known directory, so none is added twice.
pub proof fn lemma_augmented_path_idempotent(
    platform: PlatformId,
    base: Seq<char>,
    host: HostProfileView,
)
    ensures
        augmented_path(platform, augmented_path(platform, base, host), host) == augmented_path(
            platform,
            base,
            host,
        ),
{
    let directories = known_directories(platform, host);
    lemma_with_directories_holds_all(platform, base, directories);
    lemma_with_directories_unchanged(platform, augmented_path(platform, base, host), directories);
}

/// The well-known binary directories of `platform`.
pub fn known_directories_of(platform: PlatformId, host: &HostProfile) -> (r: Vec<Vec<char>>)
    ensures
        rows(r@) == known_directories(platform, host@),
{
    let mut r: Vec<Vec<char>> = Vec::new();
    match platform {
        PlatformId::MacOs => {
            r.push(chars_of("/opt/homebrew/bin"));
            r.push(chars_of("/usr/local/bin"));
            r.push(chars_of("/usr/bin"));
            r.push(chars_of("/bin"));
        },
        PlatformId::Linux => {
            r.push(chars_of("/usr/local/bin"));
            r.push(chars_of("/usr/bin"));
            r.push(chars_of("/bin"));
            let mut local = chars_of("/home/");
            extend_chars(&mut local, chars_of(host.user.as_str()).as_slice());
            extend_chars(&mut local, chars_of("/.local/bin").as_slice());
            r.push(local);
        },
        PlatformId::Windows => {
            r.push(chars_of("C:\\Program Files\\Ollama"));
            r.push(chars_of("C:\\Program Files (x86)\\Ollama"));
            let mut local = chars_of(host.user_profile.as_str());
            extend_chars(&mut local, chars_of("\\AppData\\Local\\Programs\\Ollama").as_slice());
            r.push(local);
        },
        PlatformId::Unknown => {},
    }
    assert(rows(r@) =~= known_directories(platform, host@));
    r
}

/// Whether `path` holds `directory` already.
pub fn path_holds_directory(platform: PlatformId, path: &[char], directory: &[char]) -> (r: bool)
    ensures
        r == holds_directory(platform, path@, directory@),
{
    match platform {
        PlatformId::Windows => {
            let folded_path = fold_case_of(path);
            let folded_directory = fold_case_of(directory);
            contains_in(folded_path.as_slice(), folded_directory.as_slice())
        },
        _ => contains_in(path, directory),
    }
}

/// The augmented search path: `base_path` with each well-known directory of
/// the platform added at its end, behind the platform's separator, unless
/// the path as it stands by then holds the directory already.
pub fn build_augmented_path(platform: PlatformId, base_path: &str, host: &HostProfile) -> (r: String)
    ensures
        r@ == augmented_path(platform, base_path@, host@),
{
    let directories = known_directories_of(platform, host);
    let separator = chars_of(platform.separator().as_str());
    let mut path = chars_of(base_path);
    let mut i: usize = 0;
    while i < directories.len()
        invariant
            i <= directories.len(),
            separator@ == platform.path_separator(),
            path@ == with_directories(platform, base_path@, rows(directories@).take(i as int)),
        decreases directories.len() - i,
    {
        let ghost next = rows(directories@).take(i + 1);
        assert(next.drop_last() == rows(directories@).take(i as int));
        assert(next.last() == directories@[i as int]@);
        if !path_holds_directory(platform, path.as_slice(), directories[i].as_slice()) {
            extend_chars(&mut path, separator.as_slice());
            extend_chars(&mut path, directories[i].as_slice());
        }
        i += 1;
    }
    assert(rows(directories@).take(directories.len() as int) == rows(directories@));
    string_of(path.as_slice())
}

} // verus!
