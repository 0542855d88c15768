//! The operating system the supervisor runs on, and what it knows of the
//! user's account there.

use vstd::prelude::*;
use crate::text::{chars_of, same_text};

verus! {

/// The operating system. It is fixed when the process starts and decides
/// every choice that differs between systems.
#[derive(Clone, Copy, PartialEq, Eq, Debug, Structural)]
pub enum PlatformId {
    MacOs,
    Windows,
    Linux,
    Unknown,
}

/// The platform that a name stands for; a name that is none of the three
/// known ones stands for `Unknown`.
pub open spec fn platform_named(name: Seq<char>) -> PlatformId {
    if name == "macos"@ {
        PlatformId::MacOs
    } else if name == "windows"@ {
        PlatformId::Windows
    } else if name == "linux"@ {
        PlatformId::Linux
    } else {
        PlatformId::Unknown
    }
}

impl PlatformId {
    /// The platform's name as the front end knows it.
    pub open spec fn name_text(self) -> Seq<char> {
        match self {
            PlatformId::MacOs => "macos"@,
            PlatformId::Windows => "windows"@,
            PlatformId::Linux => "linux"@,
            PlatformId::Unknown => "unknown"@,
        }
    }

    /// The name under which the engine's executable is found on the search
    /// path.
    pub open spec fn engine_command(self) -> Seq<char> {
        match self {
            PlatformId::Windows => "ollama.exe"@,
            _ => "ollama"@,
        }
    }

    /// What separates two directories of a search path.
    pub open spec fn path_separator(self) -> Seq<char> {
        match self {
            PlatformId::Windows => ";"@,
            _ => ":"@,
        }
    }

    pub fn name(self) -> (r: String)
        ensures
            r@ == self.name_text(),
    {
        match self {
            PlatformId::MacOs => "macos".to_string(),
            PlatformId::Windows => "windows".to_string(),
            PlatformId::Linux => "linux".to_string(),
            PlatformId::Unknown => "unknown".to_string(),
        }
    }

    pub fn from_name(name: &str) -> (r: PlatformId)
        ensures
            r == platform_named(name@),
    {
        let given = chars_of(name);
        if same_text(given.as_slice(), chars_of("macos").as_slice()) {
            PlatformId::MacOs
        } else if same_text(given.as_slice(), chars_of("windows").as_slice()) {
            PlatformId::Windows
        } else if same_text(given.as_slice(), chars_of("linux").as_slice()) {
            PlatformId::Linux
        } else {
            PlatformId::Unknown
        }
    }

    pub fn engine_command_name(self) -> (r: String)
        ensures
            r@ == self.engine_command(),
    {
        match self {
            PlatformId::Windows => "ollama.exe".to_string(),
            _ => "ollama".to_string(),
        }
    }

    pub fn separator(self) -> (r: String)
        ensures
            r@ == self.path_separator(),
    {
        match self {
            PlatformId::Windows => ";".to_string(),
            _ => ":".to_string(),
        }
    }
}

/// The names of the three known platforms stand for them again.
pub proof fn lemma_platform_name_round_trip(platform: PlatformId)
    requires
        platform != PlatformId::Unknown,
    ensures
        platform_named(platform.name_text()) == platform,
{
    reveal_strlit("macos");
    reveal_strlit("windows");
    reveal_strlit("linux");
    assert("macos"@[0] != "windows"@[0]);
    assert("macos"@[0] != "linux"@[0]);
    assert("windows"@[0] != "linux"@[0]);
}

/// What the supervisor knows of the user's account: the values that the
/// operating system keeps under `USER`, `HOME` and `USERPROFILE`, each empty
/// where the system has none.
pub struct HostProfile {
    pub user: String,
    pub home: String,
    pub user_profile: String,
}

pub struct HostProfileView {
    pub user: Seq<char>,
    pub home: Seq<char>,
    pub user_profile: Seq<char>,
}

impl View for HostProfile {
    type V = HostProfileView;

    open spec fn view(&self) -> HostProfileView {
        HostProfileView { user: self.user@, home: self.home@, user_profile: self.user_profile@ }
    }
}

} // verus!
