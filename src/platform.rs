//! The three platforms the shell runs on, and how a target's OS name selects one.
use vstd::prelude::*;

verus! {

/// The platform a build of the shell targets.
#[derive(Clone, Copy, Debug, PartialEq, Eq, Structural)]
pub enum Platform {
    Android,
    Ios,
    Desktop,
}

/// The name reported for a platform.
pub open spec fn platform_name(p: Platform) -> Seq<char> {
    match p {
        Platform::Android => "android"@,
        Platform::Ios => "ios"@,
        Platform::Desktop => "desktop"@,
    }
}

/// The platform selected by a target OS name: the two mobile systems by
/// their own names, every other system as a desktop.
pub open spec fn platform_of_os(os: Seq<char>) -> Platform {
    if os == "android"@ {
        Platform::Android
    } else if os == "ios"@ {
        Platform::Ios
    } else {
        Platform::Desktop
    }
}

/// Whether a platform is one of the two mobile systems.
pub open spec fn is_mobile(p: Platform) -> bool {
    p == Platform::Android || p == Platform::Ios
}

impl Platform {
    /// Selects the platform for a target OS name (as Rust spells `target_os`).
    pub fn from_os_name(os: &str) -> (r: Platform)
        ensures
            r == platform_of_os(os@),
    {
        let s = os.to_owned();
        if s == "android".to_owned() {
            Platform::Android
        } else if s == "ios".to_owned() {
            Platform::Ios
        } else {
            Platform::Desktop
        }
    }
}

/// A platform's reported name selects that same platform again.
pub proof fn lemma_os_name_round_trip(p: Platform)
    ensures
        platform_of_os(platform_name(p)) == p,
{
    reveal_strlit("android");
    reveal_strlit("ios");
    reveal_strlit("desktop");
    assert("android"@.len() != "ios"@.len());
    assert("desktop"@[0] != "ios"@[0]);
    assert("desktop"@[0] != "android"@[0]);
}

} // verus!
