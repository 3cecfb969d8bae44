//! The platform an application was built for.
//!
//! The platform is resolved once, from the operating system name of the
//! build target, and handed to the commands as a plain value.

use vstd::prelude::*;

verus! {

/// The platforms that the commands tell apart. A build target that is none
/// of the five named systems is `Unknown`.
#[derive(Clone, Copy, Debug, PartialEq, Eq, Structural)]
pub enum Platform {
    Android,
    Ios,
    Macos,
    Windows,
    Linux,
    Unknown,
}

impl Platform {
    /// The name under which the platform is reported.
    pub open spec fn spec_name(self) -> Seq<char> {
        match self {
            Platform::Android => "android"@,
            Platform::Ios => "ios"@,
            Platform::Macos => "macos"@,
            Platform::Windows => "windows"@,
            Platform::Linux => "linux"@,
            Platform::Unknown => "unknown"@,
        }
    }

    /// The platform that a build target with operating system name `os`
    /// stands for. Names are compared exactly, case included.
    pub open spec fn of_target_os(os: Seq<char>) -> Platform {
        if os == "android"@ {
            Platform::Android
        } else if os == "ios"@ {
            Platform::Ios
        } else if os == "macos"@ {
            Platform::Macos
        } else if os == "windows"@ {
            Platform::Windows
        } else if os == "linux"@ {
            Platform::Linux
        } else {
            Platform::Unknown
        }
    }

    /// Android and iOS.
    pub open spec fn spec_is_mobile(self) -> bool {
        self == Platform::Android || self == Platform::Ios
    }

    /// Whether the platform has a permission service that can be asked about
    /// single permissions. Only Android has one: iOS prompts by itself when a
    /// resource is first used, and the desktop systems have no such model.
    pub open spec fn spec_has_permission_service(self) -> bool {
        self == Platform::Android
    }

    /// Resolves the platform from the operating system name of the build
    /// target. Any name but the five known ones gives `Unknown`.
    pub fn from_target_os(os: &str) -> (platform: Platform)
        ensures
            platform == Platform::of_target_os(os@),
    {
        let os = String::from_str(os);
        if os == String::from_str("android") {
            Platform::Android
        } else if os == String::from_str("ios") {
            Platform::Ios
        } else if os == String::from_str("macos") {
            Platform::Macos
        } else if os == String::from_str("windows") {
            Platform::Windows
        } else if os == String::from_str("linux") {
            Platform::Linux
        } else {
            Platform::Unknown
        }
    }

    /// The name under which the platform is reported.
    pub fn name(self) -> (name: &'static str)
        ensures
            name@ == self.spec_name(),
    {
        match self {
            Platform::Android => "android",
            Platform::Ios => "ios",
            Platform::Macos => "macos",
            Platform::Windows => "windows",
            Platform::Linux => "linux",
            Platform::Unknown => "unknown",
        }
    }

    /// Whether the platform is Android or iOS.
    #[verifier::when_used_as_spec(spec_is_mobile)]
    pub fn is_mobile(self) -> (mobile: bool)
        ensures
            mobile == self.spec_is_mobile(),
    {
        match self {
            Platform::Android | Platform::Ios => true,
            _ => false,
        }
    }

    /// Whether the platform has a permission service to ask.
    #[verifier::when_used_as_spec(spec_has_permission_service)]
    pub fn has_permission_service(self) -> (has: bool)
        ensures
            has == self.spec_has_permission_service(),
    {
        match self {
            Platform::Android => true,
            _ => false,
        }
    }
}

/// Names the platform: `"android"`, `"ios"`, `"macos"`, `"windows"`,
/// `"linux"` or `"unknown"`. The call cannot fail.
pub fn get_platform(platform: Platform) -> (name: String)
    ensures
        name@ == platform.spec_name(),
{
    String::from_str(platform.name())
}

/// Every platform is reported under one of the six names.
pub proof fn lemma_name_is_one_of_six(platform: Platform)
    ensures
        platform.spec_name() == "android"@ || platform.spec_name() == "ios"@
            || platform.spec_name() == "macos"@ || platform.spec_name() == "windows"@
            || platform.spec_name() == "linux"@ || platform.spec_name() == "unknown"@,
{
}

/// The reported name identifies the platform: resolving a platform's own
/// name gives the platform back, so no two platforms share a name.
pub proof fn lemma_name_identifies_platform(platform: Platform)
    ensures
        Platform::of_target_os(platform.spec_name()) == platform,
{
    reveal_strlit("android");
    reveal_strlit("ios");
    reveal_strlit("macos");
    reveal_strlit("windows");
    reveal_strlit("linux");
    reveal_strlit("unknown");
    // Names of one length differ in their first character.
    assert("android"@[0] == 'a' && "windows"@[0] == 'w' && "unknown"@[0] == 'u');
    assert("macos"@[0] == 'm' && "linux"@[0] == 'l');
}

/// A build target is reported under its own operating system name when that
/// is one of the five known names, and as `"unknown"` otherwise.
pub proof fn lemma_target_is_reported_by_name(os: Seq<char>)
    ensures
        Platform::of_target_os(os).spec_name() == if os == "android"@ || os == "ios"@ || os
            == "macos"@ || os == "windows"@ || os == "linux"@ {
            os
        } else {
            "unknown"@
        },
{
}

/// Only a mobile platform can have a permission service.
pub proof fn lemma_permission_service_is_mobile(platform: Platform)
    ensures
        platform.spec_has_permission_service() ==> platform.spec_is_mobile(),
{
}

} // verus!
