use native_commands::{get_platform, Platform};

const ALL: [Platform; 6] = [
    Platform::Android,
    Platform::Ios,
    Platform::Macos,
    Platform::Windows,
    Platform::Linux,
    Platform::Unknown,
];

#[test]
fn resolves_the_five_known_targets() {
    assert_eq!(Platform::from_target_os("android"), Platform::Android);
    assert_eq!(Platform::from_target_os("ios"), Platform::Ios);
    assert_eq!(Platform::from_target_os("macos"), Platform::Macos);
    assert_eq!(Platform::from_target_os("windows"), Platform::Windows);
    assert_eq!(Platform::from_target_os("linux"), Platform::Linux);
}

#[test]
fn resolves_any_other_target_to_unknown() {
    for os in ["freebsd", "", "unknown", "Android", "LINUX", "linux ", " ios", "macos\n", "win"] {
        assert_eq!(Platform::from_target_os(os), Platform::Unknown, "{:?}", os);
    }
}

#[test]
fn names_each_platform() {
    assert_eq!(get_platform(Platform::Android), "android");
    assert_eq!(get_platform(Platform::Ios), "ios");
    assert_eq!(get_platform(Platform::Macos), "macos");
    assert_eq!(get_platform(Platform::Windows), "windows");
    assert_eq!(get_platform(Platform::Linux), "linux");
    assert_eq!(get_platform(Platform::Unknown), "unknown");
}

#[test]
fn name_and_get_platform_agree() {
    for platform in ALL {
        assert_eq!(get_platform(platform), platform.name());
    }
}

#[test]
fn reports_one_of_the_six_names() {
    let names = ["android", "ios", "macos", "windows", "linux", "unknown"];
    for os in ["android", "ios", "macos", "windows", "linux", "freebsd", "", "haiku"] {
        let name = get_platform(Platform::from_target_os(os));
        assert!(names.contains(&name.as_str()), "{:?}", name);
    }
}

#[test]
fn name_identifies_the_platform() {
    for platform in ALL {
        assert_eq!(Platform::from_target_os(platform.name()), platform);
    }
}

#[test]
fn known_target_is_reported_under_its_own_name() {
    for os in ["android", "ios", "macos", "windows", "linux"] {
        assert_eq!(get_platform(Platform::from_target_os(os)), os);
    }
    assert_eq!(get_platform(Platform::from_target_os("freebsd")), "unknown");
}

#[test]
fn desktop_target_is_named() {
    assert_eq!(get_platform(Platform::from_target_os("macos")), "macos");
}

#[test]
fn tells_mobile_platforms_apart() {
    assert!(Platform::Android.is_mobile());
    assert!(Platform::Ios.is_mobile());
    for platform in [Platform::Macos, Platform::Windows, Platform::Linux, Platform::Unknown] {
        assert!(!platform.is_mobile());
    }
}

#[test]
fn only_android_has_a_permission_service() {
    for platform in ALL {
        assert_eq!(platform.has_permission_service(), platform == Platform::Android);
    }
}
