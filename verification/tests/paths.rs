use moyu_video::paths::{fixtures_dir, library_path, DirPath, LibraryPath, Platform};

fn names(list: &[&str]) -> Vec<String> {
    list.iter().map(|s| s.to_string()).collect()
}

#[test]
fn fixtures_are_next_to_the_package() {
    let path = fixtures_dir(DirPath { root: names(&["/"]), names: names(&["src", "repo", "sample"]) });
    assert_eq!(path, DirPath { root: names(&["/"]), names: names(&["src", "repo", "fixtures"]) });
}

#[test]
fn siblings_share_their_directory() {
    let path = DirPath { root: Vec::new(), names: vec![1, 2] }.sibling(9);
    assert_eq!(path, DirPath { root: Vec::new(), names: vec![1, 9] });
}

#[test]
fn a_given_library_is_taken() {
    for platform in [Platform::Linux, Platform::Windows] {
        assert_eq!(
            library_path(Some("/tmp/x.so".to_string()), platform),
            LibraryPath::Given("/tmp/x.so".to_string())
        );
    }
}

#[test]
fn the_library_is_named_by_platform() {
    let cases = [
        (Platform::Linux, "libmoyu_video.so"),
        (Platform::Android, "libmoyu_video.so"),
        (Platform::Windows, "moyu_video.dll"),
        (Platform::Macos, "libmoyu_video.dylib"),
        (Platform::Ios, "libmoyu_video.dylib"),
        (Platform::Other, "libmoyu_video.so"),
    ];
    for (platform, name) in cases {
        assert_eq!(library_path(None, platform), LibraryPath::BesideProgram(name.to_string()));
    }
}
