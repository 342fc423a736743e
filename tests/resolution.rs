use clice_zed::extension::CliceExtension;
use clice_zed::path::rfind_separator;
use clice_zed::resolver::{
    arguments, auxiliary_dir, binary_from_lookup, invocation_for, resolve, CliceBinary, HostOs,
    ResolutionError, Variant,
};

fn strings(items: &[&str]) -> Vec<String> {
    items.iter().map(|s| s.to_string()).collect()
}

#[test]
fn minimal_variant_passes_pipe_mode() {
    let d = resolve(Some("/usr/local/bin/clice".to_string()), Variant::Minimal, HostOs::Linux)
        .unwrap();
    assert_eq!(d.executable_path, "/usr/local/bin/clice");
    assert_eq!(d.auxiliary_dir, None);
    assert_eq!(d.arguments, strings(&["--mode", "pipe"]));
}

#[test]
fn resource_dir_variant_unix_path() {
    let d = resolve(Some("/opt/tools/clice".to_string()), Variant::ResourceDir, HostOs::Linux)
        .unwrap();
    assert_eq!(d.executable_path, "/opt/tools/clice");
    assert_eq!(d.auxiliary_dir, Some("/opt/tools/lib".to_string()));
    assert_eq!(
        d.arguments,
        strings(&["--resource-dir", "/opt/tools/lib", "--mode", "pipe"])
    );
}

#[test]
fn resource_dir_variant_windows_path() {
    let d = resolve(
        Some("C:\\Tools\\clice.exe".to_string()),
        Variant::ResourceDir,
        HostOs::Windows,
    )
    .unwrap();
    assert_eq!(d.executable_path, "C:\\Tools\\clice.exe");
    assert_eq!(d.auxiliary_dir, Some("C:\\Tools\\lib".to_string()));
    assert_eq!(
        d.arguments,
        strings(&["--resource-dir", "C:\\Tools\\lib", "--mode", "pipe"])
    );
}

#[test]
fn windows_path_joined_by_host_separator() {
    let d = resolve(Some("C:\\Tools\\clice.exe".to_string()), Variant::ResourceDir, HostOs::Mac)
        .unwrap();
    assert_eq!(d.auxiliary_dir, Some("C:\\Tools/lib".to_string()));
}

#[test]
fn unix_path_joined_on_windows() {
    let d = resolve(Some("/opt/tools/clice".to_string()), Variant::ResourceDir, HostOs::Windows)
        .unwrap();
    assert_eq!(d.auxiliary_dir, Some("/opt/tools\\lib".to_string()));
}

#[test]
fn rightmost_of_mixed_separators() {
    let d = resolve(Some("C:/a\\b/c\\clice".to_string()), Variant::ResourceDir, HostOs::Linux)
        .unwrap();
    assert_eq!(d.auxiliary_dir, Some("C:/a\\b/c/lib".to_string()));
}

#[test]
fn root_directory_executable() {
    let d = resolve(Some("/clice".to_string()), Variant::ResourceDir, HostOs::Linux).unwrap();
    assert_eq!(d.auxiliary_dir, Some("/lib".to_string()));
}

#[test]
fn bare_name_is_not_absolute() {
    let r = resolve(Some("clice".to_string()), Variant::ResourceDir, HostOs::Linux);
    assert_eq!(r.unwrap_err(), ResolutionError::PathNotAbsolute);
}

#[test]
fn bare_name_is_fine_for_minimal_variant() {
    let d = resolve(Some("clice".to_string()), Variant::Minimal, HostOs::Linux).unwrap();
    assert_eq!(d.executable_path, "clice");
    assert_eq!(d.arguments, strings(&["--mode", "pipe"]));
}

#[test]
fn absent_tool_is_not_found() {
    for variant in [Variant::Minimal, Variant::ResourceDir] {
        for os in [HostOs::Mac, HostOs::Linux, HostOs::Windows] {
            let r = resolve(None, variant, os);
            assert_eq!(r.unwrap_err(), ResolutionError::NotFound);
        }
    }
}

#[test]
fn resolving_twice_gives_the_same_outcome() {
    for found in [Some("/opt/tools/clice"), Some("clice"), None] {
        let first = resolve(found.map(|s| s.to_string()), Variant::ResourceDir, HostOs::Linux);
        let second = resolve(found.map(|s| s.to_string()), Variant::ResourceDir, HostOs::Linux);
        match (first, second) {
            (Ok(a), Ok(b)) => {
                assert_eq!(a.executable_path.as_bytes(), b.executable_path.as_bytes());
                assert_eq!(a.auxiliary_dir, b.auxiliary_dir);
                assert_eq!(a.arguments, b.arguments);
            }
            (Err(a), Err(b)) => assert_eq!(a, b),
            _ => panic!("the two resolutions disagree"),
        }
    }
}

#[test]
fn rfind_separator_positions() {
    assert_eq!(rfind_separator(""), None);
    assert_eq!(rfind_separator("clice"), None);
    assert_eq!(rfind_separator("/usr/bin/clice"), Some(8));
    assert_eq!(rfind_separator("C:\\Tools\\clice.exe"), Some(8));
    assert_eq!(rfind_separator("a/b\\c"), Some(3));
    assert_eq!(rfind_separator("dir/"), Some(3));
    assert_eq!(rfind_separator("é/ü"), Some(1));
}

#[test]
fn auxiliary_dir_counts_characters() {
    assert_eq!(auxiliary_dir("/ü/clice", HostOs::Linux), Some("/ü/lib".to_string()));
    assert_eq!(auxiliary_dir("clice", HostOs::Windows), None);
}

#[test]
fn argument_lists() {
    assert_eq!(arguments(&None), strings(&["--mode", "pipe"]));
    assert_eq!(
        arguments(&Some("/x/lib".to_string())),
        strings(&["--resource-dir", "/x/lib", "--mode", "pipe"])
    );
}

#[test]
fn lookup_result_to_binary() {
    let b = binary_from_lookup(Some("/usr/bin/clice".to_string())).unwrap();
    assert_eq!(b.path, "/usr/bin/clice");
    assert_eq!(binary_from_lookup(None).unwrap_err(), ResolutionError::NotFound);
}

#[test]
fn invocation_for_binary() {
    let b = CliceBinary { path: "/usr/bin/clice".to_string() };
    let d = invocation_for(b, Variant::ResourceDir, HostOs::Linux).unwrap();
    assert_eq!(d.auxiliary_dir, Some("/usr/bin/lib".to_string()));
    let bare = CliceBinary { path: "clice".to_string() };
    assert_eq!(
        invocation_for(bare, Variant::ResourceDir, HostOs::Linux).unwrap_err(),
        ResolutionError::PathNotAbsolute
    );
}

#[test]
fn error_messages_guide_the_user() {
    assert_eq!(
        ResolutionError::NotFound.message(),
        "`clice` not found in your PATH. Please install it and add it to your system's PATH environment variable."
    );
    assert!(ResolutionError::PathNotAbsolute.message().contains("full path"));
}

#[test]
fn extension_settings() {
    assert_eq!(CliceExtension::new().variant, Variant::Minimal);
    assert_eq!(CliceExtension::with_variant(Variant::ResourceDir).variant, Variant::ResourceDir);
}

#[test]
fn host_separators() {
    assert_eq!(HostOs::Windows.separator(), "\\");
    assert_eq!(HostOs::Linux.separator(), "/");
    assert_eq!(HostOs::Mac.separator(), "/");
}
