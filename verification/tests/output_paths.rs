use xkcd_cli::download::classify_download_status;
use xkcd_cli::errors::DownloadError;
use xkcd_cli::errors::PathError;
use xkcd_cli::numfmt::u32_to_dec;
use xkcd_cli::output::OutputPathResolver;

#[test]
fn default_resolution_goes_under_the_comics_directory() {
    let r = OutputPathResolver::new(String::from("/work"));
    let t = r.resolve("42", None).unwrap();
    assert_eq!(t.dir, "/work/comics");
    assert_eq!(t.file_name, "42.png");
    assert_eq!(t.full_path, "/work/comics/42.png");
    assert!(t.full_path.ends_with("comics/42.png"));
}

#[test]
fn override_resolution_is_taken_verbatim() {
    let r = OutputPathResolver::new(String::from("/work"));
    let t = r.resolve("42", Some("/tmp/x/out.png")).unwrap();
    assert_eq!(t.dir, "/tmp/x");
    assert_eq!(t.file_name, "out.png");
    assert_eq!(t.full_path, "/tmp/x/out.png");
}

#[test]
fn override_resolution_ignores_the_default_base_name() {
    let r = OutputPathResolver::new(String::from("/somewhere/else"));
    let a = r.resolve("42", Some("/tmp/x/out.png")).unwrap();
    let b = r.resolve("9999", Some("/tmp/x/out.png")).unwrap();
    assert_eq!(a.full_path, b.full_path);
    assert_eq!(a.dir, b.dir);
    assert_eq!(a.file_name, b.file_name);
}

#[test]
fn override_with_root_parent_keeps_the_root() {
    let r = OutputPathResolver::new(String::from("/work"));
    let t = r.resolve("42", Some("/out.png")).unwrap();
    assert_eq!(t.dir, "/");
    assert_eq!(t.file_name, "out.png");
    assert_eq!(t.full_path, "/out.png");
}

#[test]
fn override_without_parent_is_rejected() {
    let r = OutputPathResolver::new(String::from("/work"));
    match r.resolve("42", Some("out.png")) {
        Err(PathError::InvalidOutputPath) => {},
        _ => panic!("expected InvalidOutputPath for a bare file name"),
    }
    match r.resolve("42", Some("")) {
        Err(PathError::InvalidOutputPath) => {},
        _ => panic!("expected InvalidOutputPath for an empty override"),
    }
}

#[test]
fn override_with_trailing_separators_splits_like_a_path() {
    let r = OutputPathResolver::new(String::from("/work"));
    let t = r.resolve("42", Some("/tmp/x/")).unwrap();
    assert_eq!(t.dir, "/tmp");
    assert_eq!(t.file_name, "x");
    assert_eq!(t.full_path, "/tmp/x");
    let t = r.resolve("42", Some("/tmp/x///")).unwrap();
    assert_eq!(t.dir, "/tmp");
    assert_eq!(t.file_name, "x");
    assert_eq!(t.full_path, "/tmp/x");
}

#[test]
fn override_without_file_name_is_rejected() {
    let r = OutputPathResolver::new(String::from("/work"));
    match r.resolve("42", Some("/")) {
        Err(PathError::InvalidOutputPath) => {},
        _ => panic!("expected InvalidOutputPath for the bare root"),
    }
    match r.resolve("42", Some("///")) {
        Err(PathError::InvalidOutputPath) => {},
        _ => panic!("expected InvalidOutputPath for separators only"),
    }
}

#[test]
fn override_ending_in_relative_marker_is_rejected() {
    let r = OutputPathResolver::new(String::from("/work"));
    match r.resolve("42", Some("/tmp/x/..")) {
        Err(PathError::InvalidOutputPath) => {},
        _ => panic!("expected InvalidOutputPath for a parent marker"),
    }
    match r.resolve("42", Some("/tmp/x/.")) {
        Err(PathError::InvalidOutputPath) => {},
        _ => panic!("expected InvalidOutputPath for a current-directory marker"),
    }
    let t = r.resolve("42", Some("/tmp/x/...")).unwrap();
    assert_eq!(t.file_name, "...");
}

#[test]
fn path_errors_describe_themselves() {
    assert_eq!(
        PathError::InvalidOutputPath.describe(),
        "invalid output path: missing file name or parent directory"
    );
    assert_eq!(
        PathError::DirectoryCreationFailed(String::from("permission denied")).describe(),
        "could not create output directory: permission denied"
    );
}

#[test]
fn decimal_formatting_is_exact() {
    assert_eq!(u32_to_dec(0), "0");
    assert_eq!(u32_to_dec(7), "7");
    assert_eq!(u32_to_dec(42), "42");
    assert_eq!(u32_to_dec(925), "925");
    assert_eq!(u32_to_dec(1000), "1000");
    assert_eq!(u32_to_dec(4294967295), "4294967295");
}

#[test]
fn success_statuses_pass_the_download_check() {
    assert!(classify_download_status(200).is_ok());
    assert!(classify_download_status(204).is_ok());
    assert!(classify_download_status(299).is_ok());
}

#[test]
fn non_success_statuses_fail_the_download_check() {
    for code in [100u16, 301, 304, 400, 404, 500] {
        match classify_download_status(code) {
            Err(DownloadError::TransportError(_)) => {},
            _ => panic!("expected TransportError for status {}", code),
        }
    }
    match classify_download_status(404) {
        Err(DownloadError::TransportError(m)) => {
            assert_eq!(m, "non-success response status 404");
        },
        _ => panic!("expected TransportError"),
    }
    let e = DownloadError::TransportError(String::from("connection reset"));
    assert_eq!(e.describe(), "transport error: connection reset");
}
