use sm_menu::error::CliError;
use sm_menu::security::{
    sanitize_for_display, validate_file_path, validate_file_size, PathLookup, MAX_FILE_SIZE,
};

#[test]
fn test_sanitize_for_display() {
    assert_eq!(sanitize_for_display("Hello World"), "Hello World");

    assert_eq!(sanitize_for_display("Hello\nWorld"), "Hello\nWorld");
    assert_eq!(sanitize_for_display("Hello\tWorld"), "Hello\tWorld");

    let input = "Hello\x1b[31mWorld\x1b[0m";
    let output = sanitize_for_display(input);
    assert!(!output.contains('\x1b'));
    assert!(output.contains("Hello"));
    assert!(output.contains("World"));
}

#[test]
fn test_validate_file_size() {
    assert!(validate_file_size(0).is_ok());
    assert!(validate_file_size(1024).is_ok());
    assert!(validate_file_size(1024 * 1024).is_ok());

    assert!(validate_file_size(MAX_FILE_SIZE).is_ok());

    assert!(validate_file_size(MAX_FILE_SIZE + 1).is_err());
    assert!(validate_file_size(200 * 1024 * 1024).is_err());
}

#[test]
fn test_validate_file_size_boundary() {
    assert!(validate_file_size(104_857_600).is_ok());
    let over = validate_file_size(104_857_601);
    assert!(matches!(
        over,
        Err(CliError::ExecutionError(m))
            if m == "File too large: 104857601 bytes (maximum: 104857600 bytes)"
    ));
}

#[test]
fn test_validate_file_path_empty() {
    let lookup = PathLookup::NotFound("no such file".to_string());
    assert!(validate_file_path("", "/work", &lookup).is_err());
    assert!(validate_file_path("   ", "/work", &lookup).is_err());
}

#[test]
fn test_validate_file_path_traversal() {
    let lookup = PathLookup::NotFound("no such file".to_string());
    assert!(validate_file_path("../file.txt", "/work", &lookup).is_err());
    assert!(validate_file_path("../../etc/passwd", "/work", &lookup).is_err());
    assert!(validate_file_path("subdir/../../../file.txt", "/work", &lookup).is_err());
}

#[test]
fn test_validate_file_path_containment() {
    // an existing file inside the working directory is accepted, canonicalized
    let inside = PathLookup::Canonicalized("/work/data.txt".to_string());
    let r = validate_file_path("data.txt", "/work", &inside);
    assert_eq!(r.unwrap(), "/work/data.txt");

    // a canonical form outside the working directory is rejected
    let outside = PathLookup::Canonicalized("/elsewhere/data.txt".to_string());
    assert!(matches!(
        validate_file_path("data.txt", "/work", &outside),
        Err(CliError::PermissionDenied(_))
    ));

    // a sibling directory sharing a name prefix is still outside
    let sibling = PathLookup::Canonicalized("/workspace/data.txt".to_string());
    assert!(matches!(
        validate_file_path("data.txt", "/work", &sibling),
        Err(CliError::PermissionDenied(_))
    ));

    // a missing file whose parent is inside surfaces the lookup error
    let missing = PathLookup::NotFound("no such file".to_string());
    assert!(matches!(
        validate_file_path("new.txt", "/work", &missing),
        Err(CliError::FileNotFound(m)) if m == "new.txt: no such file"
    ));

    // a missing absolute path outside the working directory is rejected
    assert!(matches!(
        validate_file_path("/etc/shadow", "/work", &missing),
        Err(CliError::PermissionDenied(_))
    ));
}
