use fsio::error::ErrorInfo;
use fsio::path::as_path::AsPath;
use fsio::path::from_path::FromPath;
use fsio::path::{
    canonicalize_as_string, canonicalize_or, get_basename, get_parent_directory,
    get_temporary_file_path,
};

#[test]
fn round_trip_text_to_path_and_back() {
    let text = "./src/some dir/file name.txt";
    let as_native = text.as_path_str();
    let display: String = FromPath::from_path(as_native);
    assert_eq!(display, text);

    let owned = String::from("relative/path");
    let back: String = FromPath::from_path(owned.as_path_str());
    assert_eq!(back, owned);
}

#[test]
fn basename_of_nested_relative_path() {
    let basename = get_basename("./src/path/mod.rs");
    assert_eq!(basename.unwrap(), "mod.rs");
}

#[test]
fn basename_accepts_owned_strings() {
    let path = String::from("./src/path/mod.rs");
    let basename = get_basename(&path);
    assert_eq!(basename.unwrap(), "mod.rs");
}

#[test]
fn basename_of_root_is_none() {
    assert!(get_basename("/").is_none());
}

#[test]
fn basename_edge_cases() {
    assert!(get_basename("").is_none());
    assert!(get_basename(".").is_none());
    assert!(get_basename("..").is_none());
    assert!(get_basename("foo/..").is_none());
    assert_eq!(get_basename("foo/").unwrap(), "foo");
    assert_eq!(get_basename("foo/.").unwrap(), "foo");
    assert_eq!(get_basename("/a//b").unwrap(), "b");
    assert_eq!(get_basename("mod.rs").unwrap(), "mod.rs");
}

#[test]
fn parent_of_nested_relative_path() {
    let dirname = get_parent_directory("./src/path/mod.rs");
    assert_eq!(dirname.unwrap(), "./src/path");
}

#[test]
fn parent_of_single_segment_is_none() {
    assert!(get_parent_directory("mod.rs").is_none());
}

#[test]
fn parent_of_root_is_none() {
    assert!(get_parent_directory("/").is_none());
}

#[test]
fn parent_edge_cases() {
    assert!(get_parent_directory("").is_none());
    assert!(get_parent_directory(".").is_none());
    assert!(get_parent_directory("..").is_none());
    assert_eq!(get_parent_directory("/foo").unwrap(), "/");
    assert_eq!(get_parent_directory("/..").unwrap(), "/");
    assert_eq!(get_parent_directory("foo/bar/").unwrap(), "foo");
    assert_eq!(get_parent_directory("foo/..").unwrap(), "foo");
    assert_eq!(get_parent_directory("./foo").unwrap(), ".");
    assert_eq!(get_parent_directory("a//b").unwrap(), "a");
}

#[test]
fn canonicalize_existing_path_is_absolute() {
    let resolved = canonicalize_as_string(".").unwrap();
    assert!(resolved.starts_with('/'));
    assert_ne!(resolved, ".");
}

#[test]
fn canonicalize_and_canonicalize_or_agree_on_existing_path() {
    let resolved = canonicalize_as_string("/");
    let with_fallback = canonicalize_or("/", "ignored fallback");
    assert_eq!(resolved.unwrap(), with_fallback);
}

#[test]
fn canonicalize_missing_path_is_io_error() {
    let missing = get_temporary_file_path("absent");
    let result = canonicalize_as_string(&missing);
    let error = result.unwrap_err();
    match error.info {
        ErrorInfo::IOError(message, code) => {
            assert_eq!(message, "Unable to canonicalize path.");
            assert!(code.is_some());
        }
        ErrorInfo::Descriptive(message) => {
            panic!("expected an I/O failure, found a descriptive failure: {}", message);
        }
    }
}

#[test]
fn canonicalize_or_missing_path_returns_fallback() {
    let missing = get_temporary_file_path("absent");
    let value = canonicalize_or(&missing, "the fallback value");
    assert_eq!(value, "the fallback value");
}

#[test]
fn temporary_file_path_has_extension() {
    let temp_file = get_temporary_file_path("txt");
    assert!(temp_file.ends_with(".txt"));
}

#[test]
fn temporary_file_paths_are_distinct_and_absent() {
    let first = get_temporary_file_path("txt");
    let second = get_temporary_file_path("txt");
    assert_ne!(first, second);
    assert!(!std::path::Path::new(&first).exists());
    assert!(!std::path::Path::new(&second).exists());
}
