use render_gl::resources::{resource_name_to_path, ResourceError, Resources};

#[test]
fn joins_root_and_name_with_separator() {
    let p = resource_name_to_path("root", "shaders/triangle.vert");
    assert_eq!(p, "root/shaders/triangle.vert");
}

#[test]
fn joins_empty_name() {
    let p = resource_name_to_path("root", "");
    assert_eq!(p, "root/");
}

#[test]
fn root_comes_from_exe_directory_joined_with_subpath() {
    let res = Resources::from_relative_exe_path(Some("target/debug/app"), "assets").unwrap();
    let p = res.resource_path("shaders/triangle.vert");
    assert_eq!(p, "target/debug/assets/shaders/triangle.vert");
}

#[test]
fn missing_exe_path_fails_resolution() {
    let r = Resources::from_relative_exe_path(None, "assets");
    assert_eq!(r.unwrap_err(), ResourceError::FailedToGetExePath);
}

#[test]
fn exe_path_without_directory_fails_resolution() {
    let r = Resources::from_relative_exe_path(Some("app"), "assets");
    assert_eq!(r.unwrap_err(), ResourceError::FailedToGetExePath);
}

#[test]
fn load_returns_exactly_the_bytes_read() {
    let res = Resources::from_relative_exe_path(Some("bin/app"), "assets").unwrap();
    let bytes = vec![b'v', b'o', b'i', b'd', b' ', b'm', b'a', b'i', b'n'];
    let loaded = res.load_cstring(Ok(bytes.clone())).unwrap();
    assert_eq!(loaded, bytes);
}

#[test]
fn load_of_empty_file_returns_empty_buffer() {
    let res = Resources::from_relative_exe_path(Some("bin/app"), "assets").unwrap();
    let loaded = res.load_cstring(Ok(Vec::new())).unwrap();
    assert!(loaded.is_empty());
}

#[test]
fn embedded_nil_byte_is_rejected() {
    let res = Resources::from_relative_exe_path(Some("bin/app"), "assets").unwrap();
    let r = res.load_cstring(Ok(vec![1u8, 0u8, 2u8]));
    assert_eq!(r.unwrap_err(), ResourceError::FileContainsNil);
}

#[test]
fn leading_and_trailing_nil_bytes_are_rejected() {
    let res = Resources::from_relative_exe_path(Some("bin/app"), "assets").unwrap();
    assert_eq!(
        res.load_cstring(Ok(vec![0u8, 7u8])).unwrap_err(),
        ResourceError::FileContainsNil
    );
    assert_eq!(
        res.load_cstring(Ok(vec![7u8, 0u8])).unwrap_err(),
        ResourceError::FileContainsNil
    );
}

#[test]
fn failed_read_becomes_io_error_with_its_reason() {
    let res = Resources::from_relative_exe_path(Some("bin/app"), "assets").unwrap();
    let r = res.load_cstring(Err("no such file".to_string()));
    assert_eq!(r.unwrap_err(), ResourceError::Io("no such file".to_string()));
}
