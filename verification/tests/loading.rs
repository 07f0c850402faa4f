use yp_ffi::loader::{c_string, call_dynamic};
use yp_ffi::plugin::{Error, Plugin};

#[test]
fn plugin_names() {
    assert_eq!(Plugin::Mirror.as_str(), "mirror");
    assert_eq!(Plugin::Blur.as_str(), "blur");
    assert_eq!(Plugin::Grayscale.as_str(), "grayscale");
}

#[test]
fn library_names_per_os() {
    assert_eq!(Plugin::Mirror.as_lib_name("linux").unwrap(), "libmirror.so");
    assert_eq!(Plugin::Blur.as_lib_name("macos").unwrap(), "libblur.dylib");
    assert_eq!(Plugin::Grayscale.as_lib_name("windows").unwrap(), "grayscale.dll");
}

#[test]
fn unknown_os_is_unsupported() {
    assert_eq!(
        Plugin::Mirror.as_lib_name("freebsd"),
        Err(Error::UnsupportedOs("freebsd".to_string()))
    );
    assert!(matches!(
        call_dynamic("plugins", Plugin::Blur, "haiku", 1, 1, "{}"),
        Err(Error::UnsupportedOs(os)) if os == "haiku"
    ));
}

#[test]
fn call_goes_through_every_step() {
    let lookup = call_dynamic("target/debug", Plugin::Mirror, "linux", 3, 2, "{\"horizontal\":true}")
        .unwrap();
    assert_eq!(lookup.path, "target/debug/libmirror.so");
    let load = lookup.file_checked(true).unwrap();
    assert_eq!(load.path, "target/debug/libmirror.so");
    let call = load.library_loaded(Ok(())).unwrap();
    assert_eq!(call.width, 3);
    assert_eq!(call.height, 2);
    let mut expected = b"{\"horizontal\":true}".to_vec();
    expected.push(0);
    assert_eq!(call.params, expected);
}

#[test]
fn missing_library_file_is_reported_with_its_path() {
    let lookup = call_dynamic("plugins", Plugin::Blur, "macos", 1, 1, "{}").unwrap();
    assert!(matches!(
        lookup.file_checked(false),
        Err(Error::PluginLibraryNotFound(p)) if p == "plugins/libblur.dylib"
    ));
}

#[test]
fn library_load_failure_keeps_the_message() {
    let load = call_dynamic("d", Plugin::Grayscale, "linux", 1, 1, "{}")
        .unwrap()
        .file_checked(true)
        .unwrap();
    assert!(matches!(
        load.library_loaded(Err("no such symbol".to_string())),
        Err(Error::LibraryLoad(m)) if m == "no such symbol"
    ));
}

#[test]
fn params_with_a_nul_byte_are_invalid() {
    let load = call_dynamic("d", Plugin::Mirror, "linux", 1, 1, "{}\0{}")
        .unwrap()
        .file_checked(true)
        .unwrap();
    assert!(matches!(load.library_loaded(Ok(())), Err(Error::InvalidParams(2))));
}

#[test]
fn c_string_appends_one_nul() {
    assert_eq!(c_string(b"ab"), Ok(vec![b'a', b'b', 0]));
    assert_eq!(c_string(b""), Ok(vec![0]));
    assert_eq!(c_string(b"a\0b\0"), Err(1));
}
