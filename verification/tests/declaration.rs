use wps::declaration::{get_declaration, join_path};

#[test]
fn declaration_lies_in_the_directory() {
    assert_eq!(get_declaration("/ext/wps"), "/ext/wps/lib.deno_wps.d.ts");
    assert_eq!(get_declaration("/ext/wps/"), "/ext/wps/lib.deno_wps.d.ts");
    assert_eq!(get_declaration(""), "lib.deno_wps.d.ts");
}

#[test]
fn join_path_matches_path_buf() {
    let cases = [
        ("a", "b"),
        ("a/", "b"),
        ("", "b"),
        ("a", "/b"),
        ("/a/b", "c/d"),
        ("/", "x"),
        ("a", ""),
    ];
    for (base, name) in cases {
        let expected = std::path::PathBuf::from(base).join(name);
        assert_eq!(join_path(base, name), expected.to_str().unwrap(), "{} + {}", base, name);
    }
}

#[test]
fn absolute_name_replaces_base() {
    assert_eq!(join_path("/usr/lib", "/etc/x"), "/etc/x");
}
