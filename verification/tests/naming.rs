use sesh::naming::{
    client_socket, join, numbered_name, path_file_name, replace_slashes_in, session_base_name,
    session_socket_path, signed_decimal_string,
};
use sesh::text::{decimal_string, parse_usize};
use std::path::Path;

#[test]
fn decimal_of_small_and_large_numbers() {
    assert_eq!(decimal_string(0), "0");
    assert_eq!(decimal_string(7), "7");
    assert_eq!(decimal_string(10), "10");
    assert_eq!(decimal_string(4096), "4096");
    assert_eq!(decimal_string(usize::MAX), usize::MAX.to_string());
}

#[test]
fn signed_decimal_puts_a_minus_before_negative_numbers() {
    assert_eq!(signed_decimal_string(0), "0");
    assert_eq!(signed_decimal_string(1234), "1234");
    assert_eq!(signed_decimal_string(-5), "-5");
    assert_eq!(signed_decimal_string(i32::MIN), i32::MIN.to_string());
    assert_eq!(signed_decimal_string(i32::MAX), i32::MAX.to_string());
}

#[test]
fn parse_usize_reads_digits_with_an_optional_plus() {
    assert_eq!(parse_usize("0"), Some(0));
    assert_eq!(parse_usize("42"), Some(42));
    assert_eq!(parse_usize("+42"), Some(42));
    assert_eq!(parse_usize("007"), Some(7));
    assert_eq!(parse_usize(&usize::MAX.to_string()), Some(usize::MAX));
}

#[test]
fn parse_usize_refuses_other_text() {
    assert_eq!(parse_usize(""), None);
    assert_eq!(parse_usize("+"), None);
    assert_eq!(parse_usize("-1"), None);
    assert_eq!(parse_usize("4 2"), None);
    assert_eq!(parse_usize(" 42"), None);
    assert_eq!(parse_usize("42x"), None);
    assert_eq!(parse_usize("4_2"), None);
    assert_eq!(parse_usize("sh"), None);
    assert_eq!(parse_usize("++1"), None);
}

#[test]
fn parse_usize_refuses_what_does_not_fit() {
    let mut too_big = usize::MAX.to_string();
    too_big.push('0');
    assert_eq!(parse_usize(&too_big), None);
    let mut next = (usize::MAX as u128 + 1).to_string();
    assert_eq!(parse_usize(&next), None);
    next.insert(0, '+');
    assert_eq!(parse_usize(&next), None);
}

#[test]
fn parse_usize_agrees_with_the_standard_parser() {
    let samples = [
        "", "0", "1", "+1", "-1", "00", "18446744073709551615", "18446744073709551616", "abc",
        "12a", "a12", "+", "-", "1+", "٣", "１", "9999999999999999999999",
    ];
    for s in samples {
        assert_eq!(parse_usize(s), s.parse::<usize>().ok(), "input {:?}", s);
    }
}

#[test]
fn file_name_is_the_last_component() {
    assert_eq!(path_file_name("/bin/echo"), Some("echo".to_string()));
    assert_eq!(path_file_name("sh"), Some("sh".to_string()));
    assert_eq!(path_file_name("a/b/"), Some("b".to_string()));
    assert_eq!(path_file_name("a/b/."), Some("b".to_string()));
    assert_eq!(path_file_name("a//b//"), Some("b".to_string()));
    assert_eq!(path_file_name("./a"), Some("a".to_string()));
    assert_eq!(path_file_name("..."), Some("...".to_string()));
    assert_eq!(path_file_name(".hidden"), Some(".hidden".to_string()));
}

#[test]
fn file_name_is_missing_for_roots_dots_and_empty_paths() {
    assert_eq!(path_file_name(""), None);
    assert_eq!(path_file_name("/"), None);
    assert_eq!(path_file_name("//"), None);
    assert_eq!(path_file_name("."), None);
    assert_eq!(path_file_name(".."), None);
    assert_eq!(path_file_name("a/.."), None);
    assert_eq!(path_file_name("/."), None);
}

#[test]
fn file_name_agrees_with_the_standard_library() {
    let samples = [
        "", "/", "//", ".", "..", "a", "a/", "a/.", "a/..", "a/b", "/a/b", "a//b", "a/b/./",
        "./a", "../a", "a/./b/.", "...", ".a", "a.", "/.", "/..", "a/.b", "a/b.sock", "é/ü",
        "/usr/bin/zsh", "foo.txt/.//", "./", "a/./", "././.", "a/../b",
    ];
    for s in samples {
        let expected = Path::new(s).file_name().map(|f| f.to_string_lossy().to_string());
        assert_eq!(path_file_name(s), expected, "input {:?}", s);
    }
}

#[test]
fn slashes_become_underscores() {
    assert_eq!(replace_slashes_in("a/b/c"), "a_b_c");
    assert_eq!(replace_slashes_in("/"), "_");
    assert_eq!(replace_slashes_in(""), "");
    assert_eq!(replace_slashes_in("plain"), "plain");
    assert_eq!(replace_slashes_in("a/.."), "a_..");
}

#[test]
fn base_name_falls_back_to_replaced_slashes() {
    assert_eq!(session_base_name("/bin/echo"), "echo");
    assert_eq!(session_base_name("sh"), "sh");
    assert_eq!(session_base_name("a/.."), "a_..");
    assert_eq!(session_base_name("/"), "_");
    assert_eq!(session_base_name(""), "");
    assert_eq!(session_base_name(".."), "..");
}

#[test]
fn base_name_agrees_with_the_standard_library() {
    let samples = ["/bin/echo", "sh", "a/..", "/", "", "..", ".", "a/b/", "x//y/./"];
    for s in samples {
        let expected = Path::new(s)
            .file_name()
            .map(|f| f.to_string_lossy().to_string())
            .unwrap_or(s.replace('/', "_"));
        assert_eq!(session_base_name(s), expected, "input {:?}", s);
    }
}

#[test]
fn numbered_names_append_a_dash_and_the_number() {
    assert_eq!(numbered_name("sh", 0), "sh-0");
    assert_eq!(numbered_name("sh", 12), "sh-12");
    assert_eq!(numbered_name("", 3), "-3");
}

#[test]
fn join_adds_a_separator_where_one_is_missing() {
    assert_eq!(join("/tmp/sesh/", "a.sock"), "/tmp/sesh/a.sock");
    assert_eq!(join("/tmp/sesh", "a.sock"), "/tmp/sesh/a.sock");
    assert_eq!(join("", "a.sock"), "a.sock");
    assert_eq!(join("/", "a.sock"), "/a.sock");
}

#[test]
fn join_agrees_with_the_standard_library_for_relative_files() {
    for dir in ["/tmp/sesh/", "/tmp/sesh", "", "/", "rel", "rel/"] {
        for file in ["a.sock", "client-7.sock"] {
            let expected = Path::new(dir).join(file).to_string_lossy().to_string();
            assert_eq!(join(dir, file), expected, "dir {:?} file {:?}", dir, file);
        }
    }
}

#[test]
fn session_socket_lies_in_the_runtime_directory() {
    assert_eq!(session_socket_path("/run/user/1000/sesh/", "echo"), "/run/user/1000/sesh/echo.sock");
    assert_eq!(session_socket_path("/tmp/sesh", "sh-0"), "/tmp/sesh/sh-0.sock");
}

#[test]
fn client_socket_lies_beside_the_session_socket() {
    assert_eq!(client_socket("/tmp/sesh/echo.sock", 4242), "/tmp/sesh/client-4242.sock");
    assert_eq!(client_socket("echo.sock", 1), "client-1.sock");
    assert_eq!(client_socket("/echo.sock", 1), "/client-1.sock");
    assert_eq!(client_socket("", 9), "client-9.sock");
}

#[test]
fn client_socket_agrees_with_parent_and_join_for_session_sockets() {
    for dir in ["/tmp/sesh/", "/tmp/sesh", "/run/user/1000/sesh/"] {
        for name in ["echo", "sh-0", "a.b"] {
            let socket = session_socket_path(dir, name);
            let expected = Path::new(&socket)
                .parent()
                .unwrap()
                .join(format!("client-{}.sock", 77))
                .to_string_lossy()
                .to_string();
            assert_eq!(client_socket(&socket, 77), expected);
        }
    }
}
