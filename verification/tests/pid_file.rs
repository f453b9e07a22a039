use haridokei::pid_file::{is_blank_str, is_white_space_char, pid_file_path};

#[test]
fn falls_back_to_tmp_without_runtime_dir() {
    assert_eq!(pid_file_path(None), "/tmp/haridokei.pid");
}

#[test]
fn falls_back_to_tmp_for_blank_runtime_dir() {
    assert_eq!(pid_file_path(Some("")), "/tmp/haridokei.pid");
    assert_eq!(pid_file_path(Some("  \t\n")), "/tmp/haridokei.pid");
    assert_eq!(pid_file_path(Some("\u{3000}\u{a0}")), "/tmp/haridokei.pid");
}

#[test]
fn uses_runtime_dir() {
    assert_eq!(pid_file_path(Some("/run/user/1000")), "/run/user/1000/haridokei.pid");
}

#[test]
fn no_doubled_separator() {
    assert_eq!(pid_file_path(Some("/run/user/1000/")), "/run/user/1000/haridokei.pid");
    assert_eq!(pid_file_path(Some("/")), "/haridokei.pid");
}

#[test]
fn runtime_dir_is_used_untrimmed() {
    assert_eq!(pid_file_path(Some(" /x ")), " /x /haridokei.pid");
}

#[test]
fn matches_path_buf_push() {
    for dir in ["/run/user/1000", "/run/user/1000/", "relative", "/a b/c", "/日本/"] {
        let mut expected = std::path::PathBuf::from(dir);
        expected.push("haridokei.pid");
        assert_eq!(pid_file_path(Some(dir)), expected.to_str().unwrap());
    }
}

#[test]
fn white_space_agrees_with_std() {
    for c in (0u32..=0x10ffff).filter_map(char::from_u32) {
        assert_eq!(is_white_space_char(c), c.is_whitespace(), "{:?}", c);
    }
}

#[test]
fn blank_agrees_with_trim() {
    for s in ["", " ", "\t\r\n", "a", " a ", "\u{2028}", "\u{200b}", "\u{85}x"] {
        assert_eq!(is_blank_str(s), s.trim().is_empty(), "{:?}", s);
    }
}
