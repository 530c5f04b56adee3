use rustfmt_shim::toolchain::{
    choose_toolchain, needs_active_query, toolchain_from_active, toolchain_from_config,
    ActiveToolchainQuery,
};

const CONFIG: &str = "repos:\n  - repo: local\n    hooks:\n      - id: rustfmt\n        entry: rustup run --install 1.70.0 rustfmt --edition 2021\n";

fn query(success: bool, stdout: &[u8]) -> ActiveToolchainQuery {
    ActiveToolchainQuery { success, stdout: stdout.to_vec() }
}

#[test]
fn pinned_version_is_chosen() {
    assert_eq!(toolchain_from_config(CONFIG).as_deref(), Some("1.70.0"));
    let active = query(true, b"nightly-x86_64-unknown-linux-gnu (default)\n");
    assert_eq!(choose_toolchain(Some(CONFIG), Some(&active)), "1.70.0");
    assert!(!needs_active_query(Some(CONFIG)));
}

#[test]
fn invocation_without_install_flag() {
    let config = "entry: rustup run nightly-2023-01-01 rustfmt\n";
    assert_eq!(toolchain_from_config(config).as_deref(), Some("nightly-2023-01-01"));
}

#[test]
fn pinned_stable_is_chosen() {
    let config = "entry: rustup run --install stable rustfmt\n";
    assert_eq!(choose_toolchain(Some(config), None), "stable");
}

#[test]
fn first_invocation_wins() {
    let config = "a: rustup run 1.60.0 rustfmt\nb: rustup run --install 1.70.0 rustfmt\n";
    assert_eq!(toolchain_from_config(config).as_deref(), Some("1.60.0"));
}

#[test]
fn install_flag_without_toolchain_is_taken_as_the_name() {
    assert_eq!(toolchain_from_config("rustup run --install").as_deref(), Some("--install"));
    assert_eq!(toolchain_from_config("rustup run --install  x").as_deref(), Some("--install"));
}

#[test]
fn toolchain_at_end_of_text() {
    assert_eq!(toolchain_from_config("rustup run --install beta").as_deref(), Some("beta"));
}

#[test]
fn config_without_invocation_pins_nothing() {
    assert_eq!(toolchain_from_config("repos: []\n"), None);
    assert_eq!(toolchain_from_config("rustup run"), None);
    assert_eq!(toolchain_from_config("rustup run  1.70.0"), None);
    assert_eq!(toolchain_from_config(""), None);
    assert!(needs_active_query(Some("repos: []\n")));
    assert!(needs_active_query(None));
}

#[test]
fn active_toolchain_is_the_first_word() {
    let q = query(true, b"1.72.1-x86_64-unknown-linux-gnu (overridden)\n");
    assert_eq!(toolchain_from_active(&q).as_deref(), Some("1.72.1-x86_64-unknown-linux-gnu"));
    assert_eq!(choose_toolchain(Some("repos: []\n"), Some(&q)), "1.72.1-x86_64-unknown-linux-gnu");
    assert_eq!(choose_toolchain(None, Some(&q)), "1.72.1-x86_64-unknown-linux-gnu");
}

#[test]
fn failed_active_query_gives_nothing() {
    assert_eq!(toolchain_from_active(&query(false, b"stable\n")), None);
    assert_eq!(toolchain_from_active(&query(true, b"\xff\xfe")), None);
    assert_eq!(toolchain_from_active(&query(true, b" \t\n ")), None);
    assert_eq!(toolchain_from_active(&query(true, b"")), None);
}

#[test]
fn fallback_is_stable() {
    assert_eq!(choose_toolchain(None, None), "stable");
    assert_eq!(choose_toolchain(Some("no pin here"), None), "stable");
    let failed = query(false, b"");
    assert_eq!(choose_toolchain(Some("no pin here"), Some(&failed)), "stable");
    let garbled = query(true, b"\xc3\x28");
    assert_eq!(choose_toolchain(None, Some(&garbled)), "stable");
}

#[test]
fn leading_whitespace_is_skipped() {
    assert_eq!(toolchain_from_active(&query(true, b" x")).as_deref(), Some("x"));
    assert_eq!(toolchain_from_active(&query(true, b"\n\t stable rest")).as_deref(), Some("stable"));
    let q = query(true, b" nightly");
    assert_eq!(choose_toolchain(None, Some(&q)), "nightly");
}

#[test]
fn unicode_output_is_decoded() {
    let q = query(true, "tøølchain\u{3000}rest".as_bytes());
    assert_eq!(toolchain_from_active(&q).as_deref(), Some("tøølchain"));
}
