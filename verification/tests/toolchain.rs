use checkalot::toolchain::Toolchain;

#[test]
fn parse_toolchain() {
    assert_eq!(
        Toolchain::from_str(
            "
[toolchain]
channel = \"1.75.0\"
"
        )
        .unwrap()
        .0,
        "1.75.0"
    );
}

#[test]
fn parse_toolchain_without_channel() {
    assert!(Toolchain::from_str("[toolchain]\n").is_none());
}

#[test]
fn parse_toolchain_malformed() {
    assert!(Toolchain::from_str("not toml [").is_none());
}
