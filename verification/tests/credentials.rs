use mothrbox::credentials::{
    credentials_from_env_file, credentials_from_environment, is_whitespace,
};

fn ok(key: &str, network: &str) -> Result<(String, String), String> {
    Ok((key.to_string(), network.to_string()))
}

fn missing() -> Result<(String, String), String> {
    Err("SUI_SECRET_KEY not found in .env file or environment".to_string())
}

/// The same reading, written with the standard library's `lines` and `trim`.
fn by_the_standard_library(content: &str) -> Result<(String, String), String> {
    let mut key = String::new();
    let mut network = String::from("testnet");
    for line in content.lines() {
        let line = line.trim();
        if let Some(rest) = line.strip_prefix("SUI_SECRET_KEY=") {
            key = rest.to_string();
        } else if let Some(rest) = line.strip_prefix("SUI_NETWORK=") {
            network = rest.to_string();
        }
    }
    if key.is_empty() {
        return missing();
    }
    Ok((key, network))
}

#[test]
fn key_and_network_are_read() {
    assert_eq!(
        credentials_from_env_file("SUI_SECRET_KEY=abc\nSUI_NETWORK=mainnet\n"),
        ok("abc", "mainnet")
    );
    assert_eq!(credentials_from_env_file("SUI_SECRET_KEY=abc"), ok("abc", "testnet"));
    assert_eq!(
        credentials_from_env_file("# comment\n\n  SUI_SECRET_KEY=a b \t\r\nOTHER=1\r\n"),
        ok("a b", "testnet")
    );
}

#[test]
fn the_last_line_counts() {
    assert_eq!(
        credentials_from_env_file("SUI_SECRET_KEY=one\nSUI_SECRET_KEY=two\nSUI_NETWORK=a\nSUI_NETWORK=b"),
        ok("two", "b")
    );
    assert_eq!(credentials_from_env_file("SUI_SECRET_KEY=one\nSUI_SECRET_KEY=\n"), missing());
    assert_eq!(credentials_from_env_file("SUI_SECRET_KEY=one\nSUI_NETWORK=\n"), ok("one", ""));
}

#[test]
fn a_file_without_key_is_refused() {
    assert_eq!(credentials_from_env_file(""), missing());
    assert_eq!(credentials_from_env_file("\n\n"), missing());
    assert_eq!(credentials_from_env_file("SUI_NETWORK=mainnet"), missing());
    assert_eq!(credentials_from_env_file("SUI_SECRET_KEY"), missing());
    assert_eq!(credentials_from_env_file("export SUI_SECRET_KEY=abc"), missing());
    assert_eq!(credentials_from_env_file("SUI_SECRET_KEY =abc"), missing());
}

#[test]
fn reading_agrees_with_the_standard_library() {
    let samples = [
        "",
        "\n",
        "\r\n",
        "SUI_SECRET_KEY=abc",
        "SUI_SECRET_KEY=abc\n",
        "SUI_SECRET_KEY=abc\r",
        "SUI_SECRET_KEY=abc\r\n\r\n",
        "\u{a0}SUI_SECRET_KEY=ab\u{3000}c\u{2003}\nSUI_NETWORK=\u{85}dev\u{1680}",
        "SUI_SECRET_KEY==\nSUI_NETWORK==",
        "SUI_SECRET_KEY=clé\nSUI_NETWORK=réseau\n",
        "SUI_NETWORK=x\nSUI_SECRET_KEY=SUI_NETWORK=y",
        "  \t SUI_SECRET_KEY= spaced out \t \n\x0bSUI_NETWORK=a\x0c\n",
        "SUI_SECRET_KEY=a\nSUI_SECRET_KEY=  \n",
        "SUI_SECRET_KEY=\u{200b}\n",
        "sui_secret_key=abc\nSUI_SECRET_KEY=\u{feff}abc",
        "a\nb\nc\nSUI_SECRET_KEY=1\nd\n\n\nSUI_NETWORK=2\n\n",
    ];
    for sample in samples {
        assert_eq!(credentials_from_env_file(sample), by_the_standard_library(sample), "{sample:?}");
    }
}

#[test]
fn white_space_is_unicode_white_space() {
    for code in 0..0x3100u32 {
        if let Some(c) = char::from_u32(code) {
            assert_eq!(is_whitespace(c), c.is_whitespace(), "U+{code:04X}");
        }
    }
    assert!(!is_whitespace('\u{feff}'));
    assert!(!is_whitespace('\u{10ffff}'));
}

#[test]
fn the_environment_comes_first() {
    assert_eq!(credentials_from_environment(None, Some("mainnet".to_string())), None);
    assert_eq!(credentials_from_environment(None, None), None);
    assert_eq!(
        credentials_from_environment(Some(String::new()), None),
        Some(Err("SUI_SECRET_KEY is set but empty".to_string()))
    );
    assert_eq!(
        credentials_from_environment(Some("key".to_string()), None),
        Some(ok("key", "testnet"))
    );
    assert_eq!(
        credentials_from_environment(Some("key".to_string()), Some("mainnet".to_string())),
        Some(ok("key", "mainnet"))
    );
}
