use heart_rate::agent::{parse_passkey, trim, Capability, InteractiveAgent, Passkey, Rejected, MAX_PASSKEY};

#[test]
fn agent_can_display_and_take_input() {
    assert_eq!(InteractiveAgent.io_capability(), Capability::KeyboardDisplay);
}

#[test]
fn empty_line_confirms() {
    assert_eq!(InteractiveAgent.confirm(Some("")), Ok(()));
    assert_eq!(InteractiveAgent.confirm(Some("\n")), Ok(()));
    assert_eq!(InteractiveAgent.confirm(Some("\r\n")), Ok(()));
    assert_eq!(InteractiveAgent.confirm(Some("   \t ")), Ok(()));
}

#[test]
fn letter_y_confirms_in_either_case() {
    assert_eq!(InteractiveAgent.confirm(Some("y")), Ok(()));
    assert_eq!(InteractiveAgent.confirm(Some("Y")), Ok(()));
    assert_eq!(InteractiveAgent.confirm(Some("y\n")), Ok(()));
    assert_eq!(InteractiveAgent.confirm(Some("  Y \r\n")), Ok(()));
}

#[test]
fn any_other_text_rejects() {
    for line in ["n", "N", "no", "yes", "yy", "Yes", "y y", "1", "ÿ", "у", "y.", "-", "\u{200B}"] {
        assert_eq!(InteractiveAgent.confirm(Some(line)), Err(Rejected), "{line:?}");
    }
}

#[test]
fn unreadable_input_rejects() {
    assert_eq!(InteractiveAgent.confirm(None), Err(Rejected));
    let shown = Passkey::new(123456).unwrap();
    assert_eq!(InteractiveAgent.confirm_passkey(shown, None), Err(Rejected));
    assert_eq!(InteractiveAgent.request_passkey(None), Err(Rejected));
}

#[test]
fn passkey_confirmation_follows_the_same_rule() {
    let shown = Passkey::new(42).unwrap();
    assert_eq!(InteractiveAgent.confirm_passkey(shown, Some("")), Ok(()));
    assert_eq!(InteractiveAgent.confirm_passkey(shown, Some("y\n")), Ok(()));
    assert_eq!(InteractiveAgent.confirm_passkey(shown, Some("Y\n")), Ok(()));
    assert_eq!(InteractiveAgent.confirm_passkey(shown, Some("n\n")), Err(Rejected));
    assert_eq!(InteractiveAgent.confirm_passkey(shown, Some("000042\n")), Err(Rejected));
}

#[test]
fn typed_passkey_is_taken() {
    let typed = InteractiveAgent.request_passkey(Some("123456\n")).unwrap();
    assert_eq!(typed.value(), 123456);
    let typed = InteractiveAgent.request_passkey(Some("  000042  \r\n")).unwrap();
    assert_eq!(typed.value(), 42);
    let typed = InteractiveAgent.request_passkey(Some("7")).unwrap();
    assert_eq!(typed.value(), 7);
    let typed = InteractiveAgent.request_passkey(Some("+999999\n")).unwrap();
    assert_eq!(typed.value(), 999_999);
    let typed = InteractiveAgent.request_passkey(Some("0000000000000000000000001\n")).unwrap();
    assert_eq!(typed.value(), 1);
}

#[test]
fn text_that_spells_no_passkey_rejects() {
    for line in [
        "", "\n", "+", "-1", "12a456", "12 3456", "1000000", "4294967296", "99999999999999999999",
        "1_000", "0x10", "１２３", "++1", "1+", "12.5",
    ] {
        assert_eq!(InteractiveAgent.request_passkey(Some(line)), Err(Rejected), "{line:?}");
    }
}

#[test]
fn passkey_has_at_most_six_digits() {
    assert_eq!(MAX_PASSKEY, 999_999);
    assert_eq!(Passkey::new(0).map(|p| p.value()), Some(0));
    assert_eq!(Passkey::new(999_999).map(|p| p.value()), Some(999_999));
    assert_eq!(Passkey::new(1_000_000), None);
    assert_eq!(Passkey::new(u32::MAX), None);
}

#[test]
fn passkey_text_has_six_digits() {
    assert_eq!(Passkey::new(0).unwrap().to_text(), "000000");
    assert_eq!(Passkey::new(42).unwrap().to_text(), "000042");
    assert_eq!(Passkey::new(123456).unwrap().to_text(), "123456");
    assert_eq!(Passkey::new(999_999).unwrap().to_text(), "999999");
    assert_eq!(Passkey::new(100_000).unwrap().to_text(), "100000");
    assert_eq!(Passkey::new(90_807).unwrap().to_text(), "090807");
}

#[test]
fn shown_passkey_reads_back() {
    for value in [0u32, 1, 9, 10, 42, 99_999, 100_000, 123_456, 999_999] {
        let shown = Passkey::new(value).unwrap().to_text();
        assert_eq!(parse_passkey(&shown), Passkey::new(value));
        assert_eq!(InteractiveAgent.request_passkey(Some(&shown)), Ok(Passkey::new(value).unwrap()));
    }
}

#[test]
fn parse_passkey_takes_no_white_space() {
    assert_eq!(parse_passkey("123456").map(|p| p.value()), Some(123456));
    assert_eq!(parse_passkey(" 123456"), None);
    assert_eq!(parse_passkey("123456\n"), None);
    assert_eq!(parse_passkey(""), None);
}

#[test]
fn trim_removes_white_space_at_both_ends() {
    assert_eq!(trim(""), "");
    assert_eq!(trim("   "), "");
    assert_eq!(trim("y\n"), "y");
    assert_eq!(trim("\t  a b \r\n"), "a b");
    assert_eq!(trim("\u{2003}é\u{3000}"), "é");
    assert_eq!(trim("\u{85}\u{A0}x\u{1680}\u{2028}\u{2029}\u{202F}\u{205F}"), "x");
    assert_eq!(trim("\u{200B}x"), "\u{200B}x");
    assert_eq!(trim("x\u{1F}"), "x\u{1F}");
}

#[test]
fn trim_agrees_with_the_standard_library() {
    for code in 0u32..0x3100 {
        if let Some(c) = char::from_u32(code) {
            let text = format!("{c}a{c}");
            assert_eq!(trim(&text), text.trim(), "U+{code:04X}");
        }
    }
}

#[test]
fn passkey_entry_agrees_with_number_parsing() {
    for line in ["0", "00", "+0", "+", "-0", "999999", "1000000", "+000999999", " 5", "5 ", "٣"] {
        let expected = line.parse::<u32>().ok().filter(|value| *value <= 999_999);
        assert_eq!(parse_passkey(line).map(|p| p.value()), expected, "{line:?}");
    }
}

#[test]
fn prompts_name_the_peripheral() {
    let agent = InteractiveAgent;
    assert_eq!(agent.confirm_prompt("\"Polar H10\""), "accept pairing with \"Polar H10\"? (Y/n)");
    assert_eq!(
        agent.confirm_passkey_prompt("\"Polar H10\"", Passkey::new(4711).unwrap()),
        "Is the passkey \"004711\" displayed on \"Polar H10\"? (Y/n)"
    );
    assert_eq!(
        agent.request_passkey_prompt("\"Polar H10\""),
        "Please enter the 6-digit passkey for \"Polar H10\": "
    );
    assert_eq!(
        agent.display_passkey("\"Polar H10\"", Passkey::new(123456).unwrap()),
        "The passkey is \"123456\" for \"Polar H10\"."
    );
    assert_eq!(agent.confirm_prompt(""), "accept pairing with ? (Y/n)");
}
