use arpad_rust::midi::text::compact_to_7_bytes;

#[test]
fn text_test_exact_7_byte_length() {
    // Rule: Output must always be exactly 7 bytes
    for input in &["hi", "hello", "longphrasethatshouldbeshort", "___"] {
        let res = compact_to_7_bytes(input);
        assert_eq!(res.len(), 7, "Output must be exactly 7 bytes for: {}", input);
    }
}

#[test]
fn text_test_null_padding_for_short_strings() {
    let res = compact_to_7_bytes("hi");
    assert_eq!(&res[..2], b"hi");
    assert_eq!(&res[2..7], [32, 32, 32, 32, 32]);
}

#[test]
fn text_test_first_char_case_preservation() {
    // Rule: First character should match original capitalization
    assert_eq!(compact_to_7_bytes("hello world")[0], b'h');
    assert_eq!(compact_to_7_bytes("Hello world")[0], b'H');
    assert_eq!(compact_to_7_bytes("HELLO world")[0], b'H');
}

#[test]
fn text_test_separators_trigger_camelcase() {
    // Rule: Spaces, underscores, periods, commas, hyphens replace with forcedCamelCase
    let res = compact_to_7_bytes("hello_world.test,word");
    let s = String::from_utf8_lossy(&res);
    assert!(s.starts_with("hl"), "First word should be lowercased (except first char preserved)");
    // CamelCase boundaries should be uppercase
    assert!(
        !s.contains("_") && !s.contains(".") && !s.contains(",") && !s.contains("-"),
        "Separators should be removed and replaced by camelCase boundaries"
    );
}

#[test]
fn text_test_all_caps_word_lowercasing_rule5() {
    // Rule 5: All-caps words next to a space get lowercased (unless first word needs uppercase)
    let res = compact_to_7_bytes("hello XML world");
    let s = String::from_utf8_lossy(&res);
    assert!(!s.contains("XML"), "All-caps word 'XML' should be lowercased to 'xml' -> 'Xml'");
    // Verify camelCase transition happens
    assert!(s.contains("X"), "First letter of non-first words should be uppercase for camelCase");
}

#[test]
fn text_test_double_consonant_compression() {
    // Heuristic: `battle` -> `battl` -> `batl`
    let res = compact_to_7_bytes("battle fi");
    let s = String::from_utf8_lossy(&res);
    println!("Want: battle field -> batlField, got: {}", s);
    assert!(s.contains("batl"), "Double 't' in 'battle' should be compressed to single 't'");
}

#[test]
fn text_test_vowel_removal_priority() {
    // Rule 3 & 4: Remove vowels first (end-first), then truncate consonants if still >7
    let res = compact_to_7_bytes("beautiful reason");
    let s = String::from_utf8_lossy(&res);
    // Should be <= 7 chars (excluding nulls)
    let non_null_len = res.iter().take_while(|b| **b != 0).count();
    assert_eq!(non_null_len, 7, "After vowel removal, string should fit in 7 chars");
    // Vowels should be stripped from the end first
    assert!(!s.ends_with(|c: char| "aeiouAEIOU".contains(c)), "End vowels should be removed first");
}

#[test]
fn text_test_numbers_preserved() {
    // Heuristic: Keep numbers
    let res = compact_to_7_bytes("user123 login");
    let s = String::from_utf8_lossy(&res);
    println!("Want to preserve numbers, got: {}", s);
    assert!(s.contains("123"), "Numbers should be preserved during compression");
}

#[test]
fn text_test_non_ascii_stripping() {
    // Heuristic: Skip non-ASCII
    let res = compact_to_7_bytes("naïve résumé");
    let s = String::from_utf8_lossy(&res);
    assert!(!s.contains("ï") && !s.contains("é"), "Non-ASCII characters should be stripped");
}

#[test]
fn text_test_all_separator_and_empty_inputs() {
    // Rule 11: All-separator input leaves it exactly as-is (padded with zeros)
    let res_sep = compact_to_7_bytes("  _ . ,  ");
    assert_eq!(&res_sep, "  _ . ,".as_bytes());

    let res_empty = compact_to_7_bytes("");
    assert_eq!(&res_empty, &[32; 7]);
}

#[test]
fn text_test_deterministic_output() {
    // Rule 13: Same input always produces same output
    let input = "fetchXML_data_v2";
    let r1 = compact_to_7_bytes(input);
    let r2 = compact_to_7_bytes(input);
    assert_eq!(r1, r2, "Output must be fully deterministic");
}

fn assert_text_bytes(left: &[u8], right: &[u8]) {
    assert_eq!(
        left,
        right,
        "\n  left:  {}\n  right: {}",
        String::from_utf8_lossy(left),
        String::from_utf8_lossy(right)
    );
}

#[test]
fn text_test_exact_byte_array_for_known_case() {
    // Regression test for predictable output
    assert_text_bytes(&compact_to_7_bytes("hello world"), b"heloWrl");
    assert_text_bytes(&compact_to_7_bytes("drum bus 1"), b"drmBus1");
    assert_text_bytes(&compact_to_7_bytes("Lead Vox"), b"LeadVox");
    assert_text_bytes(&compact_to_7_bytes("funky guitar"), b"fnkyGtr");
    assert_text_bytes(&compact_to_7_bytes("rack tom 1"), b"rckTom1");
    assert_text_bytes(&compact_to_7_bytes("Stereo Chug"), b"SterChg");
    assert_text_bytes(&compact_to_7_bytes("Stacked Harmonies 2"), b"StcHrm2");
    assert_text_bytes(&compact_to_7_bytes("Hall reverb throw"), b"HalRvTh");
    assert_text_bytes(&compact_to_7_bytes("Hall reverb throw 2"), b"HlRvTh2");
    assert_text_bytes(&compact_to_7_bytes("Dotted eighth L"), b"Dtd8thL");
}

#[test]
fn separator_only_text_drops_non_ascii_bytes() {
    // Only a separator survives cleaning, so the text is shown as it stands, less the
    // accented letter.
    assert_eq!(arpad_rust::midi::text::compact_to_7_bytes("é,"), vec![b',', 32, 32, 32, 32, 32, 32]);
    assert_eq!(arpad_rust::midi::text::compact_to_7_bytes("___"), b"___    ".to_vec());
    let r = arpad_rust::midi::text::compact_to_7_bytes("ü-ö_ä");
    assert_eq!(r, b"-_     ".to_vec());
    assert!(r.iter().all(|b| b.is_ascii()));
}

#[test]
fn compactions_for_both_surfaces_differ_only_in_padding() {
    for s in ["hi", "Kick Drum", "longphrasethatshouldbeshort", "Bass 2", "naïve résumé"] {
        let x = arpad_rust::midi::xtouch::compact_to_7_bytes(s);
        let v = arpad_rust::midi::text::compact_to_7_bytes(s);
        for j in 0..7 {
            assert_eq!(v[j], if x[j] == 0 { 32 } else { x[j] }, "{}", s);
        }
        let k = x.iter().position(|b| *b == 0).unwrap_or(7);
        assert!(x[..k].iter().all(|b| b.is_ascii_alphanumeric()), "{}", s);
        assert!(x[k..].iter().all(|b| *b == 0), "{}", s);
    }
}
