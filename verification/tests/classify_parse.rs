use to_uppercase_az::classifier::classify;
use to_uppercase_az::parser::parse;

#[test]
fn classify_rejects_without_latin() {
    assert!(!classify("GREEK CAPITAL LETTER OMEGA"));
    assert!(!classify("CYRILLIC SMALL LETTER A"));
    assert!(!classify(""));
}

#[test]
fn classify_rejects_without_letter_or_ligature() {
    assert!(!classify("LATIN SIGN X"));
    assert!(!classify("LATIN"));
}

#[test]
fn classify_rejects_forbidden_word_bounded() {
    assert!(!classify("LATIN LETTER ALPHA"));
    assert!(!classify("LATIN CAPITAL LETTER SCHWA"));
    assert!(!classify("LATIN SMALL LETTER THORN"));
    assert!(!classify("LATIN LETTER BILABIAL CLICK"));
    assert!(!classify("LATIN CAPITAL LETTER TONE SIX"));
}

#[test]
fn classify_accepts_embedded_fragment() {
    // AIN stands inside PAINTED with letters on both sides, so the
    // word-bounded forbidden test does not fire.
    assert!(classify("LATIN LETTER PAINTED"));
}

#[test]
fn classify_accepts_plain_letters() {
    assert!(classify("LATIN CAPITAL LETTER A"));
    assert!(classify("LATIN SMALL LETTER Z"));
    assert!(classify("LATIN SMALL LIGATURE OE"));
}

#[test]
fn parse_capital_a() {
    let parsed = parse("LATIN CAPITAL LETTER A");
    assert_eq!(parsed.letter_text(), "A");
    assert!(parsed.is_capital);
    assert!(!parsed.is_small);
    assert!(!parsed.is_decoration);
    assert!(parsed.fired.is_empty());
}

#[test]
fn parse_small_a_with_acute() {
    let parsed = parse("LATIN SMALL LETTER A WITH ACUTE");
    assert_eq!(parsed.letter_text(), "A");
    assert!(!parsed.is_capital);
    assert!(parsed.is_small);
    assert!(parsed.is_decoration);
    assert!(parsed.fired.iter().any(|k| k.as_str() == "ACUTE"));
}

#[test]
fn parse_capital_ae_digraph() {
    let parsed = parse("LATIN CAPITAL LETTER AE");
    assert_eq!(parsed.letter_text(), "AE");
    assert!(parsed.is_capital);
    assert!(!parsed.is_small);
}

#[test]
fn parse_small_ligature_oe() {
    let parsed = parse("LATIN SMALL LIGATURE OE");
    assert_eq!(parsed.letter_text(), "OE");
    assert!(!parsed.is_capital);
    assert!(parsed.is_small);
    assert!(!parsed.is_decoration);
}

#[test]
fn parse_small_and_capital() {
    // A description naming both CAPITAL and SMALL sets both properties.
    let parsed = parse("LATIN CAPITAL LETTER D WITH SMALL LETTER Z");
    assert!(parsed.is_capital);
    assert!(parsed.is_small);
}

#[test]
fn parse_multiword_decoration_before_generic_tail() {
    // DOT ABOVE is matched as the full phrase before the bare DOT and
    // ABOVE of the generic tail can fire.
    let parsed = parse("LATIN CAPITAL LETTER C WITH DOT ABOVE");
    assert_eq!(parsed.letter_text(), "C");
    assert!(parsed.is_decoration);
    assert!(parsed.fired.iter().any(|k| k.as_str() == "DOT ABOVE"));
    assert!(!parsed.fired.iter().any(|k| k.as_str() == "DOT"));
    assert!(!parsed.fired.iter().any(|k| k.as_str() == "ABOVE"));
}

#[test]
fn parse_rerun_on_residual_is_stable() {
    let parsed = parse("LATIN SMALL LETTER A WITH ACUTE");
    let residual = parsed.letter_text();
    let again = parse(&residual);
    assert_eq!(again.letter_text(), residual);
    assert!(!again.is_capital);
    assert!(!again.is_small);
    assert!(!again.is_decoration);
    assert!(again.fired.is_empty());
}

#[test]
fn parse_anomalous_residual_lengths() {
    // An empty residual and an overlong residual are produced as computed,
    // for the caller to diagnose.
    let empty = parse("LATIN CAPITAL LETTER");
    assert_eq!(empty.letter_text(), "");
    let long = parse("LATIN CAPITAL LETTER LLL");
    assert_eq!(long.letter_text(), "LLL");
}
