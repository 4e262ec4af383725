use to_uppercase_az::hash_generation::record_for;
use to_uppercase_az::property::property_from_flags;
use to_uppercase_az::not_an_uppercase;
use to_uppercase_az::EndPoint;
use to_uppercase_az::Letter;
use to_uppercase_az::Property;
use to_uppercase_az::UppercaseAZ;

fn sample_table() -> UppercaseAZ {
    let mut records: Vec<EndPoint> = Vec::new();
    for (code_point, description) in [
        (0x41u32, "LATIN CAPITAL LETTER A"),
        (0x61u32, "LATIN SMALL LETTER A"),
        (0x69u32, "LATIN SMALL LETTER I"),
        (0x6Cu32, "LATIN SMALL LETTER L"),
        (0xC0u32, "LATIN CAPITAL LETTER A WITH GRAVE"),
        (0xE0u32, "LATIN SMALL LETTER A WITH GRAVE"),
        (0xC6u32, "LATIN CAPITAL LETTER AE"),
        (0x153u32, "LATIN SMALL LIGATURE OE"),
    ] {
        records.push(record_for(code_point, description).expect("description accepted"));
    }
    UppercaseAZ::from_records(&records)
}

#[test]
fn lookup_round_trips_inserted_records() {
    let table = sample_table();
    let a = table.lookup(0x41);
    assert_eq!(a.letter, Letter::Letter('A'));
    assert_eq!(a.property, Property::Capital);
    let small_a = table.lookup(0x61);
    assert_eq!(small_a.letter, Letter::Letter('A'));
    assert_eq!(small_a.property, Property::Small);
    let a_grave = table.lookup(0xC0);
    assert_eq!(a_grave.letter, Letter::Letter('A'));
    assert_eq!(a_grave.property, Property::CapitalWithDecoration);
    let ae = table.lookup(0xC6);
    assert_eq!(ae.letter, Letter::Letters('A', 'E'));
    assert_eq!(ae.property, Property::Capital);
}

#[test]
fn lookup_absent_returns_sentinel() {
    let table = sample_table();
    let missing = table.lookup(0x32);
    assert_eq!(missing, not_an_uppercase());
    assert_eq!(missing.letter, Letter::Letter('?'));
    assert_eq!(missing.property, Property::NotAnUppercase);
    assert!(!missing.property.is_capital());
    assert!(!missing.property.is_small());
    assert!(!missing.property.is_decoration());
}

#[test]
fn later_record_overwrites_earlier() {
    let records = vec![
        record_for(0x41, "LATIN CAPITAL LETTER A").unwrap(),
        record_for(0x41, "LATIN SMALL LETTER B").unwrap(),
    ];
    let table = UppercaseAZ::from_records(&records);
    let entry = table.lookup(0x41);
    assert_eq!(entry.letter, Letter::Letter('B'));
    assert_eq!(entry.property, Property::Small);
}

#[test]
fn anomalous_letter_lengths_are_skipped() {
    let records = vec![
        EndPoint::new(5, String::from("FIVE"), String::new(), true, false, false),
        EndPoint::new(6, String::from("SIX"), String::from("ABC"), true, false, false),
        record_for(0x41, "LATIN CAPITAL LETTER A").unwrap(),
    ];
    let table = UppercaseAZ::from_records(&records);
    assert_eq!(table.lookup(5), not_an_uppercase());
    assert_eq!(table.lookup(6), not_an_uppercase());
    assert_eq!(table.lookup(0x41).letter, Letter::Letter('A'));
}

#[test]
fn decoration_only_record_maps_to_unknown() {
    let records =
        vec![EndPoint::new(7, String::from("SEVEN"), String::from("X"), false, false, true)];
    let table = UppercaseAZ::from_records(&records);
    let entry = table.lookup(7);
    assert_eq!(entry.property, Property::Unknown);
    assert!(!entry.property.is_capital());
    assert!(!entry.property.is_small());
    assert!(!entry.property.is_decoration());
}

#[test]
fn transform_maps_each_character_independently() {
    let table = sample_table();
    // Mapped characters render as their 1- or 2-letter equivalent; the
    // unmapped space and apostrophe render as the sentinel's letter.
    assert_eq!(table.transform("\u{e0} l'\u{153}il"), "A?L?OEIL");
    assert_eq!(table.transform(""), "");
    assert_eq!(table.transform("Aa"), "AA");
}

#[test]
fn lookup_char_uses_code_point() {
    let table = sample_table();
    assert_eq!(table.lookup_char('A').letter, Letter::Letter('A'));
    assert_eq!(table.lookup_char('\u{153}').letter, Letter::Letters('O', 'E'));
    assert_eq!(table.lookup_char('2'), not_an_uppercase());
}

#[test]
fn property_from_flags_covers_every_triple() {
    assert_eq!(property_from_flags(false, false, false), Property::NotAnUppercase);
    assert_eq!(property_from_flags(true, false, false), Property::Capital);
    assert_eq!(property_from_flags(false, true, false), Property::Small);
    assert_eq!(property_from_flags(true, true, false), Property::SmallAndCapital);
    assert_eq!(property_from_flags(true, false, true), Property::CapitalWithDecoration);
    assert_eq!(property_from_flags(false, true, true), Property::SmallWithDecoration);
    assert_eq!(property_from_flags(true, true, true), Property::SmallAndCapitalWithDecoration);
    assert_eq!(property_from_flags(false, false, true), Property::Unknown);
}

#[test]
fn record_for_rejected_description_is_none() {
    assert!(record_for(0x391, "GREEK CAPITAL LETTER ALPHA").is_none());
    assert!(record_for(0x251, "LATIN SMALL LETTER ALPHA").is_none());
}
