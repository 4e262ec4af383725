use to_uppercase_az::Letter;
use to_uppercase_az::Property;
use to_uppercase_az::Uppercase;

#[test]
fn test_display_1_letter() {
    let letter = Letter::Letter('A');
    assert_eq!(letter.to_text(), "A");
}

#[test]
fn test_display_2_letters() {
    let letter = Letter::Letters('A', 'B');
    assert_eq!(letter.to_text(), "AB");
}

#[test]
fn test_is_capital() {
    assert!(Property::Capital.is_capital());
    assert!(!Property::Small.is_capital());
    assert!(!Property::NotAnUppercase.is_capital());
}

#[test]
fn test_is_small() {
    assert!(Property::Small.is_small());
    assert!(!Property::Capital.is_small());
    assert!(!Property::NotAnUppercase.is_small());
}

#[test]
fn test_is_decoration() {
    assert!(Property::CapitalWithDecoration.is_decoration());
    assert!(Property::SmallWithDecoration.is_decoration());
    assert!(!Property::Capital.is_decoration());
    assert!(!Property::Small.is_decoration());
    assert!(!Property::NotAnUppercase.is_decoration());
}

#[test]
fn test_uppercase_display_1() {
    let uppercase = Uppercase { letter: Letter::Letter('A'), property: Property::Capital };
    assert_eq!(uppercase.to_text(), "A");
}

#[test]
fn test_uppercase_display_2() {
    let uppercase = Uppercase { letter: Letter::Letters('A', 'B'), property: Property::Capital };
    assert_eq!(uppercase.to_text(), "AB");
}
