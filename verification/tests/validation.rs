use tomex::isbn::{validate_isbn, Isbn};
use tomex::price::validate_price;
use tomex::validate::{
    trims_to_empty, validate_non_empty, validate_page_count, validate_page_reached,
    validate_rating, Validation,
};

fn invalid(msg: &str) -> Validation {
    Validation::Invalid(msg.to_string())
}

#[test]
fn non_empty_text() {
    assert_eq!(validate_non_empty(""), invalid("Empty string not allowed"));
    assert_eq!(validate_non_empty(" \t\n"), invalid("Empty string not allowed"));
    assert_eq!(validate_non_empty("\u{2003}\u{3000}"), invalid("Empty string not allowed"));
    assert_eq!(validate_non_empty("  Dune "), Validation::Valid);
    assert!(trims_to_empty("\u{85}"));
    assert!(!trims_to_empty("\u{200b}"));
}

#[test]
fn ratings() {
    assert_eq!(validate_rating("0"), Validation::Valid);
    assert_eq!(validate_rating("100"), Validation::Valid);
    assert_eq!(validate_rating("+42"), Validation::Valid);
    assert_eq!(validate_rating("101"), invalid("Rating has to be between 0-100"));
    assert_eq!(validate_rating("abc"), invalid("Input isn't a valid number"));
    assert_eq!(validate_rating("-1"), invalid("Input isn't a valid number"));
    assert_eq!(validate_rating(""), invalid("Input isn't a valid number"));
    assert_eq!(validate_rating("+"), invalid("Input isn't a valid number"));
    assert_eq!(validate_rating(" 5"), invalid("Input isn't a valid number"));
    assert_eq!(validate_rating("4294967295"), invalid("Rating has to be between 0-100"));
    assert_eq!(validate_rating("4294967296"), invalid("Input isn't a valid number"));
    assert_eq!(validate_rating("99999999999x"), invalid("Input isn't a valid number"));
}

#[test]
fn pages_reached() {
    assert_eq!(validate_page_reached("5", Some(5)), Validation::Valid);
    assert_eq!(
        validate_page_reached("6", Some(5)),
        invalid("Input has to be lower than number of pages in edition")
    );
    assert_eq!(validate_page_reached("700", None), Validation::Valid);
    assert_eq!(validate_page_reached("x", Some(5)), invalid("Input isn't a valid number"));
}

#[test]
fn page_count() {
    assert_eq!(validate_page_count("320"), Validation::Valid);
    assert_eq!(validate_page_count("4294967296"), invalid("Input isn't a valid number"));
}

#[test]
fn isbn_validation() {
    assert_eq!(validate_isbn("978-1-4920-6766-5"), Validation::Valid);
    assert_eq!(validate_isbn("89-6626-126-4"), Validation::Valid);
    assert_eq!(validate_isbn("978-1-4920-6766-4"), invalid("Input isn't a valid isbn"));
    assert_eq!(validate_isbn("hello"), invalid("Input isn't a valid isbn"));
}

#[test]
fn isbn_digits_and_hyphens() {
    let isbn = Isbn::parse("978 1 4920 6766 5").unwrap();
    assert_eq!(isbn.digits(), "9781492067665");
    let hyphenated = isbn.hyphenate().unwrap();
    assert_eq!(hyphenated, "978-1-4920-6766-5");
    assert_eq!(Isbn::parse(&hyphenated).unwrap().digits(), "9781492067665");

    let isbn10 = Isbn::parse("8966261264").unwrap();
    assert_eq!(isbn10.hyphenate().unwrap(), "89-6626-126-4");
    assert!(Isbn::parse("123").is_none());
}

#[test]
fn isbn_ten_with_x_check_digit() {
    let isbn = Isbn::parse("0-8044-2957-X").unwrap();
    assert_eq!(isbn.digits(), "080442957X");
}

#[test]
fn prices() {
    assert_eq!(validate_price("$50"), Validation::Valid);
    assert_eq!(validate_price("50 EUR"), Validation::Valid);
    assert_eq!(validate_price("50"), invalid("Not recognised as monetary value"));
    assert_eq!(validate_price("50 ER"), invalid("Not recognised as monetary value"));
}
