use tomex::ids::Uuid;
use tomex::option_to_create::OptionToCreate;
use tomex::text::{text_eq, Text};

#[test]
fn uuid_round_trip() {
    let id = Uuid(0xe7291183_ba90_48a3_b102_b21e732fd2c0);
    let text = id.to_string();
    assert_eq!(text, "e7291183-ba90-48a3-b102-b21e732fd2c0");
    assert_eq!(Uuid::parse(&text), Some(id));
}

#[test]
fn uuid_nil_is_all_zero() {
    assert_eq!(Uuid::nil(), Uuid(0));
    assert_eq!(Uuid::nil().to_string(), "00000000-0000-0000-0000-000000000000");
}

#[test]
fn uuid_parse_other_forms() {
    let id = Uuid(0xe7291183_ba90_48a3_b102_b21e732fd2c0);
    assert_eq!(Uuid::parse("E7291183-BA90-48A3-B102-B21E732FD2C0"), Some(id));
    assert_eq!(Uuid::parse("e7291183ba9048a3b102b21e732fd2c0"), Some(id));
    assert_eq!(Uuid::parse("not a uuid"), None);
    assert_eq!(Uuid::parse(""), None);
}

#[test]
fn create_option_first() {
    let options = OptionToCreate::create_option_to_create(vec![1u32, 2, 3]);
    assert_eq!(options.len(), 4);
    assert!(matches!(options[0], OptionToCreate::Create));
    assert!(matches!(options[1], OptionToCreate::Value(1)));
    assert!(matches!(options[2], OptionToCreate::Value(2)));
    assert!(matches!(options[3], OptionToCreate::Value(3)));
}

#[test]
fn create_option_of_nothing() {
    let options = OptionToCreate::<u32>::create_option_to_create(vec![]);
    assert_eq!(options.len(), 1);
    assert!(matches!(options[0], OptionToCreate::Create));
    assert_eq!(OptionToCreate::<u32>::create_text(), "Create new");
}

#[test]
fn text_equality() {
    assert!(text_eq(&Text("Dracula".to_string()), &Text("Dracula".to_string())));
    assert!(!text_eq(&Text("Dracula".to_string()), &Text("dracula".to_string())));
}
