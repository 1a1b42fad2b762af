use tomex::catalog::{
    default_bindings, default_formats, default_genres, default_languages, default_moods,
    default_paces, default_publishers, Genre, Mood, Pace,
};
use tomex::ids::Uuid;
use tomex::records::{Author, AuthorError};
use tomex::text::Text;
use tomex::timestamp::{OptionalTimestamp, Timestamp};

#[test]
fn default_moods_in_order() {
    let moods = default_moods();
    assert_eq!(moods.len(), 14);
    assert_eq!(moods[0].name.0, "Adventurous");
    assert_eq!(moods[0].id, Uuid(0xe7291183_ba90_48a3_b102_b21e732fd2c0));
    assert_eq!(moods[13].name.0, "Tense");
    assert_eq!(moods[13].id.to_string(), "7f584f2d-35f1-4fec-aeba-e62c7212398f");
    assert!(moods.iter().all(|m| !m.deleted));
}

#[test]
fn default_genres_and_paces() {
    let genres = default_genres();
    assert_eq!(genres.len(), 24);
    assert_eq!(genres[1].name.0, "Science Fiction");
    assert_eq!(genres[3].name.0, "Action & Adventure");
    assert_eq!(genres[23].name.0, "Religion & Spirituality");
    assert_eq!(genres[23].id.to_string(), "3f04f6f8-59b9-4afa-beb0-164a45afbbb5");
    let paces = default_paces();
    let names: Vec<&str> = paces.iter().map(|p| p.name.0.as_str()).collect();
    assert_eq!(names, vec!["Slow", "Medium", "Fast"]);
}

#[test]
fn default_other_tables() {
    let publishers = default_publishers();
    assert_eq!(publishers.len(), 9);
    assert_eq!(publishers[0].name.0, "Penguin Random House");
    assert_eq!(publishers[8].name.0, "John Wiley & Sons");
    let bindings = default_bindings();
    assert_eq!(bindings.len(), 10);
    assert_eq!(bindings[9].name.0, "Hand-stitched binding");
    assert_eq!(bindings[9].id.to_string(), "ec5ba23c-4c1b-4950-b2d5-fad8ef85d855");
    let formats = default_formats();
    let names: Vec<&str> = formats.iter().map(|f| f.name.0.as_str()).collect();
    assert_eq!(names, vec!["Paperback", "Hardcover", "Ebook", "Audiobook"]);
    let languages = default_languages();
    assert_eq!(languages.len(), 1);
    assert_eq!(languages[0].name.0, "English");
    assert_eq!(languages[0].id.to_string(), "a95f5f6e-8560-4b02-9443-14f7502d28fe");
}

#[test]
fn default_ids_are_distinct() {
    fn distinct(ids: Vec<u128>) -> bool {
        let mut sorted = ids.clone();
        sorted.sort();
        sorted.dedup();
        sorted.len() == ids.len()
    }
    assert!(distinct(default_genres().iter().map(|x| x.id.0).collect()));
    assert!(distinct(default_moods().iter().map(|x| x.id.0).collect()));
    assert!(distinct(default_paces().iter().map(|x| x.id.0).collect()));
    assert!(distinct(default_publishers().iter().map(|x| x.id.0).collect()));
    assert!(distinct(default_bindings().iter().map(|x| x.id.0).collect()));
    assert!(distinct(default_formats().iter().map(|x| x.id.0).collect()));
}

#[test]
fn vocabulary_names() {
    assert_eq!(Genre::SelfHelp.name(), "Self-help");
    assert_eq!(Mood::Lighthearted.name(), "Lighthearted");
    assert_eq!(Pace::Medium.uuid().to_string(), "250c046e-f840-472d-93a4-18f5c666b4d4");
    assert_eq!(Genre::all().len(), 24);
    let record = Mood::Dark.record();
    assert_eq!(record.name.0, "Dark");
    assert!(!record.deleted);
}

#[test]
fn unknown_author_row() {
    let a = Author::unknown();
    assert_eq!(a.id, Uuid(0));
    assert!(a.name.is_none());
    assert!(a.special);
    assert!(!a.deleted);
}

#[test]
fn author_read_back() {
    let unknown = Author::from_stored(
        Uuid(0),
        Some(Text("Someone".to_string())),
        OptionalTimestamp(None),
        OptionalTimestamp(None),
        true,
    );
    assert!(unknown.special);
    assert!(unknown.name.is_none());
    assert!(!unknown.deleted);
    let born = Timestamp::from_millis(-5_000_000_000_000).unwrap();
    let ordinary = Author::from_stored(
        Uuid(7),
        Some(Text("Bram Stoker".to_string())),
        OptionalTimestamp(Some(born)),
        OptionalTimestamp(None),
        false,
    );
    assert!(!ordinary.special);
    assert_eq!(ordinary.id, Uuid(7));
    assert_eq!(ordinary.name.as_ref().unwrap().0, "Bram Stoker");
    assert_eq!(ordinary.date_born, OptionalTimestamp(Some(born)));
}

#[test]
fn special_authors_are_protected() {
    let unknown = Author::unknown();
    assert!(matches!(unknown.check_updatable(), Err(AuthorError::UpdateSpecial)));
    assert!(matches!(unknown.check_removable(), Err(AuthorError::RemoveSpecial)));
    assert_eq!(AuthorError::UpdateSpecial.message(), "Can't update special author");
    assert_eq!(AuthorError::RemoveSpecial.message(), "Can't remove special author manually");
    assert_eq!(AuthorError::UnknownSpecial.message(), "Unkown special author");
    let ordinary = Author::created(Uuid(3), None);
    assert!(ordinary.check_updatable().is_ok());
    assert!(ordinary.check_removable().is_ok());
}
