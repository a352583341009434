use doodleswap::dto::responses::characters::{Character, Characters};
use doodleswap::models::characters::Character as StoredCharacter;

fn stored(id: i32, first_name: &str) -> StoredCharacter {
    StoredCharacter {
        id,
        user_id: 99,
        first_name: first_name.to_string(),
        last_name: Some("Doe".to_string()),
        pronouns: Some("they/them".to_string()),
        quote: None,
        image_path: "/up/users/99/x.png".to_string(),
        image_mime_type: "image/png".to_string(),
    }
}

#[test]
fn character_keeps_the_public_fields() {
    let c = Character::from(stored(4, "Ada"));
    assert_eq!(c.id, 4);
    assert_eq!(c.first_name, "Ada");
    assert_eq!(c.last_name.as_deref(), Some("Doe"));
    assert_eq!(c.pronouns.as_deref(), Some("they/them"));
    assert_eq!(c.quote, None);
}

#[test]
fn characters_keep_their_order() {
    let list = Characters::from(vec![stored(1, "A"), stored(2, "B"), stored(3, "C")]);
    let ids: Vec<i32> = list.0.iter().map(|c| c.id).collect();
    assert_eq!(ids, vec![1, 2, 3]);
    let names: Vec<&str> = list.0.iter().map(|c| c.first_name.as_str()).collect();
    assert_eq!(names, vec!["A", "B", "C"]);
    assert!(Characters::from(Vec::new()).0.is_empty());
}
