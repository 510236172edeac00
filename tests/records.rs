use charsheet::character::{Character, SavedCharacter};
use charsheet::error::MappingError;
use charsheet::item::{Item, ItemRarity};
use charsheet::language::Language;
use charsheet::model::{Model, Relation};
use charsheet::proficiency::{Proficiency, ProficiencyClass};
use charsheet::value::SqlValue;

fn longsword() -> Item {
    Item {
        id: None,
        name: "Longsword".to_string(),
        class: "Weapon".to_string(),
        quantity: 1,
        rarity: Some(ItemRarity::Common),
        value: 15,
        weight: 3,
        properties: "Versatile".to_string(),
        description: "A blade.".to_string(),
    }
}

fn same_item(a: &Item, b: &Item) -> bool {
    a.id == b.id
        && a.name == b.name
        && a.class == b.class
        && a.quantity == b.quantity
        && a.rarity == b.rarity
        && a.value == b.value
        && a.weight == b.weight
        && a.properties == b.properties
        && a.description == b.description
}

#[test]
fn frank_sample_fields() {
    let c = Character::test_character_frank();
    assert_eq!(c.id, None);
    assert_eq!(c.name, "Frank");
    assert_eq!(c.alignment, "Neutral");
    assert_eq!(c.gender, "Male");
    assert_eq!(c.proficiency_bonus, 2);
    assert_eq!(c.passive_perception, 12);
    assert!(!c.inspiration);
    assert_eq!(c.speed, 30);
    assert_eq!(c.height, 6);
    assert_eq!(c.weight, 100);
    assert_eq!(c.age, 30);
    assert_eq!(c.armor_class, 13);
    assert_eq!(c.initiative, 3);
    assert_eq!(c.hit_points, 10);
    assert_eq!(c.temp_hit_points, 0);
    assert_eq!(c.level, 1);
    assert_eq!(c.xp, 0);
    assert!(c.languages.is_empty());
}

#[test]
fn kevin_sample_fields() {
    let c = Character::test_character_kevin();
    assert_eq!(c.name, "Kevin");
    assert_eq!(c.alignment, "Evil");
    assert_eq!(c.gender, "Female");
    assert_eq!(c.hit_points, 10);
}

#[test]
fn empty_records() {
    let c = Character::new();
    assert_eq!(c.id, None);
    assert_eq!(c.name, "");
    assert_eq!(c.xp, 0);
    let s = SavedCharacter::new();
    assert_eq!(s.id, None);
    assert_eq!(s.race, "");
    let i = Item::new();
    assert_eq!(i.rarity, None);
    assert_eq!(i.quantity, 0);
    let l = Language::new();
    assert_eq!(l.id, 0);
    assert_eq!(l.name, "");
    let p = Proficiency::new();
    assert_eq!(p.id, None);
    assert_eq!(p.name, None);
    assert_eq!(p.class, None);
}

#[test]
fn rarity_names_round_trip() {
    let all = [
        ItemRarity::Common,
        ItemRarity::Uncommon,
        ItemRarity::Rare,
        ItemRarity::VeryRare,
        ItemRarity::Legendary,
        ItemRarity::Unknown,
    ];
    for r in all {
        assert_eq!(ItemRarity::parse(&r.name()), Ok(r));
    }
    assert_eq!(ItemRarity::VeryRare.name(), "VeryRare");
}

#[test]
fn rarity_rejects_other_strings() {
    assert_eq!(ItemRarity::parse("Mythic"), Err(MappingError::UnknownEnumValue));
    assert_eq!(ItemRarity::parse("common"), Err(MappingError::UnknownEnumValue));
    assert_eq!(ItemRarity::parse(""), Err(MappingError::UnknownEnumValue));
}

#[test]
fn class_names_round_trip() {
    for c in [ProficiencyClass::Skill, ProficiencyClass::Armor, ProficiencyClass::Weapon, ProficiencyClass::Tool] {
        assert_eq!(ProficiencyClass::parse(&c.name()), Ok(c));
    }
    assert_eq!(ProficiencyClass::Tool.name(), "Tool");
    assert_eq!(ProficiencyClass::parse("Tools"), Err(MappingError::UnknownEnumValue));
}

#[test]
fn item_row_round_trip() {
    let mut item = longsword();
    item.id = Some(4);
    item.weight = i64::MAX as u64;
    let row = item.bound_parameters();
    assert_eq!(row.len(), 9);
    let back = Item::from_row(&row).unwrap();
    assert!(same_item(&item, &back));
}

#[test]
fn item_binds_columns_in_order() {
    let row = longsword().bound_parameters();
    assert!(matches!(row[0], SqlValue::Null));
    assert!(matches!(&row[1], SqlValue::Text(s) if s == "Longsword"));
    assert!(matches!(row[3], SqlValue::Integer(1)));
    assert!(matches!(&row[4], SqlValue::Text(s) if s == "Common"));
    assert!(matches!(row[5], SqlValue::Integer(15)));
    assert!(matches!(&row[8], SqlValue::Text(s) if s == "A blade."));
}

#[test]
fn item_without_rarity_binds_null() {
    let mut item = longsword();
    item.rarity = None;
    let row = item.bound_parameters();
    assert!(matches!(row[4], SqlValue::Null));
    assert_eq!(Item::from_row(&row).unwrap().rarity, None);
}

#[test]
fn item_with_huge_weight_is_not_storable() {
    let mut item = longsword();
    item.weight = u64::MAX;
    assert!(!item.is_storable());
    assert!(longsword().is_storable());
}

#[test]
fn proficiency_row_round_trip() {
    let p = Proficiency { id: Some(9), name: Some("Acrobatics".to_string()), class: Some(ProficiencyClass::Skill) };
    let row = p.bound_parameters();
    assert!(matches!(&row[2], SqlValue::Text(s) if s == "Skill"));
    let back = Proficiency::from_row(&row).unwrap();
    assert_eq!(back.id, Some(9));
    assert_eq!(back.name.as_deref(), Some("Acrobatics"));
    assert_eq!(back.class, Some(ProficiencyClass::Skill));
}

#[test]
fn character_row_round_trip() {
    let mut c = Character::test_character_frank();
    c.inspiration = true;
    c.xp = 355;
    c.hit_points = 300;
    let row = c.bound_parameters();
    assert_eq!(row.len(), 17);
    assert!(matches!(row[5], SqlValue::Integer(1)));
    let back = Character::from_row(&row).unwrap();
    assert_eq!(back.name, "Frank");
    assert!(back.inspiration);
    assert_eq!(back.xp, 355);
    assert_eq!(back.hit_points, 300);
    assert_eq!(back.level, 1);
}

#[test]
fn row_of_wrong_width_is_a_type_mismatch() {
    let row = vec![SqlValue::Null, SqlValue::Text("x".to_string())];
    assert_eq!(Item::from_row(&row).unwrap_err(), MappingError::TypeMismatch);
}

#[test]
fn text_in_integer_column_is_a_type_mismatch() {
    let mut row = longsword().bound_parameters();
    row[3] = SqlValue::Text("one".to_string());
    assert_eq!(Item::from_row(&row).unwrap_err(), MappingError::TypeMismatch);
}

#[test]
fn out_of_range_integer_is_a_type_mismatch() {
    let mut row = longsword().bound_parameters();
    row[3] = SqlValue::Integer(70000);
    assert_eq!(Item::from_row(&row).unwrap_err(), MappingError::TypeMismatch);
    row[3] = SqlValue::Integer(-1);
    assert_eq!(Item::from_row(&row).unwrap_err(), MappingError::TypeMismatch);
}

#[test]
fn unknown_rarity_in_row_is_rejected() {
    let mut row = longsword().bound_parameters();
    row[4] = SqlValue::Text("Mythic".to_string());
    assert_eq!(Item::from_row(&row).unwrap_err(), MappingError::UnknownEnumValue);
}

#[test]
fn first_bad_column_decides_the_error() {
    let mut row = longsword().bound_parameters();
    row[2] = SqlValue::Integer(3);
    row[4] = SqlValue::Text("Mythic".to_string());
    assert_eq!(Item::from_row(&row).unwrap_err(), MappingError::TypeMismatch);
}

#[test]
fn relations_declared_by_character_only() {
    let mut c = Character::test_character_frank();
    c.proficiency_ids = vec![1, 3];
    c.languages.push(Language { id: 7, name: "Elvish".to_string(), description: String::new() });
    assert_eq!(c.related_ids(Relation::Proficiencies), Some(vec![1, 3]));
    assert_eq!(c.related_ids(Relation::Languages), Some(vec![7]));
    assert_eq!(longsword().related_ids(Relation::Proficiencies), None);
    assert!(Character::declares_relation(Relation::Languages));
    assert!(!Item::declares_relation(Relation::Languages));
}

#[test]
fn table_metadata_is_consistent() {
    assert_eq!(Item::table_name(), "items");
    assert_eq!(Item::column_list().split(", ").count(), 9);
    assert_eq!(Item::placeholder_list().split(", ").count(), 9);
    assert_eq!(Character::column_list().split(", ").count(), 17);
    assert_eq!(Character::placeholder_list().split(", ").count(), 17);
    assert_eq!(Proficiency::placeholder_list(), "?1, ?2, ?3");
    assert!(Proficiency::schema().starts_with("id INTEGER"));
}
