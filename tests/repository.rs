use charsheet::character::Character;
use charsheet::error::{Error, MappingError, StoreError};
use charsheet::item::{Item, ItemRarity};
use charsheet::junction::{resolve_relation, sync_relation};
use charsheet::model::{Model, Relation};
use charsheet::proficiency::{Proficiency, ProficiencyClass};
use charsheet::repository::{create_table, delete, fetch_all, fetch_by_id, save};
use charsheet::store::{Link, Store};
use charsheet::value::SqlValue;

fn longsword() -> Item {
    Item {
        id: None,
        name: "Longsword".to_string(),
        class: "Weapon".to_string(),
        quantity: 1,
        rarity: Some(ItemRarity::Common),
        value: 15,
        weight: 3,
        properties: "Versatile".to_string(),
        description: "A blade.".to_string(),
    }
}

fn sorted(mut v: Vec<i64>) -> Vec<i64> {
    v.sort();
    v
}

#[test]
fn saved_item_fetches_back_with_its_identifier() {
    let mut store = Store::new();
    create_table::<Item>(&mut store);
    let item = longsword();
    let id = save(&item, &mut store).unwrap();
    let back = fetch_by_id::<Item>(id, &store).unwrap().unwrap();
    assert_eq!(back.id, Some(id));
    assert_eq!(back.name, "Longsword");
    assert_eq!(back.class, "Weapon");
    assert_eq!(back.quantity, 1);
    assert_eq!(back.rarity, Some(ItemRarity::Common));
    assert_eq!(back.value, 15);
    assert_eq!(back.weight, 3);
    assert_eq!(back.properties, "Versatile");
    assert_eq!(back.description, "A blade.");
}

#[test]
fn deleted_character_has_no_proficiencies() {
    let mut store = Store::new();
    create_table::<Character>(&mut store);
    let c = Character::test_character_frank();
    assert!(c.proficiency_ids.is_empty());
    let id = save(&c, &mut store).unwrap();
    sync_relation(Some(id), Relation::Proficiencies, &vec![1, 3], &mut store).unwrap();
    assert_eq!(resolve_relation(id, Relation::Proficiencies, &store), vec![1, 3]);
    delete::<Character>(id, &mut store).unwrap();
    assert!(resolve_relation(id, Relation::Proficiencies, &store).is_empty());
    assert!(fetch_by_id::<Character>(id, &store).unwrap().is_none());
}

#[test]
fn malformed_rarity_fails_fetch_all() {
    let mut store = Store::new();
    create_table::<Item>(&mut store);
    save(&longsword(), &mut store).unwrap();
    let mut row = longsword().bound_parameters();
    row[4] = SqlValue::Text("Mythic".to_string());
    let t = store.find_table(&Item::table_name()).unwrap();
    store.write_row(t, row).unwrap();
    save(&longsword(), &mut store).unwrap();
    let r = fetch_all::<Item>(&store);
    assert!(matches!(r, Err(Error::Mapping(MappingError::UnknownEnumValue))));
}

#[test]
fn sync_twice_changes_nothing_the_second_time() {
    let mut store = Store::new();
    sync_relation(Some(1), Relation::Languages, &vec![4], &mut store).unwrap();
    sync_relation(Some(2), Relation::Proficiencies, &vec![5, 6, 6], &mut store).unwrap();
    let after_first: Vec<Link> = store.links.clone();
    sync_relation(Some(2), Relation::Proficiencies, &vec![6, 5], &mut store).unwrap();
    assert_eq!(store.links, after_first);
    assert_eq!(resolve_relation(2, Relation::Proficiencies, &store), vec![5, 6]);
}

#[test]
fn sync_makes_links_match_whatever_was_there() {
    let mut store = Store::new();
    sync_relation(Some(10), Relation::Proficiencies, &vec![1, 2, 9], &mut store).unwrap();
    sync_relation(Some(10), Relation::Languages, &vec![2], &mut store).unwrap();
    sync_relation(Some(11), Relation::Proficiencies, &vec![5], &mut store).unwrap();
    sync_relation(Some(10), Relation::Proficiencies, &vec![2, 5, 7], &mut store).unwrap();
    assert_eq!(sorted(resolve_relation(10, Relation::Proficiencies, &store)), vec![2, 5, 7]);
    assert_eq!(resolve_relation(10, Relation::Languages, &store), vec![2]);
    assert_eq!(resolve_relation(11, Relation::Proficiencies, &store), vec![5]);
}

#[test]
fn resolve_keeps_association_order() {
    let mut store = Store::new();
    sync_relation(Some(3), Relation::Languages, &vec![9, 2, 5], &mut store).unwrap();
    assert_eq!(resolve_relation(3, Relation::Languages, &store), vec![9, 2, 5]);
    sync_relation(Some(3), Relation::Languages, &vec![5, 1, 9], &mut store).unwrap();
    assert_eq!(resolve_relation(3, Relation::Languages, &store), vec![9, 5, 1]);
}

#[test]
fn sync_without_owner_is_refused() {
    let mut store = Store::new();
    sync_relation(Some(1), Relation::Proficiencies, &vec![2], &mut store).unwrap();
    let before = store.links.clone();
    let r = sync_relation(None, Relation::Proficiencies, &vec![3, 4], &mut store);
    assert_eq!(r, Err(MappingError::UnpersistedOwner));
    assert_eq!(store.links, before);
}

#[test]
fn save_writes_declared_relations() {
    let mut store = Store::new();
    create_table::<Character>(&mut store);
    let mut c = Character::test_character_kevin();
    c.proficiency_ids = vec![4, 8];
    let id = save(&c, &mut store).unwrap();
    assert_eq!(resolve_relation(id, Relation::Proficiencies, &store), vec![4, 8]);
    c.id = Some(id);
    c.proficiency_ids = vec![8];
    assert_eq!(save(&c, &mut store), Ok(id));
    assert_eq!(resolve_relation(id, Relation::Proficiencies, &store), vec![8]);
    assert_eq!(fetch_all::<Character>(&store).unwrap().len(), 1);
}

#[test]
fn identifiers_count_up_from_one() {
    let mut store = Store::new();
    create_table::<Proficiency>(&mut store);
    let p = Proficiency { id: None, name: Some("History".to_string()), class: Some(ProficiencyClass::Skill) };
    assert_eq!(save(&p, &mut store), Ok(1));
    assert_eq!(save(&p, &mut store), Ok(2));
    let q = Proficiency { id: Some(10), name: None, class: None };
    assert_eq!(save(&q, &mut store), Ok(10));
    assert_eq!(save(&p, &mut store), Ok(11));
}

#[test]
fn fetch_all_is_in_identifier_order() {
    let mut store = Store::new();
    create_table::<Proficiency>(&mut store);
    for id in [7, 2, 5] {
        let p = Proficiency { id: Some(id), name: None, class: Some(ProficiencyClass::Tool) };
        save(&p, &mut store).unwrap();
    }
    let ids: Vec<Option<i64>> = fetch_all::<Proficiency>(&store).unwrap().iter().map(|p| p.id).collect();
    assert_eq!(ids, vec![Some(2), Some(5), Some(7)]);
}

#[test]
fn fetch_of_missing_row_is_none() {
    let mut store = Store::new();
    create_table::<Item>(&mut store);
    assert!(fetch_by_id::<Item>(42, &store).unwrap().is_none());
    assert!(fetch_all::<Item>(&store).unwrap().is_empty());
}

#[test]
fn missing_table_is_a_store_error() {
    let mut store = Store::new();
    assert_eq!(save(&longsword(), &mut store), Err(Error::Store(StoreError::NoSuchTable)));
    assert!(matches!(fetch_by_id::<Item>(1, &store), Err(Error::Store(StoreError::NoSuchTable))));
    assert!(matches!(fetch_all::<Item>(&store), Err(Error::Store(StoreError::NoSuchTable))));
    assert_eq!(delete::<Item>(1, &mut store), Err(Error::Store(StoreError::NoSuchTable)));
}

#[test]
fn create_table_twice_keeps_rows() {
    let mut store = Store::new();
    create_table::<Item>(&mut store);
    save(&longsword(), &mut store).unwrap();
    create_table::<Item>(&mut store);
    assert_eq!(fetch_all::<Item>(&store).unwrap().len(), 1);
}

#[test]
fn unstorable_record_is_refused() {
    let mut store = Store::new();
    create_table::<Item>(&mut store);
    let mut item = longsword();
    item.weight = u64::MAX;
    assert_eq!(save(&item, &mut store), Err(Error::Mapping(MappingError::OutOfRange)));
    assert!(fetch_all::<Item>(&store).unwrap().is_empty());
}

#[test]
fn exhausted_keys_are_reported() {
    let mut store = Store::new();
    create_table::<Item>(&mut store);
    let mut item = longsword();
    item.id = Some(i64::MAX);
    assert_eq!(save(&item, &mut store), Ok(i64::MAX));
    assert_eq!(save(&longsword(), &mut store), Err(Error::Store(StoreError::KeysExhausted)));
}

#[test]
fn text_key_is_refused() {
    let mut store = Store::new();
    let name = "raw".to_string();
    store.create_table(&name);
    let t = store.find_table(&name).unwrap();
    let r = store.write_row(t, vec![SqlValue::Text("k".to_string())]);
    assert_eq!(r, Err(StoreError::BadKey));
}

#[test]
fn delete_of_missing_row_is_no_error() {
    let mut store = Store::new();
    create_table::<Character>(&mut store);
    sync_relation(Some(5), Relation::Languages, &vec![1], &mut store).unwrap();
    sync_relation(Some(6), Relation::Languages, &vec![1], &mut store).unwrap();
    assert_eq!(delete::<Character>(5, &mut store), Ok(()));
    assert!(resolve_relation(5, Relation::Languages, &store).is_empty());
    assert_eq!(resolve_relation(6, Relation::Languages, &store), vec![1]);
}
