use game_master::{Class, EntityTable, LivingBeing, Position};

#[test]
fn position_new_keeps_its_arguments() {
    let position = Position::new(3, 4);
    assert_eq!(position.x, 3);
    assert_eq!(position.y, 4);
    assert_eq!(position, Position { x: 3, y: 4 });
}

#[test]
fn update_health_subtracts_damage() {
    let mut being = LivingBeing::spawn(1, "Murloc du chaos".to_string(), Class::Golem);
    being.update_health(-30);
    assert_eq!(being.health, 70);
    being.update_health(-20);
    assert_eq!(being.health, 50);
    being.update_health(-20);
    assert_eq!(being.health, 30);
}

#[test]
fn update_health_clamps_at_zero() {
    let mut being = LivingBeing::spawn(1, "Murloc du chaos".to_string(), Class::Golem);
    being.update_health(-100);
    assert_eq!(being.health, 0);
    let mut other = LivingBeing::spawn(2, "GGYE".to_string(), Class::Mage);
    other.update_health(-101);
    assert_eq!(other.health, 0);
    other.update_health(i32::MIN);
    assert_eq!(other.health, 0);
}

#[test]
fn update_health_heals() {
    let mut being = LivingBeing::spawn(1, "Murloc du chaos".to_string(), Class::Golem);
    being.update_health(-60);
    being.update_health(25);
    assert_eq!(being.health, 65);
    being.health = u32::MAX - 5;
    being.update_health(5);
    assert_eq!(being.health, u32::MAX);
}

#[test]
fn update_health_keeps_the_rest() {
    let mut being = LivingBeing::spawn(7, "GGYE".to_string(), Class::Mage);
    being.update_health(-30);
    assert_eq!(being.id, 7);
    assert_eq!(being.name, "GGYE");
    assert_eq!(being.position, Position::new(50, 50));
    assert_eq!(being.class, Class::Mage);
}

#[test]
fn move_it_adds_the_step() {
    let mut being = LivingBeing::spawn(1, "Murloc du chaos".to_string(), Class::Golem);
    being.move_it(10, 10);
    assert_eq!(being.position, Position::new(60, 60));
    being.move_it(-60, 5);
    assert_eq!(being.position, Position::new(0, 65));
    assert_eq!(being.health, 100);
    assert_eq!(being.id, 1);
}

#[test]
fn can_move_knows_the_edges() {
    let mut being = LivingBeing::spawn(1, "Murloc du chaos".to_string(), Class::Golem);
    assert!(being.can_move(-50, -50));
    assert!(!being.can_move(-51, 0));
    assert!(!being.can_move(0, -51));
    being.position = Position::new(u32::MAX - 10, u32::MAX);
    assert!(being.can_move(10, 0));
    assert!(!being.can_move(11, 0));
    assert!(!being.can_move(0, 1));
    assert!(being.can_move(i32::MIN, i32::MIN));
}

#[test]
fn clone_copies_every_field() {
    let mut being = LivingBeing::spawn(5, "GGYE".to_string(), Class::Mage);
    being.update_health(-1);
    being.move_it(1, 2);
    let copy = being.clone();
    assert_eq!(copy.id, 5);
    assert_eq!(copy.name, "GGYE");
    assert_eq!(copy.health, 99);
    assert_eq!(copy.position, Position::new(51, 52));
    assert_eq!(copy.class, Class::Mage);
}

#[test]
fn table_refuses_a_second_being_with_the_same_id() {
    let mut table = EntityTable::new();
    assert!(table.is_empty());
    assert!(table.insert(LivingBeing::spawn(4, "first".to_string(), Class::Mage)));
    assert!(!table.insert(LivingBeing::spawn(4, "second".to_string(), Class::Golem)));
    assert!(table.insert(LivingBeing::spawn(3, "third".to_string(), Class::Golem)));
    assert_eq!(table.len(), 2);
    assert_eq!(table.get(0).unwrap().name, "first");
    assert_eq!(table.get(1).unwrap().name, "third");
    assert_eq!(table.find(3), Some(1));
    assert_eq!(table.find(4), Some(0));
    assert_eq!(table.find(5), None);
    assert!(table.contains(4));
    assert!(!table.contains(1));
}

#[test]
fn table_changes_the_health_of_one_being() {
    let mut table = EntityTable::new();
    table.insert(LivingBeing::spawn(1, "a".to_string(), Class::Golem));
    table.insert(LivingBeing::spawn(2, "b".to_string(), Class::Mage));
    table.update_health(1, -45);
    assert_eq!(table.get(0).unwrap().health, 100);
    assert_eq!(table.get(1).unwrap().health, 55);
    table.update_health(1, -56);
    assert_eq!(table.get(1).unwrap().health, 0);
}

#[test]
fn table_copy_is_in_table_order() {
    let mut table = EntityTable::new();
    table.insert(LivingBeing::spawn(8, "a".to_string(), Class::Golem));
    table.insert(LivingBeing::spawn(2, "b".to_string(), Class::Mage));
    table.move_all(1, 2);
    let copy = table.to_vec();
    assert_eq!(copy.len(), 2);
    assert_eq!((copy[0].id, copy[1].id), (8, 2));
    assert_eq!(copy[0].position, Position::new(51, 52));
    assert_eq!(copy[1].position, Position::new(51, 52));
    assert_eq!(copy[1].name, "b");
}

#[test]
fn class_tags() {
    assert_eq!(Class::Mage.tag(), 0);
    assert_eq!(Class::Golem.tag(), 1);
    assert_eq!(Class::from_tag(1), Class::Golem);
    assert_eq!(Class::from_tag(0), Class::Mage);
    assert_eq!(Class::from_tag(2), Class::Mage);
    assert_eq!(Class::from_tag(-1), Class::Mage);
}

#[test]
fn sprite_of_each_class() {
    let golem = game_master::SpriteDef::of(Class::Golem);
    assert_eq!(golem.path, "Golem_01_Idle_000.png");
    assert_eq!(golem.size, game_master::Size::new(720, 480));
    let mage = game_master::SpriteDef::of(Class::Mage);
    assert_eq!(mage.path, "mage-idle1.png");
    assert_eq!((mage.size.w, mage.size.h), (128, 128));
    let custom = game_master::SpriteDef::new("x.png".to_string(), game_master::Size::new(1, 2));
    assert_eq!(custom.path, "x.png");
    assert_eq!(custom.size, game_master::Size { w: 1, h: 2 });
}
