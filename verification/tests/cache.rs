use game_master::{
    Class, ClientStateCache, GameStateResponse, LivingBeing, Position, Presentation, StateManager,
};

fn being(id: u64, name: &str, health: u32, x: u32, y: u32) -> LivingBeing {
    LivingBeing {
        id,
        name: name.to_string(),
        health,
        position: Position::new(x, y),
        class: Class::Mage,
    }
}

fn snapshot(counter: u64, living_beings: Vec<LivingBeing>) -> GameStateResponse {
    GameStateResponse { counter, living_beings }
}

#[test]
fn new_cache_is_empty() {
    let cache = ClientStateCache::new();
    assert_eq!(cache.len(), 0);
    assert!(cache.get(1).is_none());
}

#[test]
fn merge_inserts_unknown_beings() {
    let mut cache = ClientStateCache::new();
    let created =
        cache.merge(&snapshot(0, vec![being(1, "a", 100, 50, 50), being(2, "b", 90, 1, 2)]));
    assert_eq!(created, vec![1, 2]);
    assert_eq!(cache.len(), 2);
    let second = cache.get(2).unwrap();
    assert_eq!(second.being.id, 2);
    assert_eq!(second.being.name, "b");
    assert_eq!(second.being.health, 90);
    assert_eq!(second.being.position, Position::new(1, 2));
    assert_eq!(second.being.class, Class::Mage);
    assert_eq!(second.presentation, Presentation { sprite_id: None, has_been_rendered: false });
}

#[test]
fn merge_twice_same_id_keeps_one_entry_with_the_latest_position() {
    let mut cache = ClientStateCache::new();
    let created = cache.merge(&snapshot(0, vec![being(1, "a", 100, 50, 50)]));
    assert_eq!(created, vec![1]);
    let created = cache.merge(&snapshot(1, vec![being(1, "a", 100, 60, 60)]));
    assert!(created.is_empty());
    assert_eq!(cache.len(), 1);
    assert_eq!(cache.get(1).unwrap().being.position, Position::new(60, 60));
}

#[test]
fn merge_updates_health_and_position_and_keeps_the_rest() {
    let mut cache = ClientStateCache::new();
    cache.merge(&snapshot(0, vec![being(1, "a", 100, 50, 50)]));
    assert!(cache.attach_sprite(1, 0xfeed));
    assert!(cache.mark_rendered(1));
    let mut renamed = being(1, "other", 70, 60, 61);
    renamed.class = Class::Golem;
    cache.merge(&snapshot(1, vec![renamed]));
    let entry = cache.get(1).unwrap();
    assert_eq!(entry.being.health, 70);
    assert_eq!(entry.being.position, Position::new(60, 61));
    assert_eq!(entry.being.name, "a");
    assert_eq!(entry.being.class, Class::Mage);
    assert_eq!(
        entry.presentation,
        Presentation { sprite_id: Some(0xfeed), has_been_rendered: true }
    );
}

#[test]
fn merge_never_removes_an_id() {
    let mut cache = ClientStateCache::new();
    cache.merge(&snapshot(0, vec![being(1, "a", 100, 50, 50), being(2, "b", 100, 50, 50)]));
    let created = cache.merge(&snapshot(1, vec![being(2, "b", 80, 60, 60)]));
    assert!(created.is_empty());
    assert_eq!(cache.len(), 2);
    assert_eq!(cache.get(1).unwrap().being.health, 100);
    assert_eq!(cache.get(2).unwrap().being.health, 80);
    cache.merge(&snapshot(2, vec![]));
    assert_eq!(cache.len(), 2);
}

#[test]
fn merge_of_a_repeated_id_in_one_snapshot_takes_the_last() {
    let mut cache = ClientStateCache::new();
    let created =
        cache.merge(&snapshot(0, vec![being(3, "first", 100, 1, 1), being(3, "again", 40, 2, 2)]));
    assert_eq!(created, vec![3]);
    assert_eq!(cache.len(), 1);
    let entry = cache.get(3).unwrap();
    assert_eq!(entry.being.name, "first");
    assert_eq!(entry.being.health, 40);
    assert_eq!(entry.being.position, Position::new(2, 2));
}

#[test]
fn created_ids_come_in_snapshot_order() {
    let mut cache = ClientStateCache::new();
    cache.merge(&snapshot(0, vec![being(5, "e", 100, 0, 0)]));
    let created = cache.merge(&snapshot(
        1,
        vec![being(9, "i", 100, 0, 0), being(5, "e", 100, 0, 0), being(2, "b", 100, 0, 0)],
    ));
    assert_eq!(created, vec![9, 2]);
    assert_eq!(cache.len(), 3);
}

#[test]
fn presentation_of_an_unknown_being_is_not_recorded() {
    let mut cache = ClientStateCache::new();
    assert!(!cache.attach_sprite(1, 7));
    assert!(!cache.mark_rendered(1));
    assert_eq!(cache.len(), 0);
    cache.merge(&snapshot(0, vec![being(1, "a", 100, 50, 50)]));
    assert!(cache.mark_rendered(1));
    let entry = cache.get(1).unwrap();
    assert_eq!(entry.presentation.sprite_id, None);
    assert!(entry.presentation.has_been_rendered);
    assert!(cache.attach_sprite(1, u128::MAX));
    assert_eq!(cache.get(1).unwrap().presentation.sprite_id, Some(u128::MAX));
    assert!(cache.get(1).unwrap().presentation.has_been_rendered);
}

#[test]
fn cache_follows_the_server() {
    let mut state = StateManager::new();
    let mut cache = ClientStateCache::new();
    assert_eq!(cache.merge(&state.snapshot()), vec![1]);
    let player = state.register("GGYE".to_string());
    state.tick();
    state.apply(&game_master::Action::new(game_master::Spell::Fireball)).unwrap();
    assert_eq!(cache.merge(&state.snapshot()), vec![player]);
    let monster = cache.get(1).unwrap();
    assert_eq!(monster.being.health, 70);
    assert_eq!(monster.being.position, Position::new(60, 60));
    assert_eq!(monster.being.class, Class::Golem);
    let me = cache.get(player).unwrap();
    assert_eq!(me.being.name, "GGYE");
    assert_eq!(me.being.position, Position::new(60, 60));
}
