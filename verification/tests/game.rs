use tile_world::game::{flee_fails, follow_axis, Command, Game, GameState};
use tile_world::game_object::{
    EventType, GameObject, GameObjectMetaData, GameObjectStats, GameObjectType,
};
use tile_world::paint::Rgb;
use tile_world::vector2::Vector2;
use tile_world::world_map::GameMap;

fn empty_map() -> GameMap {
    GameMap::new(
        Vector2::new(500, 500),
        ".".to_string(),
        Rgb::new(0, 255, 0),
        vec!["Fight".to_string(), "Run".to_string()],
    )
}

fn thing(name: &str, x: i32, y: i32, kind: GameObjectType) -> GameObject {
    GameObject::new(
        name.to_string(),
        Vector2::new(x, y),
        "#".to_string(),
        kind,
        Rgb::new(255, 255, 255),
        GameObjectStats::empty(),
    )
}

fn avatar(x: i32, y: i32, agility: usize) -> GameObject {
    GameObject::new(
        "Player".to_string(),
        Vector2::new(x, y),
        "@".to_string(),
        GameObjectType::PLAYER,
        Rgb::new(255, 0, 0),
        GameObjectStats::new(1, agility, 10),
    )
}

fn session(map: GameMap, x: i32, y: i32) -> Game {
    Game::new(avatar(x, y, 1), map, Vector2::zero(), Vector2::new(50, 20), Vector2::new(5, 3))
        .unwrap()
}

fn labels(texts: &[&str]) -> Vec<String> {
    texts.iter().map(|t| t.to_string()).collect()
}

fn npc(x: i32, y: i32) -> GameObject {
    let mut npc = thing("Npc", x, y, GameObjectType::STATIC);
    let event = npc.add_event(EventType::Dialogue).unwrap();
    assert!(event.add_dialogue("Select one", labels(&["first", "second"]), vec![1, 2]));
    assert!(event.add_dialogue("this", Vec::new(), Vec::new()));
    assert!(event.add_dialogue("or this", Vec::new(), Vec::new()));
    npc
}

fn enemy(x: i32, y: i32, agility: usize) -> GameObject {
    let mut enemy = GameObject::new(
        "Enemy".to_string(),
        Vector2::new(x, y),
        "e".to_string(),
        GameObjectType::STATIC,
        Rgb::new(180, 0, 0),
        GameObjectStats::new(1, agility, 10),
    );
    enemy.add_event(EventType::Fight);
    enemy
}

fn block_world() -> Game {
    let mut map = empty_map();
    assert!(map.insert_object(thing("Box", 7, 3, GameObjectType::MOVEABLE)).is_ok());
    session(map, 6, 5)
}

fn spoken(game: &Game, x: i32, y: i32) -> String {
    let object = game.map.get_object_from_position(Vector2::new(x, y)).unwrap();
    object.events[object.current_event_index].get_current_dialogue_text().clone()
}

fn cursors(game: &Game, x: i32, y: i32) -> (usize, usize) {
    let object = game.map.get_object_from_position(Vector2::new(x, y)).unwrap();
    let event = &object.events[object.current_event_index];
    (event.current_dialogue_index, event.current_dialogue_selection_index)
}

#[test]
fn new_session_explores() {
    let game = session(empty_map(), 6, 5);
    assert_eq!(game.game_state, GameState::Normal);
    assert_eq!(game.player.position, Vector2::new(6, 5));
    assert_eq!(game.camera, Vector2::zero());
    assert_eq!(game.screen_size, Vector2::new(50, 20));
    assert_eq!(game.screen_margins, Vector2::new(5, 3));
    assert_eq!(game.player.meta_data, GameObjectMetaData::EMPTY);
}

#[test]
fn new_session_needs_a_free_cell_for_the_avatar() {
    let mut map = empty_map();
    assert!(map.insert_object(thing("Wall", 6, 5, GameObjectType::STATIC)).is_ok());
    assert!(Game::new(
        avatar(6, 5, 1),
        map,
        Vector2::zero(),
        Vector2::new(50, 20),
        Vector2::new(5, 3)
    )
    .is_none());
}

#[test]
fn new_session_needs_a_window_between_the_margins() {
    let screen = Vector2::new(50, 20);
    assert!(Game::new(avatar(6, 5, 1), empty_map(), Vector2::zero(), screen, Vector2::new(25, 3))
        .is_none());
    assert!(Game::new(avatar(6, 5, 1), empty_map(), Vector2::zero(), screen, Vector2::new(5, 10))
        .is_none());
    assert!(Game::new(avatar(6, 5, 1), empty_map(), Vector2::zero(), screen, Vector2::new(-1, 3))
        .is_none());
    assert!(Game::new(avatar(6, 5, 1), empty_map(), Vector2::zero(), screen, Vector2::new(24, 9))
        .is_some());
    assert!(Game::new(avatar(6, 5, 1), empty_map(), Vector2::zero(), screen, Vector2::new(0, 0))
        .is_some());
}

#[test]
fn new_session_notes_the_ceiling_over_the_avatar() {
    let mut map = empty_map();
    let mut roof = thing("Ceiling", 6, 5, GameObjectType::CEILING);
    roof.set_ceiling_group_id(3);
    assert!(map.insert_object(roof).is_ok());
    let game = session(map, 6, 5);
    assert_eq!(game.player.meta_data, GameObjectMetaData::INT(3));
}

#[test]
fn walking_past_a_block_leaves_it() {
    let mut game = block_world();
    for _ in 0..3 {
        game.process_input(0, -1);
    }
    assert_eq!(game.player.position, Vector2::new(6, 2));
    assert_eq!(game.map.get_object_from_position(Vector2::new(7, 3)).unwrap().name, "Box");
    for _ in 0..3 {
        game.process_input(1, 0);
    }
    assert_eq!(game.player.position, Vector2::new(9, 2));
    let block = game.map.get_object_from_position(Vector2::new(7, 3)).unwrap();
    assert_eq!(block.name, "Box");
    assert_eq!(block.position, Vector2::new(7, 3));
    assert_eq!(game.game_state, GameState::Normal);
}

#[test]
fn pushing_a_block_moves_both_by_one_cell() {
    let mut game = block_world();
    game.process_input(0, -1);
    game.process_input(0, -1);
    assert_eq!(game.player.position, Vector2::new(6, 3));
    game.process_input(1, 0);
    assert_eq!(game.player.position, Vector2::new(7, 3));
    let block = game.map.get_object_from_position(Vector2::new(8, 3)).unwrap();
    assert_eq!(block.name, "Box");
    assert_eq!(block.position, Vector2::new(8, 3));
    assert!(!game.map.is_position_occupied(&Vector2::new(7, 3)));
    game.process_input(1, 0);
    assert_eq!(game.player.position, Vector2::new(8, 3));
    assert_eq!(game.map.get_object_from_position(Vector2::new(9, 3)).unwrap().name, "Box");
}

#[test]
fn pushing_a_block_against_an_entity_moves_neither() {
    let mut map = empty_map();
    assert!(map.insert_object(thing("Box", 7, 3, GameObjectType::MOVEABLE)).is_ok());
    assert!(map.insert_object(thing("Other", 8, 3, GameObjectType::MOVEABLE)).is_ok());
    let mut game = session(map, 6, 3);
    game.process_input(1, 0);
    assert_eq!(game.player.position, Vector2::new(6, 3));
    assert_eq!(game.map.get_object_from_position(Vector2::new(7, 3)).unwrap().name, "Box");
    assert_eq!(game.map.get_object_from_position(Vector2::new(8, 3)).unwrap().name, "Other");
    assert!(!game.map.is_position_occupied(&Vector2::new(9, 3)));
}

#[test]
fn pushing_a_block_off_the_map_moves_neither() {
    let mut map = empty_map();
    assert!(map.insert_object(thing("Box", 500, 3, GameObjectType::MOVEABLE)).is_ok());
    assert!(map.insert_object(thing("Low", 4, 0, GameObjectType::MOVEABLE)).is_ok());
    let mut game = session(map, 499, 3);
    game.process_input(1, 0);
    assert_eq!(game.player.position, Vector2::new(499, 3));
    assert_eq!(
        game.map.get_object_from_position(Vector2::new(500, 3)).unwrap().position,
        Vector2::new(500, 3)
    );
    let mut map = empty_map();
    assert!(map.insert_object(thing("Low", 4, 0, GameObjectType::MOVEABLE)).is_ok());
    let mut game = session(map, 4, 1);
    game.process_input(0, -1);
    assert_eq!(game.player.position, Vector2::new(4, 1));
    assert!(game.map.is_position_occupied(&Vector2::new(4, 0)));
}

#[test]
fn static_entities_block_the_way() {
    let mut map = empty_map();
    assert!(map.insert_object(thing("Wall", 6, 4, GameObjectType::STATIC)).is_ok());
    assert!(map.insert_object(thing("Twin", 7, 5, GameObjectType::PLAYER)).is_ok());
    let mut game = session(map, 6, 5);
    game.process_input(0, -1);
    assert_eq!(game.player.position, Vector2::new(6, 5));
    game.process_input(1, 0);
    assert_eq!(game.player.position, Vector2::new(6, 5));
    assert_eq!(game.map.get_object_from_position(Vector2::new(6, 4)).unwrap().name, "Wall");
    assert_eq!(game.map.get_object_from_position(Vector2::new(7, 5)).unwrap().name, "Twin");
    assert_eq!(game.camera, Vector2::zero());
}

#[test]
fn stepping_off_the_map_changes_nothing() {
    let mut map = empty_map();
    assert!(map.insert_object(thing("Box", 7, 3, GameObjectType::MOVEABLE)).is_ok());
    let mut game = Game::new(
        avatar(0, 0, 1),
        map,
        Vector2::new(-5, -3),
        Vector2::new(50, 20),
        Vector2::new(5, 3),
    )
    .unwrap();
    game.process_input(-1, 0);
    game.process_input(0, -1);
    assert_eq!(game.player.position, Vector2::new(0, 0));
    assert_eq!(game.camera, Vector2::new(-5, -3));
    assert_eq!(game.game_state, GameState::Normal);
    assert_eq!(
        game.map.get_object_from_position(Vector2::new(7, 3)).unwrap().position,
        Vector2::new(7, 3)
    );
    let mut game = session(empty_map(), 500, 500);
    game.process_input(1, 0);
    game.process_input(0, 1);
    assert_eq!(game.player.position, Vector2::new(500, 500));
    game.process_input(-1, 0);
    assert_eq!(game.player.position, Vector2::new(499, 500));
}

#[test]
fn no_cell_holds_two_entities_after_many_moves() {
    let mut map = empty_map();
    assert!(map.insert_object(thing("A", 7, 5, GameObjectType::MOVEABLE)).is_ok());
    assert!(map.insert_object(thing("B", 9, 5, GameObjectType::MOVEABLE)).is_ok());
    assert!(map.insert_object(thing("Wall", 6, 3, GameObjectType::STATIC)).is_ok());
    assert!(map.insert_object(npc(4, 4)).is_ok());
    let mut game = session(map, 6, 5);
    let steps = [
        (1, 0), (1, 0), (1, 0), (0, -1), (0, -1), (-1, 0), (-1, 0), (0, 1), (0, 1), (0, 1),
        (1, 0), (0, -1), (1, 0), (1, 0), (-1, 0), (-1, 0), (-1, 0), (-1, 0), (0, -1), (0, -1),
    ];
    for (dx, dy) in steps {
        game.process_input(dx, dy);
        assert!(!game.map.is_position_occupied(&game.player.position));
        let mut seen = 0;
        for x in 0..15 {
            for y in 0..15 {
                let cell = Vector2::new(x, y);
                if let Some(object) = game.map.get_object_from_position(cell) {
                    assert_eq!(object.position, cell);
                    seen += 1;
                }
            }
        }
        assert_eq!(seen, 4);
    }
}

#[test]
fn avatar_notes_the_ceiling_it_walks_under() {
    let mut map = empty_map();
    let mut roof = thing("Ceiling", 7, 5, GameObjectType::CEILING);
    roof.set_ceiling_group_id(2);
    assert!(map.insert_object(roof).is_ok());
    let mut game = session(map, 6, 5);
    assert_eq!(game.player.meta_data, GameObjectMetaData::EMPTY);
    game.process_input(1, 0);
    assert_eq!(game.player.position, Vector2::new(7, 5));
    assert_eq!(game.player.meta_data, GameObjectMetaData::INT(2));
    game.process_input(1, 0);
    assert_eq!(game.player.meta_data, GameObjectMetaData::EMPTY);
}

#[test]
fn follow_axis_shifts_only_near_the_edges() {
    assert_eq!(follow_axis(0, 5, -1, 5, 50), 0);
    assert_eq!(follow_axis(0, 4, -1, 5, 50), -1);
    assert_eq!(follow_axis(0, 4, 1, 5, 50), 0);
    assert_eq!(follow_axis(0, 4, 0, 5, 50), 0);
    assert_eq!(follow_axis(0, 44, 1, 5, 50), 0);
    assert_eq!(follow_axis(0, 45, 1, 5, 50), 1);
    assert_eq!(follow_axis(0, 45, -1, 5, 50), 0);
    assert_eq!(follow_axis(10, 12, -1, 3, 20), 9);
    assert_eq!(follow_axis(10, 27, 1, 3, 20), 11);
    assert_eq!(follow_axis(i32::MIN, 0, -1, 5, 50), i32::MIN);
    assert_eq!(follow_axis(i32::MAX, 0, 1, 5, 50), i32::MAX);
}

#[test]
fn camera_stands_inside_the_window_and_follows_at_the_edges() {
    let mut game = session(empty_map(), 6, 5);
    game.process_input(-1, 0);
    assert_eq!(game.camera, Vector2::new(0, 0));
    game.process_input(-1, 0);
    assert_eq!(game.player.position, Vector2::new(4, 5));
    assert_eq!(game.camera, Vector2::new(-1, 0));
    game.process_input(-1, 0);
    assert_eq!(game.camera, Vector2::new(-2, 0));
    game.process_input(1, 0);
    assert_eq!(game.camera, Vector2::new(-2, 0));
    game.process_input(0, -1);
    game.process_input(0, -1);
    assert_eq!(game.camera, Vector2::new(-2, 0));
    game.process_input(0, -1);
    assert_eq!(game.player.position, Vector2::new(4, 2));
    assert_eq!(game.camera, Vector2::new(-2, -1));
    let mut before = game.camera;
    for _ in 0..60 {
        game.process_input(1, 0);
        assert!((game.camera.x - before.x).abs() <= 1);
        assert_eq!(game.camera.y, before.y);
        before = game.camera;
    }
    assert_eq!(game.player.position, Vector2::new(64, 2));
    assert_eq!(game.camera, Vector2::new(20, -1));
    for _ in 0..30 {
        game.process_input(0, 1);
        assert!((game.camera.y - before.y).abs() <= 1);
        assert_eq!(game.camera.x, before.x);
        before = game.camera;
    }
    assert_eq!(game.player.position, Vector2::new(64, 32));
    assert_eq!(game.camera, Vector2::new(20, 16));
}

#[test]
fn camera_stands_when_the_step_is_refused() {
    let mut map = empty_map();
    assert!(map.insert_object(thing("Wall", 3, 5, GameObjectType::STATIC)).is_ok());
    let mut game = session(map, 4, 5);
    game.process_input(-1, 0);
    assert_eq!(game.player.position, Vector2::new(4, 5));
    assert_eq!(game.camera, Vector2::zero());
}

#[test]
fn confirm_without_a_neighbour_keeps_exploring() {
    let mut map = empty_map();
    assert!(map.insert_object(thing("Wall", 7, 5, GameObjectType::STATIC)).is_ok());
    let mut game = session(map, 6, 5);
    game.process_input(0, 0);
    assert_eq!(game.game_state, GameState::Normal);
    assert_eq!(game.player.position, Vector2::new(6, 5));
    assert_eq!(game.map.current_event_position, Vector2::zero());
}

#[test]
fn dialogue_choice_zero_leads_to_this() {
    let mut map = empty_map();
    assert!(map.insert_object(npc(7, 5)).is_ok());
    let mut game = session(map, 6, 5);
    game.process_input(0, 0);
    assert_eq!(game.game_state, GameState::Dialogue);
    assert_eq!(game.map.current_event_position, Vector2::new(7, 5));
    assert_eq!(spoken(&game, 7, 5), "Npc: Select one");
    game.process_input(0, 0);
    assert_eq!(game.game_state, GameState::Dialogue);
    assert_eq!(spoken(&game, 7, 5), "Npc: this");
    game.process_input(0, 0);
    assert_eq!(game.game_state, GameState::Normal);
    assert_eq!(game.player.position, Vector2::new(6, 5));
}

#[test]
fn dialogue_choice_one_leads_to_or_this() {
    let mut map = empty_map();
    assert!(map.insert_object(npc(7, 5)).is_ok());
    let mut game = session(map, 6, 5);
    game.process_input(0, 0);
    game.process_input(1, 0);
    assert_eq!(cursors(&game, 7, 5), (0, 1));
    game.process_input(0, 0);
    assert_eq!(game.game_state, GameState::Dialogue);
    assert_eq!(spoken(&game, 7, 5), "Npc: or this");
    assert_eq!(cursors(&game, 7, 5), (2, 0));
    game.process_input(0, 0);
    assert_eq!(game.game_state, GameState::Normal);
}

#[test]
fn dialogue_cursors_stay_in_range() {
    let mut map = empty_map();
    assert!(map.insert_object(npc(7, 5)).is_ok());
    let mut game = session(map, 6, 5);
    game.process_input(0, 0);
    let inputs = [
        (-1, 0), (-1, 0), (1, 0), (1, 0), (1, 0), (0, 1), (0, -1), (-1, 0), (1, 0), (1, 1),
        (0, 0), (1, 0), (-1, 0), (1, 0), (0, 1),
    ];
    for (dx, dy) in inputs {
        game.process_input(dx, dy);
        assert_eq!(game.game_state, GameState::Dialogue);
        assert_eq!(game.player.position, Vector2::new(6, 5));
        let object = game.map.get_object_from_position(Vector2::new(7, 5)).unwrap();
        let event = &object.events[0];
        assert!(event.current_dialogue_index < 3);
        let count = event.get_current_dialogue_selections_length();
        if count == 0 {
            assert_eq!(event.current_dialogue_selection_index, 0);
        } else {
            assert!(event.current_dialogue_selection_index < count);
        }
    }
    assert_eq!(cursors(&game, 7, 5), (2, 0));
}

#[test]
fn dialogue_starts_with_the_cursor_on_the_first_choice() {
    let mut map = empty_map();
    let mut talker = npc(7, 5);
    talker.events[0].select_next();
    assert!(map.insert_object(talker).is_ok());
    let mut game = session(map, 6, 5);
    assert_eq!(cursors(&game, 7, 5), (0, 1));
    game.process_input(0, 0);
    assert_eq!(game.game_state, GameState::Dialogue);
    assert_eq!(cursors(&game, 7, 5), (0, 0));
}

#[test]
fn dialogue_resumes_at_the_node_it_ended_on() {
    let mut map = empty_map();
    assert!(map.insert_object(npc(7, 5)).is_ok());
    let mut game = session(map, 6, 5);
    game.process_input(0, 0);
    game.process_input(0, 0);
    game.process_input(0, 0);
    assert_eq!(game.game_state, GameState::Normal);
    game.process_input(0, 0);
    assert_eq!(game.game_state, GameState::Dialogue);
    assert_eq!(spoken(&game, 7, 5), "Npc: this");
}

#[test]
fn dialogue_whose_owner_is_gone_goes_back_to_exploring() {
    let mut map = empty_map();
    assert!(map.insert_object(npc(7, 5)).is_ok());
    let mut game = session(map, 6, 5);
    game.process_input(0, 0);
    assert_eq!(game.game_state, GameState::Dialogue);
    assert!(game.map.take_object(Vector2::new(7, 5)).is_some());
    game.process_input(1, 0);
    assert_eq!(game.game_state, GameState::Normal);
    assert_eq!(game.player.position, Vector2::new(6, 5));
}

#[test]
fn dialogue_without_nodes_ends_on_confirm() {
    let mut map = empty_map();
    let mut mute = thing("Mute", 7, 5, GameObjectType::STATIC);
    mute.add_event(EventType::Dialogue);
    assert!(map.insert_object(mute).is_ok());
    let mut game = session(map, 6, 5);
    game.process_input(0, 0);
    assert_eq!(game.game_state, GameState::Dialogue);
    game.process_input(1, 0);
    game.process_input(-1, 0);
    assert_eq!(game.game_state, GameState::Dialogue);
    game.process_input(0, 0);
    assert_eq!(game.game_state, GameState::Normal);
}

#[test]
fn fight_menu_cursor_stays_on_its_two_entries() {
    let mut map = empty_map();
    assert!(map.insert_object(enemy(5, 4, 2)).is_ok());
    let mut game = session(map, 6, 5);
    game.process_input(0, 0);
    assert_eq!(game.game_state, GameState::Fight);
    assert_eq!(game.map.current_event_position, Vector2::new(5, 4));
    assert_eq!(game.map.current_fight_selection_index, 0);
    let inputs = [(-1, 0), (1, 0), (1, 0), (1, 0), (-1, 0), (-1, 0), (-1, 0), (1, 1), (0, 1)];
    let expected = [0, 1, 1, 1, 0, 0, 0, 1, 1];
    for ((dx, dy), cursor) in inputs.into_iter().zip(expected) {
        game.process_input(dx, dy);
        assert_eq!(game.map.current_fight_selection_index, cursor);
        assert_eq!(game.game_state, GameState::Fight);
        assert_eq!(game.player.position, Vector2::new(6, 5));
    }
}

#[test]
fn fight_entry_is_a_placeholder() {
    let mut map = empty_map();
    assert!(map.insert_object(enemy(7, 5, 2)).is_ok());
    let mut game = session(map, 6, 5);
    game.process_input(0, 0);
    game.process_input(0, 0);
    assert_eq!(game.game_state, GameState::Fight);
    assert_eq!(game.map.fight_move_queue, 0);
    assert_eq!(game.map.current_fight_selection_index, 0);
}

#[test]
fn running_from_a_slower_enemy_always_succeeds() {
    for _ in 0..200 {
        let mut map = empty_map();
        assert!(map.insert_object(enemy(7, 5, 2)).is_ok());
        let mut game = Game::new(
            avatar(6, 5, 3),
            map,
            Vector2::zero(),
            Vector2::new(50, 20),
            Vector2::new(5, 3),
        )
        .unwrap();
        game.process_input(0, 0);
        assert_eq!(game.game_state, GameState::Fight);
        game.process_input(1, 0);
        assert!(!game.awaits_draw(0, 0));
        game.process_input(0, 0);
        assert_eq!(game.game_state, GameState::Normal);
        assert_eq!(game.map.fight_move_queue, 0);
    }
}

#[test]
fn running_from_a_faster_enemy_hangs_on_the_draw() {
    for (draw, escapes) in [(1, true), (35, true), (36, false), (100, false)] {
        let mut map = empty_map();
        assert!(map.insert_object(enemy(7, 5, 2)).is_ok());
        let mut game = session(map, 6, 5);
        game.apply_input(0, 0, 50);
        game.apply_input(1, 0, 50);
        assert!(game.awaits_draw(0, 0));
        assert!(!game.awaits_draw(1, 0));
        game.apply_input(0, 0, draw);
        if escapes {
            assert_eq!(game.game_state, GameState::Normal);
            assert_eq!(game.map.fight_move_queue, 0);
        } else {
            assert_eq!(game.game_state, GameState::Fight);
            assert_eq!(game.map.fight_move_queue, 1);
        }
    }
}

#[test]
fn running_from_an_equal_enemy_draws_a_number() {
    let mut escaped = 0;
    let mut caught = 0;
    for _ in 0..400 {
        let mut map = empty_map();
        assert!(map.insert_object(enemy(7, 5, 1)).is_ok());
        let mut game = session(map, 6, 5);
        game.process_input(0, 0);
        game.process_input(1, 0);
        game.process_input(0, 0);
        match game.game_state {
            GameState::Normal => {
                assert_eq!(game.map.fight_move_queue, 0);
                escaped += 1;
            }
            GameState::Fight => {
                assert_eq!(game.map.fight_move_queue, 1);
                caught += 1;
            }
            _ => panic!("a fight leads nowhere else"),
        }
    }
    assert!(escaped > 0);
    assert!(caught > 0);
}

#[test]
fn flee_fails_only_for_the_slow_and_unlucky() {
    assert!(!flee_fails(3, 2, 100));
    assert!(!flee_fails(2, 2, 35));
    assert!(flee_fails(2, 2, 36));
    assert!(flee_fails(1, 2, 100));
    assert!(!flee_fails(1, 2, 1));
}

#[test]
fn fight_whose_enemy_is_gone_goes_back_to_exploring() {
    let mut map = empty_map();
    assert!(map.insert_object(enemy(7, 5, 2)).is_ok());
    let mut game = session(map, 6, 5);
    game.process_input(0, 0);
    assert_eq!(game.game_state, GameState::Fight);
    assert!(game.map.take_object(Vector2::new(7, 5)).is_some());
    game.process_input(1, 0);
    assert_eq!(game.game_state, GameState::Normal);
    assert_eq!(game.map.current_fight_selection_index, 0);
}

#[test]
fn fight_starts_with_the_cursor_on_the_first_entry() {
    let mut map = empty_map();
    assert!(map.insert_object(enemy(7, 5, 0)).is_ok());
    let mut game = session(map, 6, 5);
    game.process_input(0, 0);
    game.process_input(1, 0);
    game.process_input(0, 0);
    assert_eq!(game.game_state, GameState::Normal);
    assert_eq!(game.map.current_fight_selection_index, 1);
    game.process_input(0, 0);
    assert_eq!(game.game_state, GameState::Fight);
    assert_eq!(game.map.current_fight_selection_index, 0);
}

#[test]
fn cutscene_takes_no_input() {
    let mut map = empty_map();
    assert!(map.insert_object(npc(7, 5)).is_ok());
    let mut game = session(map, 6, 5);
    game.game_state = GameState::Cutscene;
    for (dx, dy) in [(0, 0), (1, 0), (-1, 0), (0, 1), (0, -1)] {
        game.process_input(dx, dy);
        assert_eq!(game.game_state, GameState::Cutscene);
        assert_eq!(game.player.position, Vector2::new(6, 5));
        assert_eq!(game.camera, Vector2::zero());
    }
}

#[test]
fn commands_stand_for_steps() {
    assert_eq!(Command::Up.direction(), Some((0, -1)));
    assert_eq!(Command::Down.direction(), Some((0, 1)));
    assert_eq!(Command::Left.direction(), Some((-1, 0)));
    assert_eq!(Command::Right.direction(), Some((1, 0)));
    assert_eq!(Command::Interact.direction(), Some((0, 0)));
    assert_eq!(Command::Quit.direction(), None);
}

#[test]
fn tick_handles_one_command() {
    let mut map = empty_map();
    assert!(map.insert_object(npc(6, 3)).is_ok());
    let mut game = session(map, 6, 5);
    assert!(game.tick(None));
    assert_eq!(game.player.position, Vector2::new(6, 5));
    assert!(game.tick(Some(Command::Up)));
    assert_eq!(game.player.position, Vector2::new(6, 4));
    assert!(game.tick(Some(Command::Right)));
    assert!(game.tick(Some(Command::Down)));
    assert!(game.tick(Some(Command::Left)));
    assert_eq!(game.player.position, Vector2::new(6, 5));
    assert!(game.tick(Some(Command::Up)));
    assert!(game.tick(Some(Command::Interact)));
    assert_eq!(game.game_state, GameState::Dialogue);
    assert!(!game.tick(Some(Command::Quit)));
    assert_eq!(game.game_state, GameState::Dialogue);
    assert_eq!(game.player.position, Vector2::new(6, 4));
}
