//! The world that a session starts in: an avatar in a walled yard under one
//! roof, with a block to push, somebody to talk to and somebody to fight.

use crate::game::{Game, GameState};
use crate::game_object::{
    EventType, GameObject, GameObjectMetaData, GameObjectStats, GameObjectType,
};
use crate::paint::{tinted, Rgb};
use crate::render::texts;
use crate::vector2::Vector2;
use crate::world_map::GameMap;
use vstd::prelude::*;
use vstd::string::StringExecFns;

verus! {

/// Where the avatar starts.
pub open spec fn start_cell() -> Vector2 {
    Vector2 { x: 6, y: 5 }
}

/// Where the block stands.
pub open spec fn block_cell() -> Vector2 {
    Vector2 { x: 7, y: 3 }
}

/// Where the enemy stands.
pub open spec fn enemy_cell() -> Vector2 {
    Vector2 { x: 3, y: 3 }
}

/// Where the one stands who talks.
pub open spec fn talker_cell() -> Vector2 {
    Vector2 { x: 9, y: 6 }
}

/// The cells of the wall: the upper side of the yard and its two flanks.
pub open spec fn is_wall_cell(p: Vector2) -> bool {
    ||| p.y == 1 && 1 <= p.x <= 13
    ||| 2 <= p.y <= 9 && (p.x == 1 || p.x == 13)
}

/// The cells under the roof.
pub open spec fn is_roofed_cell(p: Vector2) -> bool {
    0 <= p.x < 15 && 0 <= p.y < 11
}

/// The `i`-th cell under the roof, counted row by row.
pub open spec fn roofed_cell(i: int) -> Vector2 {
    Vector2 { x: (i % 15) as i32, y: (i / 15) as i32 }
}

/// White, the colour of walls and blocks.
pub open spec fn white() -> Rgb {
    Rgb { r: 255, g: 255, b: 255 }
}

/// Attributes of one who neither fights nor is fought.
pub open spec fn no_stats() -> GameObjectStats {
    GameObjectStats { strength: 0, agility: 0, max_health: 0 }
}

/// `ceiling` is a tile of the roof over `p`.
pub open spec fn is_roof_tile(ceiling: GameObject, p: Vector2) -> bool {
    &&& ceiling.ceiling_group_id == 0
    &&& (GameObject { ceiling_group_id: -1i32, ..ceiling }).made_of(
        "Ceiling"@,
        p,
        "\u{2588}"@,
        GameObjectType::CEILING,
        Rgb { r: 0, g: 0, b: 255 },
        no_stats(),
    )
}

/// `enemy` is the enemy of the starting world: an entity that stands still
/// and carries one combat encounter.
pub open spec fn is_enemy(enemy: GameObject) -> bool {
    &&& enemy.name@ == "Enemy"@
    &&& enemy.position == enemy_cell()
    &&& enemy.icon == tinted("\u{2665}\u{fe0e}"@, 180, 0, 0)
    &&& enemy.object_type == GameObjectType::STATIC
    &&& enemy.meta_data == GameObjectMetaData::EMPTY
    &&& enemy.stat == (GameObjectStats { strength: 1, agility: 2, max_health: 1 })
    &&& enemy.health == 1
    &&& enemy.ceiling_group_id == -1
    &&& enemy.current_event_index == 0
    &&& enemy.events@.len() == 1
    &&& enemy.events@[0].event_type == EventType::Fight
    &&& enemy.events@[0].dialogues@.len() == 0
    &&& enemy.events@[0].current_dialogue_index == 0
    &&& enemy.events@[0].current_dialogue_selection_index == 0
}

/// `talker` is the one who talks in the starting world: an entity that
/// stands still and carries one dialogue, which offers two choices and has a
/// closing node for each.
pub open spec fn is_talker(talker: GameObject) -> bool {
    &&& talker.name@ == "Npc"@
    &&& talker.position == talker_cell()
    &&& talker.icon == tinted("N"@, 255, 255, 0)
    &&& talker.object_type == GameObjectType::STATIC
    &&& talker.meta_data == GameObjectMetaData::EMPTY
    &&& talker.stat == no_stats()
    &&& talker.health == 0
    &&& talker.ceiling_group_id == -1
    &&& talker.current_event_index == 0
    &&& talker.events@.len() == 1
    &&& talker.events@[0].event_type == EventType::Dialogue
    &&& talker.events@[0].current_dialogue_index == 0
    &&& talker.events@[0].current_dialogue_selection_index == 0
    &&& talker.events@[0].dialogues@.len() == 3
    &&& talker.events@[0].dialogues@[0].text@ == "Npc"@ + ": "@ + "Select one"@
    &&& texts(talker.events@[0].dialogues@[0].selections@) == seq!["this"@, "or this"@]
    &&& talker.events@[0].dialogues@[0].selections_pointing_index@ == seq![1i32, 2i32]
    &&& talker.events@[0].dialogues@[1].text@ == "Npc"@ + ": "@ + "this"@
    &&& talker.events@[0].dialogues@[1].selections@.len() == 0
    &&& talker.events@[0].dialogues@[1].selections_pointing_index@.len() == 0
    &&& talker.events@[0].dialogues@[2].text@ == "Npc"@ + ": "@ + "or this"@
    &&& talker.events@[0].dialogues@[2].selections@.len() == 0
    &&& talker.events@[0].dialogues@[2].selections_pointing_index@.len() == 0
}

/// Makes the enemy of the starting world.
fn make_enemy() -> (enemy: GameObject)
    ensures
        is_enemy(enemy),
        enemy.wf(),
{
    let mut enemy = GameObject::new(
        String::from_str("Enemy"),
        Vector2::new(3, 3),
        String::from_str("\u{2665}\u{fe0e}"),
        GameObjectType::STATIC,
        Rgb::new(180, 0, 0),
        GameObjectStats::new(1, 2, 1),
    );
    enemy.add_event(EventType::Fight);
    enemy
}

/// Makes the one who talks in the starting world.
fn make_talker() -> (talker: GameObject)
    ensures
        is_talker(talker),
        talker.wf(),
{
    let mut talker = GameObject::new(
        String::from_str("Npc"),
        Vector2::new(9, 6),
        String::from_str("N"),
        GameObjectType::STATIC,
        Rgb::new(255, 255, 0),
        GameObjectStats::empty(),
    );
    match talker.add_event(EventType::Dialogue) {
        Some(talk) => {
            let mut choices: Vec<String> = Vec::new();
            choices.push(String::from_str("this"));
            choices.push(String::from_str("or this"));
            let mut targets: Vec<i32> = Vec::new();
            targets.push(1);
            targets.push(2);
            assert(texts(choices@) =~= seq!["this"@, "or this"@]);
            assert(targets@ =~= seq![1i32, 2i32]);
            talk.add_dialogue("Select one", choices, targets);
            assert(talk.dialogues@[0] == talk.dialogues@.last());
            talk.add_dialogue("this", Vec::new(), Vec::new());
            assert(talk.dialogues@.drop_last()[0] == talk.dialogues@[0]);
            assert(talk.dialogues@[1] == talk.dialogues@.last());
            talk.add_dialogue("or this", Vec::new(), Vec::new());
            assert(talk.dialogues@.drop_last()[0] == talk.dialogues@[0]);
            assert(talk.dialogues@.drop_last()[1] == talk.dialogues@[1]);
            assert(talk.dialogues@[2] == talk.dialogues@.last());
        },
        None => {},
    }
    talker
}

/// The wall cells that have been built when the builder, going row by row,
/// stands before column `x` of row `y`.
pub open spec fn is_built_wall_cell(p: Vector2, x: int, y: int) -> bool {
    is_wall_cell(p) && (p.y - 1 < y || (p.y - 1 == y && p.x - 1 < x))
}

/// `wall` is a piece of the wall on `p`.
pub open spec fn is_wall(wall: GameObject, p: Vector2) -> bool {
    wall.made_of("Wall"@, p, "#"@, GameObjectType::STATIC, white(), no_stats())
}

/// Builds the wall on cells that are free.
fn build_wall(map: &mut GameMap)
    requires
        old(map).wf(),
        forall|p: Vector2| is_wall_cell(p) ==> !#[trigger] old(map).index().contains_key(p),
    ensures
        final(map).wf(),
        final(map).same_settings(old(map)),
        final(map).ceiling_index() == old(map).ceiling_index(),
        final(map).ceiling_groups() == old(map).ceiling_groups(),
        forall|p: Vector2| #[trigger]
            final(map).index().contains_key(p) <==> old(map).index().contains_key(p)
                || is_wall_cell(p),
        forall|p: Vector2| #[trigger]
            old(map).index().contains_key(p) ==> final(map).index()[p] == old(map).index()[p],
        forall|p: Vector2| #[trigger] is_wall_cell(p) ==> is_wall(final(map).index()[p], p),
{
    let mut y: i32 = 0;
    while y < 9
        invariant
            0 <= y <= 9,
            map.wf(),
            map.same_settings(old(map)),
            map.ceiling_index() == old(map).ceiling_index(),
            map.ceiling_groups() == old(map).ceiling_groups(),
            forall|p: Vector2| is_wall_cell(p) ==> !#[trigger] old(map).index().contains_key(p),
            forall|p: Vector2| #[trigger]
                map.index().contains_key(p) <==> old(map).index().contains_key(p)
                    || is_built_wall_cell(p, 0, y as int),
            forall|p: Vector2| #[trigger]
                old(map).index().contains_key(p) ==> map.index()[p] == old(map).index()[p],
            forall|p: Vector2|
                #[trigger] is_wall_cell(p) && p.y - 1 < y ==> is_wall(map.index()[p], p),
        decreases 9 - y,
    {
        let mut x: i32 = 0;
        while x < 13
            invariant
                0 <= y < 9,
                0 <= x <= 13,
                map.wf(),
                map.same_settings(old(map)),
                map.ceiling_index() == old(map).ceiling_index(),
                map.ceiling_groups() == old(map).ceiling_groups(),
                forall|p: Vector2| is_wall_cell(p) ==> !#[trigger] old(map).index().contains_key(p),
                forall|p: Vector2| #[trigger]
                    map.index().contains_key(p) <==> old(map).index().contains_key(p)
                        || is_built_wall_cell(p, x as int, y as int),
                forall|p: Vector2| #[trigger]
                    old(map).index().contains_key(p) ==> map.index()[p] == old(map).index()[p],
                forall|p: Vector2|
                    #[trigger] is_wall_cell(p) && (p.y - 1 < y || (p.y - 1 == y && p.x - 1 < x))
                        ==> is_wall(map.index()[p], p),
            decreases 13 - x,
        {
            if !(y > 0 && x > 0 && x < 12) {
                let wall = GameObject::new(
                    String::from_str("Wall"),
                    Vector2::new(1 + x, 1 + y),
                    String::from_str("#"),
                    GameObjectType::STATIC,
                    Rgb::new(255, 255, 255),
                    GameObjectStats::empty(),
                );
                let ghost cell = wall.position;
                let ghost before = *map;
                assert(is_wall_cell(cell));
                assert(!is_built_wall_cell(cell, x as int, y as int));
                assert(!map.index().contains_key(cell));
                let placed = map.insert_object(wall);
                assert(placed is Ok);
                assert forall|p: Vector2|
                    #[trigger] is_wall_cell(p) && (p.y - 1 < y || (p.y - 1 == y && p.x - 1 < x
                        + 1)) implies is_wall(map.index()[p], p) by {
                    if p != cell {
                        assert(is_built_wall_cell(p, x as int, y as int));
                        assert(before.index().contains_key(p));
                    }
                }
                assert forall|p: Vector2| #[trigger]
                    old(map).index().contains_key(p) implies map.index()[p] == old(
                    map,
                ).index()[p] by {
                    assert(before.index().contains_key(p));
                }
            }
            x += 1;
        }
        y += 1;
    }
}

/// Hangs the roof over a map that has no ceilings yet.
fn hang_roof(map: &mut GameMap)
    requires
        old(map).wf(),
        old(map).ceiling_index() == Map::<Vector2, GameObject>::empty(),
        old(map).ceiling_groups() == Map::<i32, Seq<Vector2>>::empty(),
    ensures
        final(map).wf(),
        final(map).same_settings(old(map)),
        final(map).index() == old(map).index(),
        forall|p: Vector2| #[trigger] final(map).ceiling_index().contains_key(p) <==> is_roofed_cell(p),
        forall|p: Vector2| #[trigger]
            is_roofed_cell(p) ==> is_roof_tile(final(map).ceiling_index()[p], p),
        forall|g: i32| #[trigger] final(map).ceiling_groups().contains_key(g) <==> g == 0,
        final(map).ceiling_groups()[0] == Seq::new(165, |i: int| roofed_cell(i)),
{
    let mut y: i32 = 0;
    while y < 11
        invariant
            0 <= y <= 11,
            map.wf(),
            map.same_settings(old(map)),
            map.index() == old(map).index(),
            forall|p: Vector2| #[trigger]
                map.ceiling_index().contains_key(p) <==> is_roofed_cell(p) && p.y < y,
            forall|p: Vector2|
                #[trigger] is_roofed_cell(p) && p.y < y ==> is_roof_tile(map.ceiling_index()[p], p),
            forall|g: i32| #[trigger] map.ceiling_groups().contains_key(g) ==> g == 0,
            map.group_cells(0) == Seq::new((y * 15) as nat, |i: int| roofed_cell(i)),
            y > 0 ==> map.ceiling_groups().contains_key(0),
        decreases 11 - y,
    {
        let mut x: i32 = 0;
        while x < 15
            invariant
                0 <= y < 11,
                0 <= x <= 15,
                map.wf(),
                map.same_settings(old(map)),
                map.index() == old(map).index(),
                forall|p: Vector2| #[trigger]
                    map.ceiling_index().contains_key(p) <==> is_roofed_cell(p) && (p.y < y || (p.y
                        == y && p.x < x)),
                forall|p: Vector2|
                    #[trigger] is_roofed_cell(p) && (p.y < y || (p.y == y && p.x < x))
                        ==> is_roof_tile(map.ceiling_index()[p], p),
                forall|g: i32| #[trigger] map.ceiling_groups().contains_key(g) ==> g == 0,
                map.group_cells(0) == Seq::new((y * 15 + x) as nat, |i: int| roofed_cell(i)),
                y > 0 || x > 0 ==> map.ceiling_groups().contains_key(0),
            decreases 15 - x,
        {
            let mut ceiling = GameObject::new(
                String::from_str("Ceiling"),
                Vector2::new(x, y),
                String::from_str("\u{2588}"),
                GameObjectType::CEILING,
                Rgb::new(0, 0, 255),
                GameObjectStats::empty(),
            );
            ceiling.set_ceiling_group_id(0);
            let ghost cell = ceiling.position;
            let ghost tile = ceiling;
            let ghost before = *map;
            assert(is_roof_tile(tile, cell));
            assert(!map.ceiling_index().contains_key(cell));
            let placed = map.insert_object(ceiling);
            assert(placed is Ok);
            proof {
                assert(cell == roofed_cell(y * 15 + x));
                assert(map.group_cells(0) =~= Seq::new(
                    (y * 15 + x + 1) as nat,
                    |i: int| roofed_cell(i),
                ));
                assert forall|p: Vector2|
                    #[trigger] is_roofed_cell(p) && (p.y < y || (p.y == y && p.x < x + 1)) implies is_roof_tile(
                    map.ceiling_index()[p],
                    p,
                ) by {
                    if p != cell {
                        assert(before.ceiling_index().contains_key(p));
                    }
                }
            }
            x += 1;
        }
        y += 1;
    }
    proof {
        assert(map.ceiling_groups()[0] =~= Seq::new(165, |i: int| roofed_cell(i)));
    }
}

/// `game` is a session at its start in the starting world: the avatar
/// stands in a yard walled on three sides, under a roof of one group that
/// covers the yard and so is hidden from it; in the yard stand a block, an
/// enemy and one who talks, and nothing else.
pub open spec fn is_starting_world(game: &Game) -> bool {
    &&& game.wf()
    &&& game.game_state == GameState::Normal
    &&& game.camera == (Vector2 { x: 0, y: 0 })
    &&& game.screen_size == (Vector2 { x: 50, y: 20 })
    &&& game.screen_margins == (Vector2 { x: 5, y: 3 })
    &&& game.player.meta_data == GameObjectMetaData::INT(0)
    &&& (GameObject { meta_data: GameObjectMetaData::EMPTY, ..game.player }).made_of(
        "Player"@,
        start_cell(),
        "\u{2665}\u{fe0e}"@,
        GameObjectType::PLAYER,
        Rgb { r: 255, g: 0, b: 0 },
        GameObjectStats { strength: 1, agility: 1, max_health: 1 },
    )
    &&& game.map.map_size == (Vector2 { x: 500, y: 500 })
    &&& game.map.ground_icon == tinted("\u{25cb}"@, 0, 255, 0)
    &&& game.map.current_event_position == (Vector2 { x: 0, y: 0 })
    &&& texts(game.map.fight_selections@) == seq!["Fight"@, "Run"@]
    &&& game.map.current_fight_selection_index == 0
    &&& game.map.fight_move_queue == 0
    &&& forall|p: Vector2| #[trigger]
        game.map.index().contains_key(p) <==> p == block_cell() || p == enemy_cell() || p
            == talker_cell() || is_wall_cell(p)
    &&& game.map.index()[block_cell()].made_of(
        "Box"@,
        block_cell(),
        "1"@,
        GameObjectType::MOVEABLE,
        white(),
        no_stats(),
    )
    &&& is_enemy(game.map.index()[enemy_cell()])
    &&& is_talker(game.map.index()[talker_cell()])
    &&& forall|p: Vector2| #[trigger] is_wall_cell(p) ==> is_wall(game.map.index()[p], p)
    &&& forall|p: Vector2| #[trigger]
        game.map.ceiling_index().contains_key(p) <==> is_roofed_cell(p)
    &&& forall|p: Vector2| #[trigger]
        is_roofed_cell(p) ==> is_roof_tile(game.map.ceiling_index()[p], p)
    &&& forall|g: i32| #[trigger] game.map.ceiling_groups().contains_key(g) <==> g == 0
    &&& game.map.ceiling_groups()[0] == Seq::new(165, |i: int| roofed_cell(i))
}

/// Builds the starting world and starts a session in it.
pub fn bootstrap() -> (game: Game)
    ensures
        is_starting_world(&game),
{
    let mut fight_selections: Vec<String> = Vec::new();
    fight_selections.push(String::from_str("Fight"));
    fight_selections.push(String::from_str("Run"));
    assert(texts(fight_selections@) =~= seq!["Fight"@, "Run"@]);
    let mut map = GameMap::new(
        Vector2::new(500, 500),
        String::from_str("\u{25cb}"),
        Rgb::new(0, 255, 0),
        fight_selections,
    );

    let moveable_box = GameObject::new(
        String::from_str("Box"),
        Vector2::new(7, 3),
        String::from_str("1"),
        GameObjectType::MOVEABLE,
        Rgb::new(255, 255, 255),
        GameObjectStats::empty(),
    );
    let placed = map.insert_object(moveable_box);
    assert(placed is Ok);
    let placed = map.insert_object(make_enemy());
    assert(placed is Ok);
    let placed = map.insert_object(make_talker());
    assert(placed is Ok);
    let ghost furnished = map;
    assert forall|p: Vector2| is_wall_cell(p) implies !#[trigger] map.index().contains_key(p) by {}
    build_wall(&mut map);
    assert(map.ceiling_index() == Map::<Vector2, GameObject>::empty());
    hang_roof(&mut map);

    let player = GameObject::new(
        String::from_str("Player"),
        Vector2::new(6, 5),
        String::from_str("\u{2665}\u{fe0e}"),
        GameObjectType::PLAYER,
        Rgb::new(255, 0, 0),
        GameObjectStats::new(1, 1, 1),
    );
    proof {
        assert(furnished.index().contains_key(block_cell()));
        assert(furnished.index().contains_key(enemy_cell()));
        assert(furnished.index().contains_key(talker_cell()));
        assert(!is_wall_cell(start_cell()));
        assert(is_roofed_cell(start_cell()));
        assert(map.ceiling_index().contains_key(start_cell()));
    }
    let made = Game::new(
        player,
        map,
        Vector2::zero(),
        Vector2::new(50, 20),
        Vector2::new(5, 3),
    );
    made.unwrap()
}

} // verus!
