//! What holds of every session, whatever is put in.

use crate::game::{dialogue_reaction, Game, GameState};
use crate::game_object::{Event, EventType, GameObjectType};
use crate::vector2::Vector2;
use vstd::prelude::*;

verus! {

/// `states` are the sessions that a first session goes through under the
/// inputs `inputs`, each a step `(dx, dy)` with the number drawn for it.
pub open spec fn is_run(states: Seq<Game>, inputs: Seq<(int, int, int)>) -> bool {
    &&& states.len() == inputs.len() + 1
    &&& forall|i: int|
        0 <= i < inputs.len() ==> {
            &&& -1 <= (#[trigger] inputs[i]).0 <= 1
            &&& -1 <= inputs[i].1 <= 1
            &&& states[i].stepped(&states[i + 1], inputs[i].0, inputs[i].1, inputs[i].2)
        }
}

/// Putting a sound interaction in the place of an entity's current one
/// leaves the spatial index sound.
proof fn lemma_event_replaced_keeps_wf(pre: &Game, post: &Game, cell: Vector2, event: Event)
    requires
        pre.map.index_wf(),
        pre.map.has_event_at(Some(cell)),
        pre.event_replaced(post, cell, event),
        event.wf(),
    ensures
        post.map.index_wf(),
        post.map.index().dom() =~= pre.map.index().dom(),
{
    let before = pre.map.index()[cell];
    let after = post.map.index()[cell];
    assert(pre.map.index().contains_key(cell));
    assert forall|p: Vector2| #[trigger] post.map.index().contains_key(p) implies {
        &&& post.map.index()[p].position == p
        &&& post.map.index()[p].object_type != GameObjectType::CEILING
        &&& post.map.index()[p].wf()
    } by {
        if p == cell {
            assert forall|i: int| 0 <= i < after.events@.len() implies (
            #[trigger] after.events@[i]).wf() by {
                if i != before.current_event_index as int {
                    assert(before.events@[i].wf());
                }
            }
        } else {
            assert(pre.map.index().contains_key(p));
        }
    }
}

/// An input leaves a sound session sound.
pub proof fn lemma_step_keeps_wf(pre: &Game, post: &Game, dx: int, dy: int, draw: int)
    requires
        pre.wf(),
        -1 <= dx <= 1,
        -1 <= dy <= 1,
        pre.stepped(post, dx, dy, draw),
    ensures
        post.wf(),
{
    let cell = pre.map.current_event_position;
    match pre.game_state {
        GameState::Dialogue => {
            if pre.map.has_event_at(Some(cell)) {
                let event = pre.map.index()[cell].active_event();
                assert(event.wf());
                lemma_event_replaced_keeps_wf(
                    pre,
                    post,
                    cell,
                    dialogue_reaction(event, dx, dy).0,
                );
            }
        },
        GameState::Fight => {},
        GameState::Cutscene => {},
        GameState::Normal => {
            if dx == 0 && dy == 0 {
                pre.map.lemma_event_neighbor_is_first(pre.player.position, 0);
                match pre.map.event_neighbor(pre.player.position) {
                    Some(found) => {
                        let event = pre.map.index()[found].active_event();
                        assert(event.wf());
                        if event.event_type == EventType::Dialogue {
                            lemma_event_replaced_keeps_wf(pre, post, found, event.with_selection(0));
                        }
                    },
                    None => {},
                }
            } else {
                match pre.destination(dx, dy) {
                    Some(target) => {
                        if pre.map.index().contains_key(target) {
                            let beyond = pre.map.push_target(target, dx, dy).unwrap();
                            assert forall|p: Vector2| #[trigger]
                                post.map.index().contains_key(p) implies {
                                &&& post.map.index()[p].position == p
                                &&& post.map.index()[p].object_type != GameObjectType::CEILING
                                &&& post.map.index()[p].wf()
                            } by {
                                if p != beyond {
                                    assert(pre.map.index().contains_key(p));
                                }
                            }
                        }
                    },
                    None => {},
                }
            }
        },
    }
}

/// A sound session stays sound under any sequence of inputs.
pub proof fn lemma_run_keeps_wf(states: Seq<Game>, inputs: Seq<(int, int, int)>, at: int)
    requires
        is_run(states, inputs),
        states[0].wf(),
        0 <= at < states.len(),
    ensures
        states[at].wf(),
    decreases at,
{
    if at > 0 {
        lemma_run_keeps_wf(states, inputs, at - 1);
        let input = inputs[at - 1];
        lemma_step_keeps_wf(&states[at - 1], &states[at], input.0, input.1, input.2);
    }
}

/// In a sound session no cell holds two collidable entities: each entity of
/// the spatial index, the avatar among them, is found under the cell that it
/// stands on, so two of them never stand on one cell, and the avatar stands
/// on a cell that no entity of the map blocks.
pub proof fn lemma_one_entity_per_cell(game: &Game)
    requires
        game.wf(),
    ensures
        forall|c: Vector2| #[trigger]
            game.spatial_index().contains_key(c) ==> game.spatial_index()[c].position == c,
        forall|a: Vector2, b: Vector2|
            game.spatial_index().contains_key(a) && game.spatial_index().contains_key(b) && a != b
                ==> (#[trigger] game.spatial_index()[a]).position != (
            #[trigger] game.spatial_index()[b]).position,
        !game.map.index().contains_key(game.player.position),
        game.map.index() == game.spatial_index().remove(game.player.position),
{
    assert forall|c: Vector2| #[trigger] game.spatial_index().contains_key(c) implies game.spatial_index()[c].position
        == c by {
        if c != game.player.position {
            assert(game.map.index().contains_key(c));
        }
    }
    assert(game.map.index() =~= game.spatial_index().remove(game.player.position));
}

/// No cell holds two collidable entities at any time: what
/// [`lemma_one_entity_per_cell`] says of a sound session holds after every
/// sequence of inputs.
pub proof fn lemma_one_entity_per_cell_throughout(
    states: Seq<Game>,
    inputs: Seq<(int, int, int)>,
    at: int,
)
    requires
        is_run(states, inputs),
        states[0].wf(),
        0 <= at < states.len(),
    ensures
        forall|c: Vector2| #[trigger]
            states[at].spatial_index().contains_key(c) ==> states[at].spatial_index()[c].position
                == c,
        !states[at].map.index().contains_key(states[at].player.position),
{
    lemma_run_keeps_wf(states, inputs, at);
    lemma_one_entity_per_cell(&states[at]);
}

/// A push is made whole or not at all. Where the avatar steps against an
/// entity while exploring, either the entity is a block with a free cell of
/// the map behind it, and the block goes to that cell while the avatar takes
/// the block's; or nobody moves, and the spatial index is as it was.
/// Whichever it is, every other entity stays where it stood.
pub proof fn lemma_push_is_atomic(pre: &Game, post: &Game, dx: int, dy: int, draw: int)
    requires
        pre.wf(),
        pre.game_state == GameState::Normal,
        -1 <= dx <= 1,
        -1 <= dy <= 1,
        !(dx == 0 && dy == 0),
        pre.stepped(post, dx, dy, draw),
        pre.player.position.offset(dx, dy) matches Some(target) && pre.map.index().contains_key(
            target,
        ),
    ensures
        ({
            let target = pre.player.position.offset(dx, dy).unwrap();
            let block = pre.map.index()[target];
            let pushed = {
                &&& block.object_type == GameObjectType::MOVEABLE
                &&& !pre.map.out_of_bounds(target)
                &&& target.offset(dx, dy) matches Some(beyond) && {
                    &&& !pre.map.out_of_bounds(beyond)
                    &&& !pre.map.index().contains_key(beyond)
                }
            };
            &&& pushed ==> {
                let beyond = target.offset(dx, dy).unwrap();
                &&& post.player.position == target
                &&& !post.map.index().contains_key(target)
                &&& post.map.index().contains_key(beyond)
                &&& post.map.index()[beyond] == block.at(beyond)
                &&& forall|c: Vector2|
                    c != target && c != beyond ==> {
                        &&& #[trigger] post.map.index().contains_key(c)
                            == pre.map.index().contains_key(c)
                        &&& post.map.index().contains_key(c) ==> post.map.index()[c]
                            == pre.map.index()[c]
                    }
            }
            &&& !pushed ==> {
                &&& post.player.position == pre.player.position
                &&& post.map.index() == pre.map.index()
            }
        }),
{
}

/// A step off the map moves nobody: in whatever mode the input arrives, the
/// avatar and every entity of the spatial index stand where they stood.
pub proof fn lemma_step_off_the_map_moves_nobody(
    pre: &Game,
    post: &Game,
    dx: int,
    dy: int,
    draw: int,
)
    requires
        pre.wf(),
        -1 <= dx <= 1,
        -1 <= dy <= 1,
        pre.stepped(post, dx, dy, draw),
        match pre.player.position.offset(dx, dy) {
            Some(target) => pre.map.out_of_bounds(target),
            None => true,
        },
    ensures
        post.player.position == pre.player.position,
        forall|c: Vector2| #[trigger]
            post.map.index().contains_key(c) == pre.map.index().contains_key(c),
        forall|c: Vector2| #[trigger]
            post.map.index().contains_key(c) ==> post.map.index()[c].position
                == pre.map.index()[c].position,
        !(dx == 0 && dy == 0) && pre.game_state == GameState::Normal ==> post.same_as(pre),
{
    lemma_step_keeps_wf(pre, post, dx, dy, draw);
    assert forall|c: Vector2| #[trigger]
        post.map.index().contains_key(c) == pre.map.index().contains_key(c) by {
        lemma_same_cells(pre, post, dx, dy, draw);
    }
    assert forall|c: Vector2| #[trigger] post.map.index().contains_key(c) implies post.map.index()[c].position
        == pre.map.index()[c].position by {
        lemma_same_cells(pre, post, dx, dy, draw);
        assert(pre.map.index().contains_key(c));
    }
}

/// Unless the avatar pushes a block, an input leaves the same cells
/// occupied.
proof fn lemma_same_cells(pre: &Game, post: &Game, dx: int, dy: int, draw: int)
    requires
        pre.wf(),
        -1 <= dx <= 1,
        -1 <= dy <= 1,
        pre.stepped(post, dx, dy, draw),
        pre.game_state == GameState::Normal && !(dx == 0 && dy == 0) ==> pre.destination(dx, dy)
            is None,
    ensures
        post.map.index().dom() =~= pre.map.index().dom(),
{
    let cell = pre.map.current_event_position;
    match pre.game_state {
        GameState::Dialogue => {
            if pre.map.has_event_at(Some(cell)) {
                let event = pre.map.index()[cell].active_event();
                assert(event.wf());
                lemma_event_replaced_keeps_wf(
                    pre,
                    post,
                    cell,
                    dialogue_reaction(event, dx, dy).0,
                );
            }
        },
        GameState::Fight => {},
        GameState::Cutscene => {},
        GameState::Normal => {
            if dx == 0 && dy == 0 {
                pre.map.lemma_event_neighbor_is_first(pre.player.position, 0);
                match pre.map.event_neighbor(pre.player.position) {
                    Some(found) => {
                        let event = pre.map.index()[found].active_event();
                        assert(event.wf());
                        if event.event_type == EventType::Dialogue {
                            lemma_event_replaced_keeps_wf(pre, post, found, event.with_selection(0));
                        }
                    },
                    None => {},
                }
            }
        },
    }
}

/// In a sound session both cursors of every dialogue point into what they
/// index: the node cursor at a node (0 where there is none), the choice
/// cursor at a choice of that node (0 where it has none).
pub proof fn lemma_dialogue_cursors_in_range(game: &Game, cell: Vector2, which: int)
    requires
        game.wf(),
        game.map.index().contains_key(cell),
        0 <= which < game.map.index()[cell].events@.len(),
    ensures
        ({
            let event = game.map.index()[cell].events@[which];
            let nodes = event.dialogues@.len();
            let choices = event.choice_count();
            &&& nodes == 0 ==> event.current_dialogue_index == 0
            &&& nodes > 0 ==> event.current_dialogue_index < nodes
            &&& choices == 0 ==> event.current_dialogue_selection_index == 0
            &&& choices > 0 ==> event.current_dialogue_selection_index < choices
        }),
{
    assert(game.map.index()[cell].wf());
    assert(game.map.index()[cell].events@[which].wf());
}

/// The cursors of every dialogue stay in range under any sequence of
/// inputs.
pub proof fn lemma_dialogue_cursors_in_range_throughout(
    states: Seq<Game>,
    inputs: Seq<(int, int, int)>,
    at: int,
    cell: Vector2,
    which: int,
)
    requires
        is_run(states, inputs),
        states[0].wf(),
        0 <= at < states.len(),
        states[at].map.index().contains_key(cell),
        0 <= which < states[at].map.index()[cell].events@.len(),
    ensures
        states[at].map.index()[cell].events@[which].cursors_valid(),
        ({
            let event = states[at].map.index()[cell].events@[which];
            &&& event.choice_count() == 0 ==> event.current_dialogue_selection_index == 0
            &&& event.choice_count() > 0 ==> event.current_dialogue_selection_index
                < event.choice_count()
        }),
{
    lemma_run_keeps_wf(states, inputs, at);
    lemma_dialogue_cursors_in_range(&states[at], cell, which);
}

/// The cursor of the combat menu stays on one of its two entries under any
/// sequence of inputs.
pub proof fn lemma_fight_cursor_in_range_throughout(
    states: Seq<Game>,
    inputs: Seq<(int, int, int)>,
    at: int,
)
    requires
        is_run(states, inputs),
        states[0].wf(),
        0 <= at < states.len(),
    ensures
        states[at].map.current_fight_selection_index == 0
            || states[at].map.current_fight_selection_index == 1,
{
    lemma_run_keeps_wf(states, inputs, at);
}

/// The camera moves with the avatar and by one unit at most: on each axis
/// it goes one unit the avatar's way where the avatar, exploring, has made a
/// step that brought it within the margin of the screen's edge on that side,
/// and else it stands.
pub proof fn lemma_camera_follows_by_one(pre: &Game, post: &Game, dx: int, dy: int, draw: int)
    requires
        pre.wf(),
        -1 <= dx <= 1,
        -1 <= dy <= 1,
        pre.stepped(post, dx, dy, draw),
    ensures
        ({
            let walks = pre.game_state == GameState::Normal && pre.destination(dx, dy) is Some;
            let near_x = (dx < 0 && post.player.position.x - pre.camera.x < pre.screen_margins.x)
                || (dx > 0 && post.player.position.x - pre.camera.x >= pre.screen_size.x
                - pre.screen_margins.x);
            let near_y = (dy < 0 && post.player.position.y - pre.camera.y < pre.screen_margins.y)
                || (dy > 0 && post.player.position.y - pre.camera.y >= pre.screen_size.y
                - pre.screen_margins.y);
            &&& post.camera.x - pre.camera.x == if walks && near_x {
                dx
            } else {
                0
            }
            &&& post.camera.y - pre.camera.y == if walks && near_y {
                dy
            } else {
                0
            }
        }),
        -1 <= post.camera.x - pre.camera.x <= 1,
        -1 <= post.camera.y - pre.camera.y <= 1,
{
}

/// The number drawn decides nothing but an attempt to run whose outcome is
/// open: for every other input, what follows the input is the same whatever
/// is drawn.
pub proof fn lemma_draw_decides_only_an_open_run(
    pre: &Game,
    post: &Game,
    dx: int,
    dy: int,
    first: int,
    second: int,
)
    requires
        !pre.awaits_draw_spec(dx, dy),
    ensures
        pre.stepped(post, dx, dy, first) == pre.stepped(post, dx, dy, second),
{
}

/// Who runs from a slower opponent gets away, whatever is drawn; and so
/// does anybody for whom 35 or less is drawn. The session goes back to
/// exploring, and no move of the opponent is queued.
pub proof fn lemma_runner_escapes(pre: &Game, post: &Game, draw: int)
    requires
        pre.game_state == GameState::Fight,
        pre.map.current_fight_selection_index == 1,
        pre.map.index().contains_key(pre.map.current_event_position),
        pre.player.stat.agility > pre.map.index()[pre.map.current_event_position].stat.agility
            || draw <= 35,
        pre.stepped(post, 0, 0, draw),
    ensures
        post.game_state == GameState::Normal,
        post.map.fight_move_queue == pre.map.fight_move_queue,
        post.player == pre.player,
        post.map.index() == pre.map.index(),
{
}

} // verus!
