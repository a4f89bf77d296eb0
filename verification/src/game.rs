//! The session: the avatar, the map it walks on, the camera that follows it,
//! and the mode that decides what an input means.

use crate::game_object::{clamp_index, Event, EventType, GameObject, GameObjectMetaData, GameObjectType};
use crate::vector2::Vector2;
use crate::world_map::GameMap;
use vstd::prelude::*;

verus! {

/// What the session is doing, and so what an input means.
#[derive(Debug, Copy, Clone, PartialEq, Eq, Structural)]
pub enum GameState {
    /// Walking about.
    Normal,
    /// Talking: inputs move through a dialogue.
    Dialogue,
    /// Reserved: nothing leads here, and no input is taken.
    Cutscene,
    /// In combat: inputs move through the combat menu.
    Fight,
}

/// What the player can ask for in one tick.
#[derive(Debug, Copy, Clone, PartialEq, Eq, Structural)]
pub enum Command {
    Up,
    Down,
    Left,
    Right,
    /// "Confirm": talk to a neighbour, or take the chosen entry.
    Interact,
    Quit,
}

impl Command {
    /// The input that the command stands for: a step, `(0, 0)` for
    /// "confirm", nothing for "quit".
    pub open spec fn direction_spec(&self) -> Option<(i32, i32)> {
        match self {
            Command::Up => Some((0i32, -1i32)),
            Command::Down => Some((0i32, 1i32)),
            Command::Left => Some((-1i32, 0i32)),
            Command::Right => Some((1i32, 0i32)),
            Command::Interact => Some((0i32, 0i32)),
            Command::Quit => None,
        }
    }

    #[verifier::when_used_as_spec(direction_spec)]
    pub fn direction(&self) -> (input: Option<(i32, i32)>)
        ensures
            input == self.direction_spec(),
    {
        match self {
            Command::Up => Some((0, -1)),
            Command::Down => Some((0, 1)),
            Command::Left => Some((-1, 0)),
            Command::Right => Some((1, 0)),
            Command::Interact => Some((0, 0)),
            Command::Quit => None,
        }
    }
}

/// Where the camera stands on one axis after the avatar has stepped in
/// `direction` and arrived at `position`: one unit further in that direction
/// where the avatar has come within `margin` of the edge of the `extent`
/// that the camera shows, else where it stood.
pub open spec fn follow(camera: int, position: int, direction: int, margin: int, extent: int) -> int {
    if direction < 0 && position - camera < margin {
        camera - 1
    } else if direction > 0 && position - camera >= extent - margin {
        camera + 1
    } else {
        camera
    }
}

/// Computes [`follow`].
pub fn follow_axis(camera: i32, position: i32, direction: i32, margin: i32, extent: i32) -> (moved:
    i32)
    requires
        position >= 0,
        0 <= margin,
        2 * margin < extent,
    ensures
        moved == follow(camera as int, position as int, direction as int, margin as int, extent as int),
{
    let relative: i64 = position as i64 - camera as i64;
    if direction < 0 && relative < margin as i64 {
        camera - 1
    } else if direction > 0 && relative >= extent as i64 - margin as i64 {
        camera + 1
    } else {
        camera
    }
}

/// The mark that the avatar carries while it stands on `position`: the group
/// of the ceiling over that cell, or `EMPTY` under the open sky.
pub open spec fn overhead(map: &GameMap, position: Vector2) -> GameObjectMetaData {
    if map.ceiling_index().contains_key(position) {
        GameObjectMetaData::INT(map.ceiling_index()[position].ceiling_group_id)
    } else {
        GameObjectMetaData::EMPTY
    }
}

/// An attempt to run from a fight fails where the runner is no more agile
/// than the opponent and the draw, a number from 1 to 100, is above 35.
pub open spec fn flee_fails_spec(agility: usize, enemy_agility: usize, draw: int) -> bool {
    agility <= enemy_agility && draw > 35
}

/// Computes [`flee_fails_spec`].
pub fn flee_fails(agility: usize, enemy_agility: usize, draw: i32) -> (fails: bool)
    ensures
        fails == flee_fails_spec(agility, enemy_agility, draw as int),
{
    agility <= enemy_agility && draw > 35
}

/// What a dialogue makes of the input `(dx, dy)`: the interaction after it,
/// and whether the dialogue has ended.
pub open spec fn dialogue_reaction(event: Event, dx: int, dy: int) -> (Event, bool) {
    if dx == -1 {
        (event.moved_left(), false)
    } else if dx == 1 {
        (event.moved_right(), false)
    } else if dx == 0 && dy == 0 {
        match event.jump_target() {
            Some(target) => (event.moved_to(target), false),
            None => (event, true),
        }
    } else {
        (event, false)
    }
}

/// Draws a number with `rand::random_range` from the range `1..101`.
/// Trusted: the number lies in that range.
#[verifier::external_body]
fn roll_percent() -> (draw: i32)
    ensures
        1 <= draw <= 100,
{
    rand::random_range(1..101)
}

pub struct Game {
    pub player: GameObject,
    pub map: GameMap,
    pub camera: Vector2,
    pub screen_size: Vector2,
    pub screen_margins: Vector2,
    pub game_state: GameState,
}

impl Game {
    /// The margins leave a window in the middle of the screen.
    pub open spec fn viewport_wf(&self) -> bool {
        &&& 0 <= self.screen_margins.x
        &&& 2 * self.screen_margins.x < self.screen_size.x
        &&& 0 <= self.screen_margins.y
        &&& 2 * self.screen_margins.y < self.screen_size.y
    }

    /// The map and the avatar are sound, and the avatar shares its cell with
    /// no entity of the map.
    pub open spec fn wf(&self) -> bool {
        &&& self.map.wf()
        &&& self.player.wf()
        &&& !self.map.index().contains_key(self.player.position)
        &&& self.viewport_wf()
    }

    /// The spatial index of the whole session: each collidable entity, the
    /// avatar among them, under the cell it occupies.
    pub open spec fn spatial_index(&self) -> Map<Vector2, GameObject> {
        self.map.index().insert(self.player.position, self.player)
    }

    /// The session shows the world on a screen like that of `other`.
    pub open spec fn same_frame(&self, other: &Game) -> bool {
        &&& self.screen_size == other.screen_size
        &&& self.screen_margins == other.screen_margins
    }

    /// The map holds what the map of `other` holds, and is set as it is.
    pub open spec fn same_map(&self, other: &Game) -> bool {
        &&& self.map.index() == other.map.index()
        &&& self.map.ceiling_index() == other.map.ceiling_index()
        &&& self.map.ceiling_groups() == other.map.ceiling_groups()
        &&& self.map.same_settings(&other.map)
    }

    /// Nothing that can be observed of the session differs from `other`.
    pub open spec fn same_as(&self, other: &Game) -> bool {
        &&& self.player == other.player
        &&& self.same_map(other)
        &&& self.camera == other.camera
        &&& self.same_frame(other)
        &&& self.game_state == other.game_state
    }

    /// Starts a session in exploration. `None` where the avatar would share
    /// its cell with an entity of the map, or where the margins leave no
    /// window in the middle of the screen.
    pub fn new(
        player: GameObject,
        map: GameMap,
        camera: Vector2,
        screen_size: Vector2,
        screen_margins: Vector2,
    ) -> (made: Option<Game>)
        requires
            map.wf(),
            player.wf(),
        ensures
            made is Some <==> {
                &&& !map.index().contains_key(player.position)
                &&& 0 <= screen_margins.x
                &&& 2 * screen_margins.x < screen_size.x
                &&& 0 <= screen_margins.y
                &&& 2 * screen_margins.y < screen_size.y
            },
            made matches Some(game) ==> {
                &&& game.player == (GameObject {
                    meta_data: overhead(&map, player.position),
                    ..player
                })
                &&& game.map == map
                &&& game.camera == camera
                &&& game.screen_size == screen_size
                &&& game.screen_margins == screen_margins
                &&& game.game_state == GameState::Normal
                &&& game.wf()
            },
    {
        if map.is_position_occupied(&player.position) {
            return None;
        }
        if screen_margins.x < 0 || screen_margins.y < 0 {
            return None;
        }
        if screen_margins.x as i64 * 2 >= screen_size.x as i64 || screen_margins.y as i64 * 2
            >= screen_size.y as i64 {
            return None;
        }
        let mut game = Game {
            player,
            map,
            camera,
            screen_size,
            screen_margins,
            game_state: GameState::Normal,
        };
        game.refresh_overhead();
        Some(game)
    }

    /// Notes on the avatar which ceiling, if any, hangs over it.
    fn refresh_overhead(&mut self)
        ensures
            final(self).player == (GameObject {
                meta_data: overhead(&old(self).map, old(self).player.position),
                ..old(self).player
            }),
            final(self).map == old(self).map,
            final(self).camera == old(self).camera,
            final(self).screen_size == old(self).screen_size,
            final(self).screen_margins == old(self).screen_margins,
            final(self).game_state == old(self).game_state,
    {
        let mark = match self.map.get_ceiling_from_position(self.player.position) {
            Some(ceiling) => GameObjectMetaData::INT(ceiling.get_ceiling_group_id()),
            None => GameObjectMetaData::EMPTY,
        };
        self.player.meta_data = mark;
    }

    /// The cell that the avatar enters by the step `(dx, dy)`; `None` where
    /// the step is refused: the cell lies off the map, or an entity blocks it
    /// that cannot be pushed on.
    pub open spec fn destination(&self, dx: int, dy: int) -> Option<Vector2> {
        match self.player.position.offset(dx, dy) {
            Some(target) => {
                if self.map.out_of_bounds(target) {
                    None
                } else if !self.map.index().contains_key(target) {
                    Some(target)
                } else if self.map.index()[target].object_type == GameObjectType::MOVEABLE
                    && self.map.push_target(target, dx, dy).is_some() {
                    Some(target)
                } else {
                    None
                }
            },
            None => None,
        }
    }

    /// The spatial index of the map after the avatar's step `(dx, dy)`: as it
    /// was, but for a block that the avatar pushed one cell on.
    pub open spec fn index_after_step(&self, dx: int, dy: int) -> Map<Vector2, GameObject> {
        match self.destination(dx, dy) {
            Some(target) => if self.map.index().contains_key(target) {
                let beyond = self.map.push_target(target, dx, dy).unwrap();
                self.map.index().remove(target).insert(beyond, self.map.index()[target].at(beyond))
            } else {
                self.map.index()
            },
            None => self.map.index(),
        }
    }

    /// `post` is the session `self` after the avatar has tried the step
    /// `(dx, dy)`.
    pub open spec fn walked(&self, post: &Game, dx: int, dy: int) -> bool {
        match self.destination(dx, dy) {
            Some(target) => {
                &&& post.player == (GameObject {
                    position: target,
                    meta_data: overhead(&self.map, target),
                    ..self.player
                })
                &&& post.map.index() == self.index_after_step(dx, dy)
                &&& post.map.ceiling_index() == self.map.ceiling_index()
                &&& post.map.ceiling_groups() == self.map.ceiling_groups()
                &&& post.map.same_settings(&self.map)
                &&& post.camera == (Vector2 {
                    x: follow(
                        self.camera.x as int,
                        target.x as int,
                        dx,
                        self.screen_margins.x as int,
                        self.screen_size.x as int,
                    ) as i32,
                    y: follow(
                        self.camera.y as int,
                        target.y as int,
                        dy,
                        self.screen_margins.y as int,
                        self.screen_size.y as int,
                    ) as i32,
                })
                &&& post.same_frame(self)
                &&& post.game_state == self.game_state
            },
            None => post.same_as(self),
        }
    }

    /// Tries the step `(direction_x, direction_y)`: the avatar enters the
    /// next cell, pushing a block out of it where one stands there, or stays
    /// where it is and nothing changes.
    pub fn walk(&mut self, direction_x: i32, direction_y: i32)
        requires
            old(self).wf(),
            -1 <= direction_x <= 1,
            -1 <= direction_y <= 1,
        ensures
            old(self).walked(final(self), direction_x as int, direction_y as int),
            final(self).wf(),
    {
        let target = match self.player.position.checked_offset(direction_x, direction_y) {
            Some(target) => target,
            None => { return ; },
        };
        if self.map.is_out_of_bounds(target) {
            return ;
        }
        let blocker = match self.map.get_object_from_position(target) {
            Some(object) => Some(object.object_type),
            None => None,
        };
        match blocker {
            Some(GameObjectType::MOVEABLE) => {
                if !self.map.push_object(target, direction_x, direction_y) {
                    return ;
                }
            },
            Some(_) => { return ; },
            None => {},
        }
        self.player.position = target;
        self.refresh_overhead();
        self.camera.x = follow_axis(
            self.camera.x,
            target.x,
            direction_x,
            self.screen_margins.x,
            self.screen_size.x,
        );
        self.camera.y = follow_axis(
            self.camera.y,
            target.y,
            direction_y,
            self.screen_margins.y,
            self.screen_size.y,
        );
    }

    /// `post` is the session `self` but for the entity on `cell`, which has
    /// `event` in place of its current interaction.
    pub open spec fn event_replaced(&self, post: &Game, cell: Vector2, event: Event) -> bool {
        let before = self.map.index()[cell];
        &&& post.map.index() == self.map.index().insert(cell, post.map.index()[cell])
        &&& before.replaced_event(
            &post.map.index()[cell],
            before.current_event_index as int,
            event,
        )
    }

    /// `post` is the session `self` after "confirm" while exploring: the
    /// first neighbour with an interaction, if there is one, becomes the place
    /// of the current interaction, and the session enters the mode of that
    /// interaction with its cursor on the first entry. The avatar stays and
    /// looks up.
    pub open spec fn interacted(&self, post: &Game) -> bool {
        &&& post.player == (GameObject {
            meta_data: if self.map.out_of_bounds(self.player.position) {
                self.player.meta_data
            } else {
                overhead(&self.map, self.player.position)
            },
            ..self.player
        })
        &&& post.camera == self.camera
        &&& post.same_frame(self)
        &&& post.map.ceiling_index() == self.map.ceiling_index()
        &&& post.map.ceiling_groups() == self.map.ceiling_groups()
        &&& post.map.map_size == self.map.map_size
        &&& post.map.ground_icon == self.map.ground_icon
        &&& post.map.fight_selections == self.map.fight_selections
        &&& post.map.fight_move_queue == self.map.fight_move_queue
        &&& match self.map.event_neighbor(self.player.position) {
            Some(cell) => {
                let event = self.map.index()[cell].active_event();
                &&& post.map.current_event_position == cell
                &&& match event.event_type {
                    EventType::Dialogue => {
                        &&& self.event_replaced(post, cell, event.with_selection(0))
                        &&& post.map.current_fight_selection_index
                            == self.map.current_fight_selection_index
                        &&& post.game_state == GameState::Dialogue
                    },
                    EventType::Fight => {
                        &&& post.map.index() == self.map.index()
                        &&& post.map.current_fight_selection_index == 0
                        &&& post.game_state == GameState::Fight
                    },
                }
            },
            None => {
                &&& post.map.index() == self.map.index()
                &&& post.map.current_event_position == self.map.current_event_position
                &&& post.map.current_fight_selection_index
                    == self.map.current_fight_selection_index
                &&& post.game_state == self.game_state
            },
        }
    }

    /// `post` is the session `self` after the input `(dx, dy)` in a
    /// dialogue. Where the interaction is gone, the session goes back to
    /// exploring.
    pub open spec fn conversed(&self, post: &Game, dx: int, dy: int) -> bool {
        let cell = self.map.current_event_position;
        &&& post.player == self.player
        &&& post.camera == self.camera
        &&& post.same_frame(self)
        &&& post.map.ceiling_index() == self.map.ceiling_index()
        &&& post.map.ceiling_groups() == self.map.ceiling_groups()
        &&& post.map.same_settings(&self.map)
        &&& if self.map.has_event_at(Some(cell)) {
            let reaction = dialogue_reaction(self.map.index()[cell].active_event(), dx, dy);
            &&& self.event_replaced(post, cell, reaction.0)
            &&& post.game_state == if reaction.1 {
                GameState::Normal
            } else {
                GameState::Dialogue
            }
        } else {
            &&& post.map.index() == self.map.index()
            &&& post.game_state == GameState::Normal
        }
    }

    /// `post` is the session `self` after the input `(dx, dy)` in combat,
    /// where `draw` is the number drawn for an attempt to run. Where the
    /// opponent is gone, the session goes back to exploring.
    pub open spec fn fought(&self, post: &Game, dx: int, dy: int, draw: int) -> bool {
        let cell = self.map.current_event_position;
        let cursor = self.map.current_fight_selection_index;
        &&& post.player == self.player
        &&& post.camera == self.camera
        &&& post.same_frame(self)
        &&& post.map.index() == self.map.index()
        &&& post.map.ceiling_index() == self.map.ceiling_index()
        &&& post.map.ceiling_groups() == self.map.ceiling_groups()
        &&& post.map.map_size == self.map.map_size
        &&& post.map.ground_icon == self.map.ground_icon
        &&& post.map.current_event_position == self.map.current_event_position
        &&& post.map.fight_selections == self.map.fight_selections
        &&& if !self.map.index().contains_key(cell) {
            &&& post.map.current_fight_selection_index == cursor
            &&& post.map.fight_move_queue == self.map.fight_move_queue
            &&& post.game_state == GameState::Normal
        } else if dx == -1 || dx == 1 {
            &&& post.map.current_fight_selection_index == clamp_index(cursor + dx, 2)
            &&& post.map.fight_move_queue == self.map.fight_move_queue
            &&& post.game_state == GameState::Fight
        } else if dx == 0 && dy == 0 && cursor == 1 {
            let fails = flee_fails_spec(
                self.player.stat.agility,
                self.map.index()[cell].stat.agility,
                draw,
            );
            &&& post.map.current_fight_selection_index == cursor
            &&& post.map.fight_move_queue == if fails {
                1
            } else {
                self.map.fight_move_queue
            }
            &&& post.game_state == if fails {
                GameState::Fight
            } else {
                GameState::Normal
            }
        } else {
            &&& post.map.current_fight_selection_index == cursor
            &&& post.map.fight_move_queue == self.map.fight_move_queue
            &&& post.game_state == GameState::Fight
        }
    }

    /// `post` is the session `self` after the input `(dx, dy)`, where `draw`
    /// is the number drawn in case the input is an attempt to run from a
    /// fight.
    pub open spec fn stepped(&self, post: &Game, dx: int, dy: int, draw: int) -> bool {
        match self.game_state {
            GameState::Dialogue => self.conversed(post, dx, dy),
            GameState::Fight => self.fought(post, dx, dy, draw),
            GameState::Cutscene => post.same_as(self),
            GameState::Normal => if dx == 0 && dy == 0 {
                self.interacted(post)
            } else {
                self.walked(post, dx, dy)
            },
        }
    }

    /// Handles one input of a dialogue.
    fn converse(&mut self, direction_x: i32, direction_y: i32)
        requires
            old(self).wf(),
            old(self).game_state == GameState::Dialogue,
            -1 <= direction_x <= 1,
            -1 <= direction_y <= 1,
        ensures
            old(self).conversed(final(self), direction_x as int, direction_y as int),
            final(self).wf(),
    {
        let cell = self.map.current_event_position;
        let present = match self.map.get_object_from_position(cell) {
            Some(object) => object.has_event(),
            None => false,
        };
        if !present {
            self.game_state = GameState::Normal;
            return ;
        }
        let mut object = self.map.take_object(cell).unwrap();
        let ghost before = object;
        let active = object.current_event_index;
        let mut ended = false;
        if direction_x == -1 {
            object.events[active].select_previous();
        } else if direction_x == 1 {
            object.events[active].select_next();
        } else if direction_y == 0 {
            ended = !object.events[active].confirm();
        }
        proof {
            let reaction = dialogue_reaction(
                before.active_event(),
                direction_x as int,
                direction_y as int,
            );
            assert(object.events@ =~= before.events@.update(active as int, reaction.0));
            assert(ended == reaction.1);
        }
        let ghost after = object;
        let placed = self.map.insert_object(object);
        proof {
            assert(placed is Ok);
            assert(self.map.index() =~= old(self).map.index().insert(cell, after));
        }
        if ended {
            self.game_state = GameState::Normal;
        }
    }

    /// Handles one input of a fight; `draw` decides an attempt to run.
    fn fight(&mut self, direction_x: i32, direction_y: i32, draw: i32)
        requires
            old(self).wf(),
            old(self).game_state == GameState::Fight,
            -1 <= direction_x <= 1,
            -1 <= direction_y <= 1,
        ensures
            old(self).fought(final(self), direction_x as int, direction_y as int, draw as int),
            final(self).wf(),
    {
        let enemy_agility = match self.map.get_object_from_position(
            self.map.current_event_position,
        ) {
            Some(enemy) => enemy.stat.agility,
            None => {
                self.game_state = GameState::Normal;
                return ;
            },
        };
        if direction_x == -1 {
            self.map.current_fight_selection_index = 0;
        } else if direction_x == 1 {
            self.map.current_fight_selection_index = 1;
        } else if direction_y == 0 && self.map.current_fight_selection_index == 1 {
            if flee_fails(self.player.stat.agility, enemy_agility, draw) {
                self.map.fight_move_queue = 1;
            } else {
                self.game_state = GameState::Normal;
            }
        }
        proof {
            GameMap::lemma_contents(&self.map, &old(self).map);
        }
    }

    /// Handles "confirm" while exploring.
    fn interact(&mut self)
        requires
            old(self).wf(),
            old(self).game_state == GameState::Normal,
        ensures
            old(self).interacted(final(self)),
            final(self).wf(),
    {
        let kind = match self.map.get_if_there_is_event_at_this_position(self.player.position) {
            Some(event) => Some(event.event_type),
            None => None,
        };
        match kind {
            Some(EventType::Dialogue) => {
                let cell = self.map.current_event_position;
                let mut object = self.map.take_object(cell).unwrap();
                let ghost before = object;
                let active = object.current_event_index;
                object.events[active].reset_selection();
                let ghost after = object;
                let placed = self.map.insert_object(object);
                proof {
                    assert(placed is Ok);
                    assert(self.map.index() =~= old(self).map.index().insert(cell, after));
                }
                self.game_state = GameState::Dialogue;
            },
            Some(EventType::Fight) => {
                let ghost found = self.map;
                self.map.current_fight_selection_index = 0;
                self.game_state = GameState::Fight;
                proof {
                    GameMap::lemma_contents(&self.map, &found);
                }
            },
            None => {},
        }
        self.walk(0, 0);
    }

    /// Handles one input, `draw` standing for the number that an attempt to
    /// run from a fight draws: a step, or `(0, 0)` for "confirm".
    pub fn apply_input(&mut self, direction_x: i32, direction_y: i32, draw: i32)
        requires
            old(self).wf(),
            -1 <= direction_x <= 1,
            -1 <= direction_y <= 1,
        ensures
            old(self).stepped(final(self), direction_x as int, direction_y as int, draw as int),
            final(self).wf(),
    {
        match self.game_state {
            GameState::Dialogue => self.converse(direction_x, direction_y),
            GameState::Fight => self.fight(direction_x, direction_y, draw),
            GameState::Cutscene => {},
            GameState::Normal => {
                if direction_x == 0 && direction_y == 0 {
                    self.interact();
                } else {
                    self.walk(direction_x, direction_y);
                }
            },
        }
    }

    /// The input `(dx, dy)` is an attempt to run from a fight whose outcome
    /// hangs on a draw: the opponent is at least as agile as the avatar.
    pub open spec fn awaits_draw_spec(&self, dx: int, dy: int) -> bool {
        &&& self.game_state == GameState::Fight
        &&& dx == 0
        &&& dy == 0
        &&& self.map.current_fight_selection_index == 1
        &&& self.map.index().contains_key(self.map.current_event_position)
        &&& self.player.stat.agility
            <= self.map.index()[self.map.current_event_position].stat.agility
    }

    /// Computes [`Game::awaits_draw_spec`].
    pub fn awaits_draw(&self, direction_x: i32, direction_y: i32) -> (awaited: bool)
        ensures
            awaited == self.awaits_draw_spec(direction_x as int, direction_y as int),
    {
        if self.game_state != GameState::Fight || direction_x != 0 || direction_y != 0
            || self.map.current_fight_selection_index != 1 {
            return false;
        }
        match self.map.get_object_from_position(self.map.current_event_position) {
            Some(enemy) => self.player.stat.agility <= enemy.stat.agility,
            None => false,
        }
    }

    /// Handles one input: a step, or `(0, 0)` for "confirm". Where the input
    /// is an attempt to run whose outcome is open, a number from 1 to 100 is
    /// drawn to decide it.
    pub fn process_input(&mut self, direction_x: i32, direction_y: i32)
        requires
            old(self).wf(),
            -1 <= direction_x <= 1,
            -1 <= direction_y <= 1,
        ensures
            exists|draw: int|
                1 <= draw <= 100 && #[trigger] old(self).stepped(
                    final(self),
                    direction_x as int,
                    direction_y as int,
                    draw,
                ),
            !old(self).awaits_draw_spec(direction_x as int, direction_y as int) ==> forall|
                draw: int,
            | #[trigger]
                old(self).stepped(final(self), direction_x as int, direction_y as int, draw),
            final(self).wf(),
    {
        let draw: i32 = if self.awaits_draw(direction_x, direction_y) {
            roll_percent()
        } else {
            1
        };
        self.apply_input(direction_x, direction_y, draw);
    }

    /// One tick of the session: handles the command that has arrived, if
    /// one has, and says whether the session goes on. "Quit" ends it and
    /// changes nothing; no command changes nothing.
    pub fn tick(&mut self, command: Option<Command>) -> (running: bool)
        requires
            old(self).wf(),
        ensures
            running == !(command == Some(Command::Quit)),
            match command {
                Some(asked) => match asked.direction_spec() {
                    Some(input) => exists|draw: int|
                        1 <= draw <= 100 && #[trigger] old(self).stepped(
                            final(self),
                            input.0 as int,
                            input.1 as int,
                            draw,
                        ),
                    None => *final(self) == *old(self),
                },
                None => *final(self) == *old(self),
            },
            final(self).wf(),
    {
        match command {
            Some(asked) => match asked.direction() {
                Some(input) => {
                    self.process_input(input.0, input.1);
                    true
                },
                None => false,
            },
            None => true,
        }
    }
}

} // verus!
