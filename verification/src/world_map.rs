//! The bounded map: which entity stands where, which ceilings hang where,
//! and which ceilings belong together.

use crate::game_object::{Event, GameObject, GameObjectType};
use crate::paint::{tint, tinted, Rgb};
use crate::vector2::Vector2;
use colored::ColoredString;
use std::collections::HashMap;
use vstd::prelude::*;

verus! {

broadcast use vstd::std_specs::hash::group_hash_axioms;

/// Why an entity was not placed on the map.
#[derive(Debug, Copy, Clone, PartialEq, Eq, Structural)]
pub enum InsertError {
    /// The cell already holds an entity of the same layer.
    OccupiedCell,
    /// Something that is no ceiling was offered as one.
    NotACeiling,
    /// The ceiling has not been given a group (its group id is negative).
    InvalidCeilingGroup,
}

/// The displacement from a cell to its `k`-th neighbour, the eight of them
/// counted row by row and the cell itself left out.
pub open spec fn neighbor_offset(k: int) -> (int, int) {
    let cell = if k < 4 {
        k
    } else {
        k + 1
    };
    (cell % 3 - 1, cell / 3 - 1)
}

pub struct GameMap {
    pub map_size: Vector2,
    pub objects: HashMap<u64, GameObject>,
    pub ceilings: HashMap<u64, GameObject>,
    pub ceiling_keys: HashMap<i32, Vec<Vector2>>,
    pub ground_icon: ColoredString,
    pub current_event_position: Vector2,
    pub fight_selections: Vec<String>,
    pub current_fight_selection_index: usize,
    pub fight_move_queue: usize,
}

impl GameMap {
    /// The spatial index: the entity that blocks each occupied cell.
    pub closed spec fn index(&self) -> Map<Vector2, GameObject> {
        Map::new(
            |p: Vector2| self.objects@.contains_key(p.key()),
            |p: Vector2| self.objects@[p.key()],
        )
    }

    /// The ceiling that hangs over each covered cell.
    pub closed spec fn ceiling_index(&self) -> Map<Vector2, GameObject> {
        Map::new(
            |p: Vector2| self.ceilings@.contains_key(p.key()),
            |p: Vector2| self.ceilings@[p.key()],
        )
    }

    /// The cells of each ceiling group, in the order in which they came.
    pub closed spec fn ceiling_groups(&self) -> Map<i32, Seq<Vector2>> {
        Map::new(|g: i32| self.ceiling_keys@.contains_key(g), |g: i32| self.ceiling_keys@[g]@)
    }

    /// The map's own attributes, apart from what stands and hangs on it, are
    /// those of `other`.
    pub open spec fn same_settings(&self, other: &GameMap) -> bool {
        &&& self.map_size == other.map_size
        &&& self.ground_icon == other.ground_icon
        &&& self.current_event_position == other.current_event_position
        &&& self.fight_selections == other.fight_selections
        &&& self.current_fight_selection_index == other.current_fight_selection_index
        &&& self.fight_move_queue == other.fight_move_queue
    }

    /// Each entity knows the cell it stands on, no ceiling blocks a cell.
    pub open spec fn index_wf(&self) -> bool {
        forall|p: Vector2| #[trigger]
            self.index().contains_key(p) ==> {
                &&& self.index()[p].position == p
                &&& self.index()[p].object_type != GameObjectType::CEILING
                &&& self.index()[p].wf()
            }
    }

    /// Each ceiling knows its cell and is listed once under its group, and
    /// the groups list nothing else.
    pub open spec fn ceilings_wf(&self) -> bool {
        &&& forall|p: Vector2| #[trigger]
            self.ceiling_index().contains_key(p) ==> {
                let ceiling = self.ceiling_index()[p];
                &&& ceiling.position == p
                &&& ceiling.object_type == GameObjectType::CEILING
                &&& ceiling.ceiling_group_id >= 0
                &&& self.ceiling_groups().contains_key(ceiling.ceiling_group_id)
                &&& self.ceiling_groups()[ceiling.ceiling_group_id].contains(p)
            }
        &&& forall|g: i32, i: int|
            self.ceiling_groups().contains_key(g) && 0 <= i < self.ceiling_groups()[g].len() ==> {
                let p = #[trigger] self.ceiling_groups()[g][i];
                &&& self.ceiling_index().contains_key(p)
                &&& self.ceiling_index()[p].ceiling_group_id == g
            }
        &&& forall|g: i32, i: int, j: int|
            self.ceiling_groups().contains_key(g) && 0 <= i < j < self.ceiling_groups()[g].len()
                ==> #[trigger] self.ceiling_groups()[g][i] != #[trigger] self.ceiling_groups()[g][j]
    }

    pub open spec fn wf(&self) -> bool {
        &&& self.index_wf()
        &&& self.ceilings_wf()
        &&& self.current_fight_selection_index <= 1
    }

    /// What stands and hangs on a map is a matter of its three collections
    /// alone.
    pub proof fn lemma_contents(a: &GameMap, b: &GameMap)
        requires
            a.objects == b.objects,
            a.ceilings == b.ceilings,
            a.ceiling_keys == b.ceiling_keys,
        ensures
            a.index() == b.index(),
            a.ceiling_index() == b.ceiling_index(),
            a.ceiling_groups() == b.ceiling_groups(),
    {
    }

    /// An empty map of the given extent.
    pub fn new(
        _map_size: Vector2,
        _ground_icon: String,
        _ground_color: Rgb,
        _fight_selections: Vec<String>,
    ) -> (map: Self)
        ensures
            map.map_size == _map_size,
            map.index() == Map::<Vector2, GameObject>::empty(),
            map.ceiling_index() == Map::<Vector2, GameObject>::empty(),
            map.ceiling_groups() == Map::<i32, Seq<Vector2>>::empty(),
            map.ground_icon == tinted(_ground_icon@, _ground_color.r, _ground_color.g, _ground_color.b),
            map.current_event_position == (Vector2 { x: 0, y: 0 }),
            map.fight_selections == _fight_selections,
            map.current_fight_selection_index == 0,
            map.fight_move_queue == 0,
            map.wf(),
    {
        let map = Self {
            map_size: _map_size,
            objects: HashMap::new(),
            ceilings: HashMap::new(),
            ceiling_keys: HashMap::new(),
            ground_icon: tint(_ground_icon.as_str(), _ground_color),
            current_event_position: Vector2::zero(),
            fight_selections: _fight_selections,
            current_fight_selection_index: 0,
            fight_move_queue: 0,
        };
        proof {
            assert(map.index() =~= Map::<Vector2, GameObject>::empty());
            assert(map.ceiling_index() =~= Map::<Vector2, GameObject>::empty());
            assert(map.ceiling_groups() =~= Map::<i32, Seq<Vector2>>::empty());
        }
        map
    }

    /// A coordinate is out of bounds where an axis is negative or beyond the
    /// map's extent; the extent itself is within.
    pub open spec fn out_of_bounds(&self, position: Vector2) -> bool {
        ||| position.x < 0
        ||| position.x > self.map_size.x
        ||| position.y < 0
        ||| position.y > self.map_size.y
    }

    pub fn is_out_of_bounds(&self, next_position: Vector2) -> (out: bool)
        ensures
            out == self.out_of_bounds(next_position),
    {
        next_position.x < 0 || next_position.x > self.map_size.x || next_position.y < 0
            || next_position.y > self.map_size.y
    }

    pub fn is_position_occupied(&self, position: &Vector2) -> (occupied: bool)
        ensures
            occupied == self.index().contains_key(*position),
    {
        self.objects.contains_key(&position.to_key())
    }

    /// The entity that blocks `position`, if any.
    pub fn get_object_from_position(&self, position: Vector2) -> (found: Option<&GameObject>)
        ensures
            found == (if self.index().contains_key(position) {
                Some(&self.index()[position])
            } else {
                None
            }),
    {
        self.objects.get(&position.to_key())
    }

    /// Whether a ceiling offered for placement is taken, and if not, why.
    pub open spec fn ceiling_verdict(&self, object: &GameObject) -> Result<(), InsertError> {
        if self.ceiling_index().contains_key(object.position) {
            Err(InsertError::OccupiedCell)
        } else if object.object_type != GameObjectType::CEILING {
            Err(InsertError::NotACeiling)
        } else if object.ceiling_group_id < 0 {
            Err(InsertError::InvalidCeilingGroup)
        } else {
            Ok(())
        }
    }

    /// Whether an entity offered for placement is taken, and if not, why.
    pub open spec fn insert_verdict(&self, object: &GameObject) -> Result<(), InsertError> {
        if object.object_type == GameObjectType::CEILING {
            self.ceiling_verdict(object)
        } else if self.index().contains_key(object.position) {
            Err(InsertError::OccupiedCell)
        } else {
            Ok(())
        }
    }

    /// The cells listed under ceiling group `group`; none where the group is
    /// unknown.
    pub open spec fn group_cells(&self, group: i32) -> Seq<Vector2> {
        if self.ceiling_groups().contains_key(group) {
            self.ceiling_groups()[group]
        } else {
            Seq::empty()
        }
    }

    /// Places `object` on its cell: a ceiling among the ceilings, anything
    /// else in the spatial index. A cell that is taken stays as it is.
    pub fn insert_object(&mut self, object: GameObject) -> (outcome: Result<(), InsertError>)
        requires
            old(self).wf(),
            object.wf(),
        ensures
            outcome == old(self).insert_verdict(&object),
            outcome is Ok && object.object_type != GameObjectType::CEILING ==> {
                &&& final(self).index() == old(self).index().insert(object.position, object)
                &&& final(self).ceiling_index() == old(self).ceiling_index()
                &&& final(self).ceiling_groups() == old(self).ceiling_groups()
            },
            outcome is Ok && object.object_type == GameObjectType::CEILING ==> {
                &&& final(self).index() == old(self).index()
                &&& final(self).ceiling_index() == old(self).ceiling_index().insert(
                    object.position,
                    object,
                )
                &&& final(self).ceiling_groups() == old(self).ceiling_groups().insert(
                    object.ceiling_group_id,
                    old(self).group_cells(object.ceiling_group_id).push(object.position),
                )
            },
            outcome is Err ==> {
                &&& final(self).index() == old(self).index()
                &&& final(self).ceiling_index() == old(self).ceiling_index()
                &&& final(self).ceiling_groups() == old(self).ceiling_groups()
            },
            final(self).same_settings(old(self)),
            final(self).wf(),
    {
        if object.object_type == GameObjectType::CEILING {
            return self.insert_ceiling(object);
        }
        let key = object.position.to_key();
        if self.objects.contains_key(&key) {
            return Err(InsertError::OccupiedCell);
        }
        let ghost placed = object;
        self.objects.insert(key, object);
        proof {
            assert(self.index() =~= old(self).index().insert(placed.position, placed));
        }
        Ok(())
    }

    /// Hangs the ceiling `object` over its cell and lists the cell under the
    /// ceiling's group.
    pub fn insert_ceiling(&mut self, object: GameObject) -> (outcome: Result<(), InsertError>)
        requires
            old(self).wf(),
        ensures
            outcome == old(self).ceiling_verdict(&object),
            outcome is Ok ==> {
                &&& final(self).ceiling_index() == old(self).ceiling_index().insert(
                    object.position,
                    object,
                )
                &&& final(self).ceiling_groups() == old(self).ceiling_groups().insert(
                    object.ceiling_group_id,
                    old(self).group_cells(object.ceiling_group_id).push(object.position),
                )
            },
            outcome is Err ==> {
                &&& final(self).ceiling_index() == old(self).ceiling_index()
                &&& final(self).ceiling_groups() == old(self).ceiling_groups()
            },
            final(self).index() == old(self).index(),
            final(self).same_settings(old(self)),
            final(self).wf(),
    {
        let object_key = object.position;
        let key = object_key.to_key();
        if self.ceilings.contains_key(&key) {
            return Err(InsertError::OccupiedCell);
        }
        if object.object_type != GameObjectType::CEILING {
            return Err(InsertError::NotACeiling);
        }
        if object.get_ceiling_group_id() < 0 {
            return Err(InsertError::InvalidCeilingGroup);
        }
        let group_id = object.get_ceiling_group_id();
        let ghost placed = object;
        let ghost before = old(self).group_cells(group_id);
        self.ceilings.insert(key, object);
        let mut cells = match self.ceiling_keys.remove(&group_id) {
            Some(cells) => cells,
            None => Vec::new(),
        };
        cells.push(object_key);
        self.ceiling_keys.insert(group_id, cells);
        proof {
            assert(self.ceiling_index() =~= old(self).ceiling_index().insert(object_key, placed));
            assert(self.ceiling_groups() =~= old(self).ceiling_groups().insert(
                group_id,
                before.push(object_key),
            ));
            assert(self.index() =~= old(self).index());
            assert(self.ceilings_wf()) by {
                assert forall|p: Vector2| #[trigger]
                    self.ceiling_index().contains_key(p) implies {
                    let ceiling = self.ceiling_index()[p];
                    &&& ceiling.position == p
                    &&& ceiling.object_type == GameObjectType::CEILING
                    &&& ceiling.ceiling_group_id >= 0
                    &&& self.ceiling_groups().contains_key(ceiling.ceiling_group_id)
                    &&& self.ceiling_groups()[ceiling.ceiling_group_id].contains(p)
                } by {
                    if p == object_key {
                        assert(before.push(object_key)[before.len() as int] == object_key);
                    } else {
                        assert(old(self).ceiling_index().contains_key(p));
                        let g = old(self).ceiling_index()[p].ceiling_group_id;
                        let i = choose|i: int|
                            0 <= i < old(self).ceiling_groups()[g].len() && old(
                                self,
                            ).ceiling_groups()[g][i] == p;
                        if g == group_id {
                            assert(before.push(object_key)[i] == p);
                        }
                    }
                }
                assert forall|g: i32, i: int|
                    self.ceiling_groups().contains_key(g) && 0 <= i < self.ceiling_groups()[g].len() implies {
                    let p = #[trigger] self.ceiling_groups()[g][i];
                    &&& self.ceiling_index().contains_key(p)
                    &&& self.ceiling_index()[p].ceiling_group_id == g
                } by {
                    if g == group_id && i < before.len() {
                        assert(old(self).ceiling_groups()[g][i] == before[i]);
                    } else if g != group_id {
                        assert(old(self).ceiling_groups()[g][i] == self.ceiling_groups()[g][i]);
                    }
                }
                assert forall|g: i32, i: int, j: int|
                    self.ceiling_groups().contains_key(g) && 0 <= i < j < self.ceiling_groups()[g].len() implies #[trigger]
                    self.ceiling_groups()[g][i] != #[trigger] self.ceiling_groups()[g][j] by {
                    if g == group_id {
                        if j < before.len() {
                            assert(old(self).ceiling_groups()[g][i] != old(
                                self,
                            ).ceiling_groups()[g][j]);
                        } else {
                            assert(old(self).ceiling_groups()[g][i] == before[i]);
                        }
                    } else {
                        assert(old(self).ceiling_groups()[g][i] != old(self).ceiling_groups()[g][j]);
                    }
                }
            }
        }
        Ok(())
    }

    /// Takes the entity that blocks `position` off the map.
    pub fn take_object(&mut self, position: Vector2) -> (taken: Option<GameObject>)
        requires
            old(self).wf(),
        ensures
            taken == (if old(self).index().contains_key(position) {
                Some(old(self).index()[position])
            } else {
                None
            }),
            final(self).index() == old(self).index().remove(position),
            final(self).ceiling_index() == old(self).ceiling_index(),
            final(self).ceiling_groups() == old(self).ceiling_groups(),
            final(self).same_settings(old(self)),
            final(self).wf(),
    {
        let taken = self.objects.remove(&position.to_key());
        proof {
            assert(self.index() =~= old(self).index().remove(position));
        }
        taken
    }

    /// The cell that an entity on `current_pos` is pushed to by the step
    /// `(direction_x, direction_y)`, where the push can be made: the cell lies
    /// on the map, nothing blocks it, and there is an entity to push.
    pub open spec fn push_target(
        &self,
        current_pos: Vector2,
        direction_x: int,
        direction_y: int,
    ) -> Option<Vector2> {
        match current_pos.offset(direction_x, direction_y) {
            Some(next_pos) => if !self.out_of_bounds(next_pos) && !self.index().contains_key(
                next_pos,
            ) && self.index().contains_key(current_pos) {
                Some(next_pos)
            } else {
                None
            },
            None => None,
        }
    }

    /// Moves the entity on `current_pos` one step in the given direction, or
    /// leaves the map as it is where that cannot be done.
    pub fn push_object(&mut self, current_pos: Vector2, direction_x: i32, direction_y: i32) -> (moved:
        bool)
        requires
            old(self).wf(),
        ensures
            moved == old(self).push_target(
                current_pos,
                direction_x as int,
                direction_y as int,
            ).is_some(),
            moved ==> {
                let next_pos = old(self).push_target(
                    current_pos,
                    direction_x as int,
                    direction_y as int,
                ).unwrap();
                final(self).index() == old(self).index().remove(current_pos).insert(
                    next_pos,
                    old(self).index()[current_pos].at(next_pos),
                )
            },
            !moved ==> final(self).index() == old(self).index(),
            final(self).ceiling_index() == old(self).ceiling_index(),
            final(self).ceiling_groups() == old(self).ceiling_groups(),
            final(self).same_settings(old(self)),
            final(self).wf(),
    {
        let next_pos = match current_pos.checked_offset(direction_x, direction_y) {
            Some(next_pos) => next_pos,
            None => { return false; },
        };
        if self.is_out_of_bounds(next_pos) || self.objects.contains_key(&next_pos.to_key()) {
            return false;
        }
        let mut object = match self.objects.remove(&current_pos.to_key()) {
            Some(object) => object,
            None => {
                proof {
                    assert(self.index() =~= old(self).index());
                }
                return false;
            },
        };
        object.position = next_pos;
        let ghost pushed = object;
        self.objects.insert(next_pos.to_key(), object);
        proof {
            assert(self.index() =~= old(self).index().remove(current_pos).insert(next_pos, pushed));
        }
        true
    }

    /// The ceilings of group `group_id`, in the order in which they were hung.
    pub fn get_ceiling_by_id(&self, group_id: i32) -> (members: Vec<&GameObject>)
        requires
            self.wf(),
        ensures
            members@.len() == self.group_cells(group_id).len(),
            forall|i: int|
                0 <= i < members@.len() ==> *(#[trigger] members@[i]) == self.ceiling_index()[self.group_cells(
                    group_id,
                )[i]],
    {
        let mut members: Vec<&GameObject> = Vec::new();
        match self.ceiling_keys.get(&group_id) {
            Some(positions) => {
                let mut i: usize = 0;
                while i < positions.len()
                    invariant
                        self.wf(),
                        self.ceiling_groups().contains_key(group_id),
                        positions@ == self.ceiling_groups()[group_id],
                        i <= positions@.len(),
                        members@.len() == i,
                        forall|j: int|
                            0 <= j < i ==> *(#[trigger] members@[j]) == self.ceiling_index()[positions@[j]],
                    decreases positions@.len() - i,
                {
                    proof {
                        let p = self.ceiling_groups()[group_id][i as int];
                        assert(self.ceiling_index().contains_key(p));
                    }
                    match self.ceilings.get(&positions[i].to_key()) {
                        Some(ceiling) => {
                            members.push(ceiling);
                        },
                        None => {},
                    }
                    i += 1;
                }
            },
            None => {},
        }
        members
    }

    /// The `k`-th neighbour of `position`, where the grid has such a cell.
    pub open spec fn neighbor(position: Vector2, k: int) -> Option<Vector2> {
        position.offset(neighbor_offset(k).0, neighbor_offset(k).1)
    }

    /// An entity with a current interaction stands on `cell`.
    pub open spec fn has_event_at(&self, cell: Option<Vector2>) -> bool {
        cell matches Some(p) && self.index().contains_key(p) && self.index()[p].has_event_spec()
    }

    /// The first neighbour of `position`, from the `k`-th on, on which an
    /// entity with a current interaction stands.
    pub open spec fn event_neighbor_from(&self, position: Vector2, k: int) -> Option<Vector2>
        decreases 8 - k,
    {
        if k < 0 || k >= 8 {
            None
        } else if self.has_event_at(Self::neighbor(position, k)) {
            Self::neighbor(position, k)
        } else {
            self.event_neighbor_from(position, k + 1)
        }
    }

    /// The first of the eight neighbours of `position` on which an entity
    /// with a current interaction stands.
    pub open spec fn event_neighbor(&self, position: Vector2) -> Option<Vector2> {
        self.event_neighbor_from(position, 0)
    }

    /// What [`GameMap::event_neighbor_from`] finds is the first neighbour,
    /// from the `k`-th on, that has an interaction; it finds none only where
    /// none of them has one.
    pub proof fn lemma_event_neighbor_is_first(&self, position: Vector2, k: int)
        requires
            0 <= k <= 8,
        ensures
            match self.event_neighbor_from(position, k) {
                Some(cell) => exists|j: int|
                    {
                        &&& k <= j < 8
                        &&& #[trigger] Self::neighbor(position, j) == Some(cell)
                        &&& self.has_event_at(Some(cell))
                        &&& forall|i: int|
                            k <= i < j ==> !self.has_event_at(#[trigger] Self::neighbor(position, i))
                    },
                None => forall|j: int|
                    k <= j < 8 ==> !self.has_event_at(#[trigger] Self::neighbor(position, j)),
            },
        decreases 8 - k,
    {
        if k < 8 && !self.has_event_at(Self::neighbor(position, k)) {
            self.lemma_event_neighbor_is_first(position, k + 1);
        }
    }

    /// Looks round `position` for an interaction. The first neighbour that
    /// has one becomes the place of the current interaction, and its current
    /// interaction is handed out.
    pub fn get_if_there_is_event_at_this_position(&mut self, position: Vector2) -> (found: Option<
        &Event,
    >)
        ensures
            match old(self).event_neighbor(position) {
                Some(cell) => {
                    &&& found == Some(&old(self).index()[cell].active_event())
                    &&& final(self).current_event_position == cell
                },
                None => {
                    &&& found is None
                    &&& final(self).current_event_position == old(self).current_event_position
                },
            },
            final(self).index() == old(self).index(),
            final(self).ceiling_index() == old(self).ceiling_index(),
            final(self).ceiling_groups() == old(self).ceiling_groups(),
            final(self).map_size == old(self).map_size,
            final(self).ground_icon == old(self).ground_icon,
            final(self).fight_selections == old(self).fight_selections,
            final(self).current_fight_selection_index == old(self).current_fight_selection_index,
            final(self).fight_move_queue == old(self).fight_move_queue,
            final(self).wf() == old(self).wf(),
            found is Some ==> old(self).has_event_at(Some(final(self).current_event_position)),
    {
        proof {
            self.lemma_event_neighbor_is_first(position, 0);
        }
        let mut k: i32 = 0;
        while k < 8
            invariant
                0 <= k <= 8,
                *self == *old(self),
                self.event_neighbor(position) == self.event_neighbor_from(position, k as int),
            decreases 8 - k,
        {
            let cell: i32 = if k < 4 {
                k
            } else {
                k + 1
            };
            let current_pos = position.checked_offset(cell % 3 - 1, cell / 3 - 1);
            if let Some(current_pos) = current_pos {
                let holds = match self.objects.get(&current_pos.to_key()) {
                    Some(object) => object.has_event(),
                    None => false,
                };
                if holds {
                    self.current_event_position = current_pos;
                    let object = self.objects.get(&current_pos.to_key()).unwrap();
                    return Some(&object.events[object.current_event_index]);
                }
            }
            k += 1;
        }
        None
    }

    pub fn get_ceiling_from_position(&self, position: Vector2) -> (found: Option<&GameObject>)
        ensures
            found == (if self.ceiling_index().contains_key(position) {
                Some(&self.ceiling_index()[position])
            } else {
                None
            }),
    {
        self.ceilings.get(&position.to_key())
    }
}

} // verus!
