//! Entities of the world and the interactions attached to them.

use crate::paint::{tint, tinted, Rgb};
use crate::vector2::Vector2;
use colored::ColoredString;
use vstd::prelude::*;
use vstd::string::StringExecFns;

verus! {

/// One node of a dialogue: what is said, the choices offered, and for each
/// choice the node it leads to (a negative number ends the dialogue).
pub struct Dialogue {
    pub text: String,
    pub selections: Vec<String>,
    pub selections_pointing_index: Vec<i32>,
}

impl Dialogue {
    /// Every choice has its jump target.
    pub open spec fn wf(&self) -> bool {
        self.selections@.len() == self.selections_pointing_index@.len()
    }
}

#[derive(Debug, Copy, Clone, PartialEq, Eq, Structural)]
pub enum EventType {
    Dialogue,
    Fight,
}

/// `value` brought into `[0, count - 1]`, or 0 where `count` is 0.
pub open spec fn clamp_index(value: int, count: int) -> int {
    if value < 0 || count <= 0 {
        0
    } else if value > count - 1 {
        count - 1
    } else {
        value
    }
}

/// An interaction attached to an entity: a dialogue tree with its two
/// cursors, or a combat encounter (which has no nodes).
pub struct Event {
    pub event_type: EventType,
    pub current_dialogue_selection_index: usize,
    pub current_dialogue_index: usize,
    pub dialogues: Vec<Dialogue>,
    pub owner_name: String,
}

impl Event {
    /// The number of choices of the current node; 0 where there is no node.
    pub open spec fn choice_count(&self) -> nat {
        if self.current_dialogue_index < self.dialogues@.len() {
            self.dialogues@[self.current_dialogue_index as int].selections@.len()
        } else {
            0
        }
    }

    /// Both cursors point into what they index: the node cursor at a node
    /// (at 0 where there is none), the choice cursor at a choice of that node
    /// (at 0 where it has none).
    pub open spec fn cursors_valid(&self) -> bool {
        &&& self.current_dialogue_index == clamp_index(
            self.current_dialogue_index as int,
            self.dialogues@.len() as int,
        )
        &&& self.current_dialogue_selection_index == clamp_index(
            self.current_dialogue_selection_index as int,
            self.choice_count() as int,
        )
    }

    pub open spec fn wf(&self) -> bool {
        &&& forall|i: int| 0 <= i < self.dialogues@.len() ==> (#[trigger] self.dialogues@[i]).wf()
        &&& self.cursors_valid()
    }

    pub fn new(_type: EventType, owner_name: &str) -> (event: Self)
        ensures
            event.event_type == _type,
            event.current_dialogue_selection_index == 0,
            event.current_dialogue_index == 0,
            event.dialogues@.len() == 0,
            event.owner_name@ == owner_name@,
            event.wf(),
    {
        Self {
            event_type: _type,
            current_dialogue_selection_index: 0,
            current_dialogue_index: 0,
            dialogues: Vec::new(),
            owner_name: String::from_str(owner_name),
        }
    }

    /// Appends a node that says `text` in the owner's name. A node whose
    /// choices and jump targets differ in number is not added.
    pub fn add_dialogue(
        &mut self,
        text: &str,
        selections: Vec<String>,
        selections_pointing_index: Vec<i32>,
    ) -> (added: bool)
        ensures
            added == (selections@.len() == selections_pointing_index@.len()),
            !added ==> *final(self) == *old(self),
            added ==> {
                &&& final(self).dialogues@.len() == old(self).dialogues@.len() + 1
                &&& final(self).dialogues@.drop_last() == old(self).dialogues@
                &&& final(self).dialogues@.last().text@ == old(self).owner_name@ + ": "@ + text@
                &&& final(self).dialogues@.last().selections == selections
                &&& final(self).dialogues@.last().selections_pointing_index
                    == selections_pointing_index
            },
            final(self).event_type == old(self).event_type,
            final(self).current_dialogue_selection_index == old(
                self,
            ).current_dialogue_selection_index,
            final(self).current_dialogue_index == old(self).current_dialogue_index,
            final(self).owner_name == old(self).owner_name,
            old(self).wf() ==> final(self).wf(),
    {
        if selections.len() != selections_pointing_index.len() {
            return false;
        }
        let line = self.owner_name.clone().concat(": ").concat(text);
        self.dialogues.push(
            Dialogue { text: line, selections, selections_pointing_index },
        );
        proof {
            assert(self.dialogues@.drop_last() =~= old(self).dialogues@);
        }
        true
    }

    pub fn get_current_dialogue_text(&self) -> (text: &String)
        requires
            self.current_dialogue_index < self.dialogues@.len(),
        ensures
            *text == self.dialogues@[self.current_dialogue_index as int].text,
    {
        &self.dialogues[self.current_dialogue_index].text
    }

    pub fn get_current_dialogue_selections(&self) -> (selections: &Vec<String>)
        requires
            self.current_dialogue_index < self.dialogues@.len(),
        ensures
            *selections == self.dialogues@[self.current_dialogue_index as int].selections,
    {
        &self.dialogues[self.current_dialogue_index].selections
    }

    /// The node that the chosen choice leads to, as the node records it.
    pub fn get_current_dialogue_selections_pointing_index(&self) -> (target: i32)
        requires
            self.current_dialogue_index < self.dialogues@.len(),
            self.current_dialogue_selection_index
                < self.dialogues@[self.current_dialogue_index as int].selections_pointing_index@.len(),
        ensures
            target == self.dialogues@[self.current_dialogue_index as int].selections_pointing_index@[self.current_dialogue_selection_index as int],
    {
        self.dialogues[self.current_dialogue_index].selections_pointing_index[self.current_dialogue_selection_index]
    }

    pub fn get_current_dialogue_selections_length(&self) -> (count: usize)
        ensures
            count == self.choice_count(),
    {
        if self.current_dialogue_index < self.dialogues.len() {
            self.dialogues[self.current_dialogue_index].selections.len()
        } else {
            0
        }
    }

    /// The event with its choice cursor at `index`.
    pub open spec fn with_selection(self, index: int) -> Event {
        Event { current_dialogue_selection_index: index as usize, ..self }
    }

    /// The event after "left": the choice cursor one lower, kept in range.
    pub open spec fn moved_left(self) -> Event {
        self.with_selection(
            clamp_index(self.current_dialogue_selection_index - 1, self.choice_count() as int),
        )
    }

    /// The event after "right": the choice cursor one higher, kept in range.
    pub open spec fn moved_right(self) -> Event {
        self.with_selection(
            clamp_index(self.current_dialogue_selection_index + 1, self.choice_count() as int),
        )
    }

    /// The node that confirming the chosen choice leads to; `None` where the
    /// dialogue ends instead: the node has no choices, the target is negative,
    /// or it names no node.
    pub open spec fn jump_target(&self) -> Option<int> {
        if self.current_dialogue_index < self.dialogues@.len() {
            let node = self.dialogues@[self.current_dialogue_index as int];
            if self.current_dialogue_selection_index < node.selections@.len()
                && self.current_dialogue_selection_index < node.selections_pointing_index@.len() {
                let target = node.selections_pointing_index@[self.current_dialogue_selection_index as int];
                if 0 <= target < self.dialogues@.len() {
                    Some(target as int)
                } else {
                    None
                }
            } else {
                None
            }
        } else {
            None
        }
    }

    /// The event at node `target`, its choice cursor kept where it was as far
    /// as the new node's choices allow.
    pub open spec fn moved_to(self, target: int) -> Event {
        Event {
            current_dialogue_index: target as usize,
            current_dialogue_selection_index: clamp_index(
                self.current_dialogue_selection_index as int,
                self.dialogues@[target].selections@.len() as int,
            ) as usize,
            ..self
        }
    }

    /// Puts the choice cursor back on the first choice.
    pub fn reset_selection(&mut self)
        ensures
            *final(self) == old(self).with_selection(0),
            old(self).wf() ==> final(self).wf(),
    {
        self.current_dialogue_selection_index = 0;
    }

    /// Handles "left" in a dialogue.
    pub fn select_previous(&mut self)
        ensures
            *final(self) == old(self).moved_left(),
            old(self).wf() ==> final(self).wf(),
    {
        let count = self.get_current_dialogue_selections_length();
        let current = self.current_dialogue_selection_index;
        if count == 0 || current == 0 {
            self.current_dialogue_selection_index = 0;
        } else if current - 1 > count - 1 {
            self.current_dialogue_selection_index = count - 1;
        } else {
            self.current_dialogue_selection_index = current - 1;
        }
    }

    /// Handles "right" in a dialogue.
    pub fn select_next(&mut self)
        ensures
            *final(self) == old(self).moved_right(),
            old(self).wf() ==> final(self).wf(),
    {
        let count = self.get_current_dialogue_selections_length();
        let current = self.current_dialogue_selection_index;
        if count == 0 {
            self.current_dialogue_selection_index = 0;
        } else if current >= count - 1 {
            self.current_dialogue_selection_index = count - 1;
        } else {
            self.current_dialogue_selection_index = current + 1;
        }
    }

    /// Handles "confirm" in a dialogue: follows the chosen choice to its
    /// node, or reports that the dialogue has ended.
    pub fn confirm(&mut self) -> (continues: bool)
        ensures
            continues == old(self).jump_target().is_some(),
            continues ==> *final(self) == old(self).moved_to(old(self).jump_target().unwrap()),
            !continues ==> *final(self) == *old(self),
            old(self).wf() ==> final(self).wf(),
    {
        if self.current_dialogue_index >= self.dialogues.len() {
            return false;
        }
        let node = &self.dialogues[self.current_dialogue_index];
        let chosen = self.current_dialogue_selection_index;
        if chosen >= node.selections.len() || chosen >= node.selections_pointing_index.len() {
            return false;
        }
        let target: i32 = node.selections_pointing_index[chosen];
        if target < 0 {
            return false;
        }
        let next: usize = target as usize;
        if next >= self.dialogues.len() {
            return false;
        }
        let count = self.dialogues[next].selections.len();
        self.current_dialogue_index = next;
        if count == 0 {
            self.current_dialogue_selection_index = 0;
        } else if chosen > count - 1 {
            self.current_dialogue_selection_index = count - 1;
        }
        true
    }
}

#[derive(Debug, Copy, Clone, PartialEq, Eq, Structural)]
pub struct GameObjectStats {
    pub strength: usize,
    pub agility: usize,
    pub max_health: usize,
}

impl GameObjectStats {
    pub fn new(strength: usize, agility: usize, max_health: usize) -> (stats: Self)
        ensures
            stats == (GameObjectStats { strength, agility, max_health }),
    {
        Self { strength, agility, max_health }
    }

    pub fn empty() -> (stats: Self)
        ensures
            stats == (GameObjectStats { strength: 0, agility: 0, max_health: 0 }),
    {
        Self { strength: 0, agility: 0, max_health: 0 }
    }
}

#[allow(non_camel_case_types)]
#[derive(Debug, Copy, Clone, PartialEq, Eq, Structural)]
pub enum GameObjectType {
    MOVEABLE,
    STATIC,
    PLAYER,
    CEILING,
}

/// What an entity remembers besides its own attributes: for the avatar, the
/// group of the ceiling it stands under (`EMPTY` in the open).
#[allow(non_camel_case_types)]
#[derive(Debug, Copy, Clone, PartialEq, Eq, Structural)]
pub enum GameObjectMetaData {
    EMPTY,
    INT(i32),
}

pub struct GameObject {
    pub name: String,
    pub position: Vector2,
    pub icon: ColoredString,
    pub object_type: GameObjectType,
    pub meta_data: GameObjectMetaData,
    pub events: Vec<Event>,
    pub current_event_index: usize,
    pub stat: GameObjectStats,
    pub health: usize,
    pub ceiling_group_id: i32,
}

impl GameObject {
    pub open spec fn wf(&self) -> bool {
        forall|i: int| 0 <= i < self.events@.len() ==> (#[trigger] self.events@[i]).wf()
    }

    /// The entity has its current interaction.
    pub open spec fn has_event_spec(&self) -> bool {
        self.current_event_index < self.events@.len()
    }

    /// The entity's current interaction.
    pub open spec fn active_event(&self) -> Event {
        self.events@[self.current_event_index as int]
    }

    /// The entity moved to `position`.
    pub open spec fn at(self, position: Vector2) -> GameObject {
        GameObject { position, ..self }
    }

    /// The two entities agree in all but their interactions.
    pub open spec fn same_but_events(&self, other: &GameObject) -> bool {
        &&& self.name == other.name
        &&& self.position == other.position
        &&& self.icon == other.icon
        &&& self.object_type == other.object_type
        &&& self.meta_data == other.meta_data
        &&& self.current_event_index == other.current_event_index
        &&& self.stat == other.stat
        &&& self.health == other.health
        &&& self.ceiling_group_id == other.ceiling_group_id
    }

    /// `after` is this entity with its `index`-th interaction replaced by
    /// `event`.
    pub open spec fn replaced_event(&self, after: &GameObject, index: int, event: Event) -> bool {
        &&& after.same_but_events(self)
        &&& after.events@ == self.events@.update(index, event)
    }

    /// The entity is as newly made of these attributes: at full health,
    /// without interactions or marks, not yet in any ceiling group, shown as
    /// `glyph` in `color`.
    pub open spec fn made_of(
        &self,
        name: Seq<char>,
        position: Vector2,
        glyph: Seq<char>,
        object_type: GameObjectType,
        color: Rgb,
        stats: GameObjectStats,
    ) -> bool {
        &&& self.name@ == name
        &&& self.position == position
        &&& self.icon == tinted(glyph, color.r, color.g, color.b)
        &&& self.object_type == object_type
        &&& self.meta_data == GameObjectMetaData::EMPTY
        &&& self.events@.len() == 0
        &&& self.current_event_index == 0
        &&& self.stat == stats
        &&& self.health == stats.max_health
        &&& self.ceiling_group_id == -1
    }

    /// A new entity at full health, without interactions, not yet in any
    /// ceiling group, shown as `_icon` in `_object_color`.
    pub fn new(
        _name: String,
        _position: Vector2,
        _icon: String,
        _object_type: GameObjectType,
        _object_color: Rgb,
        _object_stats: GameObjectStats,
    ) -> (object: Self)
        ensures
            object.name == _name,
            object.made_of(
                _name@,
                _position,
                _icon@,
                _object_type,
                _object_color,
                _object_stats,
            ),
            object.wf(),
    {
        Self {
            name: _name,
            position: _position,
            icon: tint(_icon.as_str(), _object_color),
            object_type: _object_type,
            meta_data: GameObjectMetaData::EMPTY,
            events: Vec::new(),
            current_event_index: 0,
            stat: _object_stats,
            health: _object_stats.max_health,
            ceiling_group_id: -1,
        }
    }

    /// Attaches a new, empty interaction of kind `_type` and hands it out to
    /// be filled.
    pub fn add_event(&mut self, _type: EventType) -> (added: Option<&mut Event>)
        ensures
            added matches Some(event) && {
                &&& event.event_type == _type
                &&& event.current_dialogue_selection_index == 0
                &&& event.current_dialogue_index == 0
                &&& event.dialogues@.len() == 0
                &&& event.owner_name@ == old(self).name@
                &&& final(self).events@ == old(self).events@.push(*final(event))
            },
            final(self).same_but_events(old(self)),
    {
        let event = Event::new(_type, self.name.as_str());
        self.events.push(event);
        let last = self.events.len() - 1;
        Some(&mut self.events[last])
    }

    pub fn set_position(&mut self, _position: Vector2)
        ensures
            *final(self) == old(self).at(_position),
    {
        self.position = _position;
    }

    pub fn set_ceiling_group_id(&mut self, _id: i32)
        ensures
            *final(self) == (GameObject { ceiling_group_id: _id, ..*old(self) }),
    {
        self.ceiling_group_id = _id;
    }

    pub fn get_ceiling_group_id(&self) -> (id: i32)
        ensures
            id == self.ceiling_group_id,
    {
        self.ceiling_group_id
    }

    #[verifier::when_used_as_spec(has_event_spec)]
    pub fn has_event(&self) -> (present: bool)
        ensures
            present == self.has_event_spec(),
    {
        !self.events.is_empty() && self.current_event_index < self.events.len()
    }
}

} // verus!
