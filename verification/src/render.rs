//! What the screen shows: rows of coloured glyphs and plain text, made
//! from the session and handed out to be printed.

use crate::game::{Game, GameState};
use crate::game_object::GameObjectMetaData;
use crate::paint::{tint, tinted, Rgb};
use crate::vector2::{divide_toward_zero, quotient_toward_zero, Vector2};
use colored::ColoredString;
use vstd::prelude::*;
use vstd::string::StringExecFns;

verus! {

/// One piece of a row: plain text, or a coloured string.
#[derive(Debug, PartialEq)]
pub enum Piece {
    Plain(String),
    Styled(ColoredString),
}

/// A piece as contracts speak of it.
pub enum PieceView {
    Plain(Seq<char>),
    Styled(ColoredString),
}

impl View for Piece {
    type V = PieceView;

    open spec fn view(&self) -> PieceView {
        match self {
            Piece::Plain(text) => PieceView::Plain(text@),
            Piece::Styled(icon) => PieceView::Styled(*icon),
        }
    }
}

/// The pieces as contracts speak of them.
pub open spec fn views(pieces: Seq<Piece>) -> Seq<PieceView> {
    pieces.map_values(|piece: Piece| piece@)
}

/// The labels as sequences of characters.
pub open spec fn texts(labels: Seq<String>) -> Seq<Seq<char>> {
    labels.map_values(|label: String| label@)
}

/// How one entry of a menu is shown: in red where the cursor is on it.
pub open spec fn label_piece(label: Seq<char>, chosen: bool) -> PieceView {
    if chosen {
        PieceView::Styled(tinted(label, 255, 0, 0))
    } else {
        PieceView::Plain(label)
    }
}

/// The first `count` entries of a menu in a line, a comma and a blank
/// between every two, the entry under the cursor in red.
pub open spec fn selection_line_spec(labels: Seq<Seq<char>>, cursor: int, count: int) -> Seq<
    PieceView,
>
    decreases count,
{
    if count <= 0 {
        Seq::empty()
    } else if count == 1 {
        seq![label_piece(labels[0], cursor == 0)]
    } else {
        selection_line_spec(labels, cursor, count - 1).push(PieceView::Plain(", "@)).push(
            label_piece(labels[count - 1], cursor == count - 1),
        )
    }
}

/// Lays out the entries of a menu as [`selection_line_spec`] says.
pub fn selection_line(labels: &Vec<String>, cursor: usize) -> (line: Vec<Piece>)
    ensures
        views(line@) == selection_line_spec(texts(labels@), cursor as int, labels@.len() as int),
{
    let mut line: Vec<Piece> = Vec::new();
    let mut i: usize = 0;
    assert(views(line@) =~= Seq::<PieceView>::empty());
    while i < labels.len()
        invariant
            i <= labels@.len(),
            views(line@) == selection_line_spec(texts(labels@), cursor as int, i as int),
        decreases labels@.len() - i,
    {
        let ghost before = line@;
        if i > 0 {
            line.push(Piece::Plain(String::from_str(", ")));
        }
        let ghost between = line@;
        if i == cursor {
            line.push(Piece::Styled(tint(labels[i].as_str(), Rgb::new(255, 0, 0))));
        } else {
            line.push(Piece::Plain(labels[i].clone()));
        }
        proof {
            let entry = label_piece(texts(labels@)[i as int], cursor == i);
            assert(line@.last()@ == entry);
            if i > 0 {
                assert(views(between) =~= views(before).push(PieceView::Plain(", "@)));
            } else {
                assert(views(between) =~= views(before));
            }
            assert(views(line@) =~= views(between).push(entry));
        }
        i += 1;
    }
    line
}

/// A piece of plain text.
fn plain(text: &str) -> (piece: Piece)
    ensures
        piece@ == PieceView::Plain(text@),
{
    Piece::Plain(String::from_str(text))
}

/// A piece that shows `icon`.
fn styled(icon: &ColoredString) -> (piece: Piece)
    ensures
        piece@ == PieceView::Styled(*icon),
{
    Piece::Styled(icon.clone())
}

impl Game {
    /// What is shown of the world cell `point` (`None` for a cell that the
    /// grid does not have): a blank off the map; else the avatar, where it
    /// stands there; else the ceiling over the cell, unless the avatar stands
    /// under a ceiling of the same group; else the entity on the cell; else
    /// the ground.
    pub open spec fn glyph(&self, point: Option<Vector2>) -> PieceView {
        match point {
            Some(p) => if self.map.out_of_bounds(p) {
                PieceView::Plain(" "@)
            } else if self.player.position == p {
                PieceView::Styled(self.player.icon)
            } else if self.map.ceiling_index().contains_key(p) && self.player.meta_data
                != GameObjectMetaData::INT(self.map.ceiling_index()[p].ceiling_group_id) {
                PieceView::Styled(self.map.ceiling_index()[p].icon)
            } else if self.map.index().contains_key(p) {
                PieceView::Styled(self.map.index()[p].icon)
            } else {
                PieceView::Styled(self.map.ground_icon)
            },
            None => PieceView::Plain(" "@),
        }
    }

    /// Computes [`Game::glyph`].
    pub fn glyph_at(&self, point: Option<Vector2>) -> (piece: Piece)
        ensures
            piece@ == self.glyph(point),
    {
        let p = match point {
            Some(p) => p,
            None => { return plain(" "); },
        };
        if self.map.is_out_of_bounds(p) {
            return plain(" ");
        }
        if self.player.position == p {
            return styled(&self.player.icon);
        }
        match self.map.get_ceiling_from_position(p) {
            Some(ceiling) => {
                let hidden = match self.player.meta_data {
                    GameObjectMetaData::INT(group) => group == ceiling.get_ceiling_group_id(),
                    GameObjectMetaData::EMPTY => false,
                };
                if !hidden {
                    return styled(&ceiling.icon);
                }
            },
            None => {},
        }
        match self.map.get_object_from_position(p) {
            Some(object) => styled(&object.icon),
            None => styled(&self.map.ground_icon),
        }
    }

    /// What the combat screen shows in column `x` of row `y`: the two
    /// fighters face to face on the middle row, a rule five rows from the
    /// bottom, the menu at the start of the row below it, blanks elsewhere.
    pub open spec fn fight_cell(&self, x: int, y: int) -> Seq<PieceView> {
        if y == quotient_toward_zero(self.screen_size.y as int, 2) {
            if x == self.screen_margins.x {
                seq![PieceView::Styled(self.player.icon)]
            } else if x == self.screen_size.x - self.screen_margins.x {
                if self.map.index().contains_key(self.map.current_event_position) {
                    seq![
                        PieceView::Styled(self.map.index()[self.map.current_event_position].icon),
                    ]
                } else {
                    Seq::empty()
                }
            } else {
                seq![PieceView::Plain(" "@)]
            }
        } else if y == self.screen_size.y - 5 {
            seq![PieceView::Plain("_"@)]
        } else if y == self.screen_size.y - 4 && x == 0 {
            selection_line_spec(
                texts(self.map.fight_selections@),
                self.map.current_fight_selection_index as int,
                self.map.fight_selections@.len() as int,
            )
        } else {
            seq![PieceView::Plain(" "@)]
        }
    }

    /// What is shown in column `x` of row `y` of the screen.
    pub open spec fn cell(&self, x: int, y: int) -> Seq<PieceView> {
        if self.game_state == GameState::Fight {
            self.fight_cell(x, y)
        } else {
            seq![self.glyph(self.camera.offset(x, y))]
        }
    }

    /// The first `count` columns of row `y`.
    pub open spec fn row_cells(&self, y: int, count: int) -> Seq<PieceView>
        decreases count,
    {
        if count <= 0 {
            Seq::empty()
        } else {
            self.row_cells(y, count - 1) + self.cell(count - 1, y)
        }
    }

    /// The entity that the current interaction belongs to has it, and the
    /// interaction has a node to show.
    pub open spec fn dialogue_shown(&self) -> bool {
        let cell = self.map.current_event_position;
        &&& self.map.has_event_at(Some(cell))
        &&& self.map.index()[cell].active_event().current_dialogue_index
            < self.map.index()[cell].active_event().dialogues@.len()
    }

    /// What follows the columns of row `y`: in a dialogue a gap and a bar,
    /// then on the first row what is said and on the second the choices.
    pub open spec fn row_suffix(&self, y: int) -> Seq<PieceView> {
        if self.game_state == GameState::Dialogue {
            let event = self.map.index()[self.map.current_event_position].active_event();
            let node = event.dialogues@[event.current_dialogue_index as int];
            let gap = seq![PieceView::Plain("     "@), PieceView::Plain("|   "@)];
            if self.dialogue_shown() && y == 0 {
                gap.push(PieceView::Plain(node.text@))
            } else if self.dialogue_shown() && y == 1 {
                gap + selection_line_spec(
                    texts(node.selections@),
                    event.current_dialogue_selection_index as int,
                    node.selections@.len() as int,
                )
            } else {
                gap
            }
        } else {
            Seq::empty()
        }
    }

    /// Row `y` of the screen.
    pub open spec fn row(&self, y: int) -> Seq<PieceView> {
        self.row_cells(y, self.screen_size.x as int) + self.row_suffix(y)
    }

    /// Computes [`Game::fight_cell`].
    fn render_fight_cell(&self, x: i32, y: i32) -> (pieces: Vec<Piece>)
        ensures
            views(pieces@) == self.fight_cell(x as int, y as int),
    {
        let mut pieces: Vec<Piece> = Vec::new();
        let width = self.screen_size.x as i64;
        let height = self.screen_size.y as i64;
        let margin = self.screen_margins.x as i64;
        if y == divide_toward_zero(self.screen_size.y, 2) {
            if x as i64 == margin {
                pieces.push(styled(&self.player.icon));
            } else if x as i64 == width - margin {
                match self.map.get_object_from_position(self.map.current_event_position) {
                    Some(enemy) => {
                        pieces.push(styled(&enemy.icon));
                    },
                    None => {},
                }
            } else {
                pieces.push(plain(" "));
            }
        } else if y as i64 == height - 5 {
            pieces.push(plain("_"));
        } else if y as i64 == height - 4 && x == 0 {
            pieces = selection_line(
                &self.map.fight_selections,
                self.map.current_fight_selection_index,
            );
        } else {
            pieces.push(plain(" "));
        }
        proof {
            assert(views(pieces@) =~= self.fight_cell(x as int, y as int));
        }
        pieces
    }

    /// Computes [`Game::row_suffix`].
    fn render_row_suffix(&self, y: i32) -> (pieces: Vec<Piece>)
        ensures
            views(pieces@) == self.row_suffix(y as int),
    {
        let mut pieces: Vec<Piece> = Vec::new();
        if self.game_state != GameState::Dialogue {
            assert(views(pieces@) =~= self.row_suffix(y as int));
            return pieces;
        }
        pieces.push(plain("     "));
        pieces.push(plain("|   "));
        let ghost gap = pieces@;
        assert(views(gap) =~= seq![PieceView::Plain("     "@), PieceView::Plain("|   "@)]);
        let object = match self.map.get_object_from_position(self.map.current_event_position) {
            Some(object) => object,
            None => { return pieces; },
        };
        if !object.has_event() {
            return pieces;
        }
        let event = &object.events[object.current_event_index];
        if event.current_dialogue_index >= event.dialogues.len() {
            return pieces;
        }
        if y == 0 {
            pieces.push(Piece::Plain(event.get_current_dialogue_text().clone()));
            assert(views(pieces@) =~= views(gap).push(pieces@.last()@));
        } else if y == 1 {
            let mut line = selection_line(
                event.get_current_dialogue_selections(),
                event.current_dialogue_selection_index,
            );
            let ghost choices = line@;
            pieces.append(&mut line);
            assert(views(pieces@) =~= views(gap) + views(choices));
        }
        pieces
    }

    /// Lays out the screen: one row of pieces for each row of the screen,
    /// from the top, each as [`Game::row`] says.
    pub fn render(&self) -> (rows: Vec<Vec<Piece>>)
        ensures
            rows@.len() == if self.screen_size.y > 0 {
                self.screen_size.y as int
            } else {
                0
            },
            forall|y: int| 0 <= y < rows@.len() ==> views((#[trigger] rows@[y])@) == self.row(y),
    {
        let mut rows: Vec<Vec<Piece>> = Vec::new();
        let mut y: i32 = 0;
        while y < self.screen_size.y
            invariant
                0 <= y,
                y <= self.screen_size.y || y == 0,
                rows@.len() == y,
                forall|r: int| 0 <= r < rows@.len() ==> views((#[trigger] rows@[r])@) == self.row(r),
            decreases self.screen_size.y - y,
        {
            let mut row: Vec<Piece> = Vec::new();
            let mut x: i32 = 0;
            assert(views(row@) =~= self.row_cells(y as int, 0));
            while x < self.screen_size.x
                invariant
                    0 <= x,
                    x <= self.screen_size.x || x == 0,
                    views(row@) == self.row_cells(y as int, x as int),
                decreases self.screen_size.x - x,
            {
                let ghost before = row@;
                if self.game_state == GameState::Fight {
                    let mut pieces = self.render_fight_cell(x, y);
                    let ghost added = pieces@;
                    row.append(&mut pieces);
                    assert(views(row@) =~= views(before) + views(added));
                } else {
                    row.push(self.glyph_at(self.camera.checked_offset(x, y)));
                    assert(views(row@) =~= views(before) + seq![row@.last()@]);
                }
                x += 1;
            }
            let ghost cells = row@;
            let mut suffix = self.render_row_suffix(y);
            let ghost tail = suffix@;
            row.append(&mut suffix);
            assert(views(row@) =~= views(cells) + views(tail));
            assert(self.screen_size.x <= 0 ==> self.row_cells(y as int, self.screen_size.x as int)
                =~= self.row_cells(y as int, 0));
            rows.push(row);
            y += 1;
        }
        rows
    }
}

} // verus!
