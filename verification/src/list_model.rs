//! The selectable list as a mathematical object: items in display
//! order, a cursor, a set of selected indices and a range anchor, and
//! what each command makes of them.

use vstd::prelude::*;
use crate::action::Action;
use crate::keymap::{bound, Bindings};
use crate::keys::KeyChord;
use crate::value::{ImageInfo, ImageStatus};
use crate::{Event, Mode};

verus! {

/// The indices from `a` to `b`, both included, whichever is larger.
pub open spec fn span(a: usize, b: usize) -> Set<usize> {
    Set::new(|i: usize| (a <= i && i <= b) || (b <= i && i <= a))
}

/// Where a cursor that stood at `pos` comes to rest in a list of `len`
/// items: at `pos` if that is still an index, else on the last item, and
/// nowhere if the list is empty.
pub open spec fn clamp(pos: usize, len: nat) -> Option<usize> {
    if len == 0 {
        None
    } else if pos < len {
        Some(pos)
    } else {
        Some((len - 1) as usize)
    }
}

/// The items at index `from` and above whose index is not in `gone`, in
/// their order.
pub open spec fn kept_from(items: Seq<ImageInfo>, gone: Set<usize>, from: int) -> Seq<ImageInfo>
    decreases items.len() - from,
{
    if from < 0 || from >= items.len() {
        Seq::empty()
    } else if gone.contains(from as usize) {
        kept_from(items, gone, from + 1)
    } else {
        seq![items[from]] + kept_from(items, gone, from + 1)
    }
}

/// The items whose index is not in `gone`, in their order.
pub open spec fn without(items: Seq<ImageInfo>, gone: Set<usize>) -> Seq<ImageInfo> {
    kept_from(items, gone, 0)
}

/// The indices at `from` and above, below `len`, that are not in `gone`,
/// in rising order.
pub open spec fn survivors(len: int, gone: Set<usize>, from: int) -> Seq<int>
    decreases len - from,
{
    if from < 0 || from >= len {
        Seq::empty()
    } else if gone.contains(from as usize) {
        survivors(len, gone, from + 1)
    } else {
        seq![from] + survivors(len, gone, from + 1)
    }
}

/// The least index in `set` that is at least `from` and below `len`, or
/// `len` if there is none.
pub open spec fn first_in(set: Set<usize>, from: int, len: int) -> int
    decreases len - from,
{
    if from < 0 || from >= len {
        len
    } else if set.contains(from as usize) {
        from
    } else {
        first_in(set, from + 1, len)
    }
}

/// State of the selectable list.
pub struct ListModel {
    /// The items, in insertion order, which is the display order.
    pub items: Seq<ImageInfo>,
    /// Index of the highlighted row.
    pub cursor: Option<usize>,
    /// Indices of the rows that are selected.
    pub selected: Set<usize>,
    /// Index from which a range extension is measured.
    pub anchor: Option<usize>,
}

impl ListModel {
    /// The invariant of the list: the cursor is absent exactly when there
    /// are no items, and cursor, anchor and every selected index point at
    /// an item.
    pub open spec fn wf(self) -> bool {
        &&& self.items.len() <= usize::MAX
        &&& self.cursor is None <==> self.items.len() == 0
        &&& self.cursor matches Some(c) ==> c < self.items.len()
        &&& self.anchor matches Some(a) ==> a < self.items.len()
        &&& self.selected.finite()
        &&& forall|i: usize| self.selected.contains(i) ==> i < self.items.len()
    }

    /// The list without items.
    pub open spec fn empty() -> ListModel {
        ListModel { items: Seq::empty(), cursor: None, selected: Set::empty(), anchor: None }
    }

    /// Appends an item; the first item to arrive gets the cursor.
    pub open spec fn add(self, item: ImageInfo) -> ListModel {
        ListModel {
            items: self.items.push(item),
            cursor: if self.cursor is None {
                Some(0usize)
            } else {
                self.cursor
            },
            ..self
        }
    }

    /// Appends the items one after the other.
    pub open spec fn add_all(self, items: Seq<ImageInfo>) -> ListModel
        decreases items.len(),
    {
        if items.len() == 0 {
            self
        } else {
            self.add_all(items.drop_last()).add(items.last())
        }
    }

    /// Makes one plain cursor move after the other: `true` is a move
    /// down, `false` a move up.
    pub open spec fn walk(self, downs: Seq<bool>) -> ListModel
        decreases downs.len(),
    {
        if downs.len() == 0 {
            self
        } else if downs.last() {
            self.walk(downs.drop_last()).cursor_down()
        } else {
            self.walk(downs.drop_last()).cursor_up()
        }
    }

    /// The set that holds the cursor, and nothing if there is no cursor.
    pub open spec fn cursor_set(self) -> Set<usize> {
        match self.cursor {
            Some(c) => set![c],
            None => Set::empty(),
        }
    }

    /// The cursor placed on `target`; a selection of more than one row
    /// does not survive the move.
    pub open spec fn moved_to(self, target: usize) -> ListModel {
        if self.selected.len() > 1 {
            ListModel { cursor: Some(target), selected: Set::empty(), anchor: None, ..self }
        } else {
            ListModel { cursor: Some(target), ..self }
        }
    }

    /// Moves the cursor one row down, unless it is on the last row.
    pub open spec fn cursor_down(self) -> ListModel {
        match self.cursor {
            Some(c) if c + 1 < self.items.len() => self.moved_to((c + 1) as usize),
            _ => self,
        }
    }

    /// Moves the cursor one row up, unless it is on the first row.
    pub open spec fn cursor_up(self) -> ListModel {
        match self.cursor {
            Some(c) if c > 0 => self.moved_to((c - 1) as usize),
            _ => self,
        }
    }

    /// Selects every row between the anchor and `index`, both included,
    /// and moves the anchor to `index`. Without an anchor the range is
    /// `index` alone. An `index` that is no row changes nothing.
    pub open spec fn extend_selection(self, index: usize) -> ListModel {
        if index < self.items.len() {
            let from = match self.anchor {
                Some(a) => a,
                None => index,
            };
            ListModel {
                selected: self.selected.union(span(from, index)),
                anchor: Some(index),
                ..self
            }
        } else {
            self
        }
    }

    /// Extends the selection at the cursor, then moves the cursor one row
    /// down. On the last row nothing happens.
    pub open spec fn extend_down(self) -> ListModel {
        match self.cursor {
            Some(c) if c + 1 < self.items.len() => ListModel {
                cursor: Some((c + 1) as usize),
                ..self.extend_selection(c)
            },
            _ => self,
        }
    }

    /// Extends the selection at the cursor, then moves the cursor one row
    /// up. On the first row nothing happens.
    pub open spec fn extend_up(self) -> ListModel {
        match self.cursor {
            Some(c) if c > 0 => ListModel {
                cursor: Some((c - 1) as usize),
                ..self.extend_selection(c)
            },
            _ => self,
        }
    }

    /// Selects at the cursor as the modifiers of `chord` ask: with shift
    /// the range from the anchor, with control the cursor row is toggled,
    /// with neither the cursor row becomes the whole selection. The
    /// anchor moves to the cursor in each case.
    pub open spec fn select_at_cursor(self, chord: KeyChord) -> ListModel {
        match self.cursor {
            Some(c) => if chord.shift_held() {
                self.extend_selection(c)
            } else if chord.control_held() {
                ListModel {
                    selected: if self.selected.contains(c) {
                        self.selected.remove(c)
                    } else {
                        self.selected.insert(c)
                    },
                    anchor: Some(c),
                    ..self
                }
            } else {
                ListModel { selected: set![c], anchor: Some(c), ..self }
            },
            None => self,
        }
    }

    /// Removes the item at `index`. Cursor, anchor and selection keep
    /// their numbers: the cursor is clamped to the shorter list, and an
    /// anchor or a selected index that now points past the end is dropped.
    /// An `index` that is no row changes nothing.
    pub open spec fn remove(self, index: usize) -> ListModel {
        if index < self.items.len() {
            let last = (self.items.len() - 1) as usize;
            ListModel {
                items: self.items.remove(index as int),
                cursor: match self.cursor {
                    Some(c) => clamp(c, last as nat),
                    None => None,
                },
                selected: self.selected.remove(last),
                anchor: if self.anchor == Some(last) {
                    None
                } else {
                    self.anchor
                },
            }
        } else {
            self
        }
    }

    /// Removes every selected item. The cursor goes to the lowest removed
    /// index, clamped to the shorter list; selection and anchor are
    /// cleared. Without a selection nothing changes.
    pub open spec fn remove_selected(self) -> ListModel {
        if self.selected.len() == 0 {
            self
        } else {
            let items = without(self.items, self.selected);
            ListModel {
                items,
                cursor: clamp(
                    first_in(self.selected, 0, self.items.len() as int) as usize,
                    items.len(),
                ),
                selected: Set::empty(),
                anchor: None,
            }
        }
    }

    /// The indices that a delete command removes: the selected ones, or
    /// the cursor row if none is selected.
    pub open spec fn doomed(self) -> Set<usize> {
        if self.selected.len() == 0 {
            match self.cursor {
                Some(c) => set![c],
                None => Set::empty(),
            }
        } else {
            self.selected
        }
    }

    /// The delete command: removes the selected items, or the cursor row
    /// if none is selected.
    pub open spec fn delete(self) -> ListModel {
        if self.selected.len() == 0 {
            match self.cursor {
                Some(c) => self.remove(c),
                None => self,
            }
        } else {
            self.remove_selected()
        }
    }

    /// Overwrites the status of the item at `index`; an `index` that is
    /// no row changes nothing.
    pub open spec fn set_status(self, index: usize, status: ImageStatus) -> ListModel {
        if index < self.items.len() {
            ListModel {
                items: self.items.update(
                    index as int,
                    ImageInfo { status, ..self.items[index as int] },
                ),
                ..self
            }
        } else {
            self
        }
    }

    /// What a key press does to the list, given the command that the
    /// chord alone is bound to.
    pub open spec fn on_key(self, command: Option<Action>, chord: KeyChord) -> ListModel {
        match command {
            Some(Action::Down) => self.cursor_down(),
            Some(Action::Up) => self.cursor_up(),
            Some(Action::ShiftDown) => self.extend_down(),
            Some(Action::ShiftUp) => self.extend_up(),
            Some(Action::Select) => self.select_at_cursor(chord),
            Some(Action::Delete) => self.delete(),
            _ => self,
        }
    }

    /// What a raw event does to the list: a key press acts through the
    /// single-chord bindings of the home mode, any other event is ignored.
    pub open spec fn on_event(self, table: Bindings, event: Event) -> ListModel {
        match event {
            Event::Key(chord) => self.on_key(bound(table, Mode::Home, seq![chord]), chord),
            _ => self,
        }
    }

    /// What a broadcast command does to the list.
    pub open spec fn on_action(self, action: Action) -> ListModel {
        match action {
            Action::ClearImages => ListModel::empty(),
            Action::UpdateImageStatus { index, status } => self.set_status(index, status),
            _ => self,
        }
    }
}

} // verus!
