//! The image list panel: an ordered list of images with a cursor and a
//! multi-row selection.

use vstd::prelude::*;
use std::collections::HashSet;
use crate::action::Action;
use crate::components::Component;
use crate::keymap::Keymap;
use crate::keys::KeyChord;
use crate::list_model::{clamp, first_in, kept_from, span, ListModel};
use crate::value::{ImageInfo, ImageStatus, StatusTone};
use crate::{Event, Mode};

verus! {

broadcast use vstd::std_specs::hash::group_hash_axioms;

/// The list of images with its cursor, selection and range anchor.
#[derive(Debug)]
pub struct ImageList {
    image_data: Vec<ImageInfo>,
    cursor: Option<usize>,
    selected_indices: HashSet<usize>,
    last_selection: Option<usize>,
}

impl View for ImageList {
    type V = ListModel;

    closed spec fn view(&self) -> ListModel {
        ListModel {
            items: self.image_data@,
            cursor: self.cursor,
            selected: self.selected_indices@,
            anchor: self.last_selection,
        }
    }
}

/// One row of the list as it is to be drawn.
#[derive(Debug)]
pub struct Row {
    /// Name of the file.
    pub filename: String,
    /// Size of the file, formatted.
    pub size: String,
    /// Text of the status.
    pub status: String,
    /// Tone that the status text is drawn with.
    pub tone: StatusTone,
    /// Whether the cursor is on this row.
    pub highlighted: bool,
    /// Whether this row is selected.
    pub selected: bool,
}

impl ListModel {
    /// Whether `row` shows the item at `index` as the list has it.
    pub open spec fn shows(self, index: int, row: Row) -> bool {
        &&& row.filename == self.items[index].filename
        &&& row.size == self.items[index].size
        &&& row.status@ == self.items[index].status.label_spec()
        &&& row.tone == self.items[index].status.tone_spec()
        &&& row.highlighted == (self.cursor == Some(index as usize))
        &&& row.selected == self.selected.contains(index as usize)
    }
}

/// Executable form of `clamp`.
fn clamp_to(pos: usize, len: usize) -> (cursor: Option<usize>)
    ensures
        cursor == clamp(pos, len as nat),
{
    if len == 0 {
        None
    } else if pos < len {
        Some(pos)
    } else {
        Some(len - 1)
    }
}

impl Default for ImageList {
    fn default() -> (list: Self)
        ensures
            list.wf(),
            list@ == ListModel::empty(),
    {
        ImageList::new()
    }
}

impl ImageList {
    /// The invariant of the list, see `ListModel::wf`.
    pub open spec fn wf(&self) -> bool {
        self@.wf()
    }

    /// The empty list.
    pub fn new() -> (list: Self)
        ensures
            list.wf(),
            list@ == ListModel::empty(),
    {
        ImageList {
            image_data: Vec::new(),
            cursor: None,
            selected_indices: HashSet::new(),
            last_selection: None,
        }
    }

    /// Appends an image; the first image to arrive gets the cursor.
    pub fn add_image(&mut self, image_info: ImageInfo)
        requires
            old(self).wf(),
        ensures
            final(self).wf(),
            final(self)@ == old(self)@.add(image_info),
    {
        self.image_data.push(image_info);
        if self.cursor.is_none() {
            self.cursor = Some(0);
        }
        assert(self.image_data@.len() == self.image_data.len());
    }

    /// Selects the rows between the anchor and `new_index` and moves the
    /// anchor there.
    pub fn extend_selection(&mut self, new_index: usize)
        requires
            old(self).wf(),
        ensures
            final(self).wf(),
            final(self)@ == old(self)@.extend_selection(new_index),
    {
        if new_index >= self.image_data.len() {
            return;
        }
        let from = match self.last_selection {
            Some(last) => last,
            None => new_index,
        };
        let start = if from < new_index { from } else { new_index };
        let end = if from < new_index { new_index } else { from };
        let mut i: usize = start;
        while i <= end
            invariant
                start <= i <= end + 1,
                end < self.image_data.len(),
                self.selected_indices@.finite(),
                self.image_data == old(self).image_data,
                self.cursor == old(self).cursor,
                self.last_selection == old(self).last_selection,
                self.selected_indices@ == old(self).selected_indices@.union(
                    Set::new(|j: usize| start <= j && j < i),
                ),
            decreases end + 1 - i,
        {
            self.selected_indices.insert(i);
            i += 1;
        }
        self.last_selection = Some(new_index);
        assert(self.selected_indices@ == old(self).selected_indices@.union(span(from, new_index)));
    }

    /// Removes the image at `index`, if there is one.
    pub fn remove_image(&mut self, index: usize)
        requires
            old(self).wf(),
        ensures
            final(self).wf(),
            final(self)@ == old(self)@.remove(index),
    {
        if index < self.image_data.len() {
            self.image_data.remove(index);
            let len = self.image_data.len();
            self.cursor = match self.cursor {
                Some(c) => clamp_to(c, len),
                None => None,
            };
            self.selected_indices.remove(&len);
            if self.last_selection == Some(len) {
                self.last_selection = None;
            }
        }
    }

    /// Removes every selected image, going from the highest index to the
    /// lowest.
    pub fn remove_selected_images(&mut self)
        requires
            old(self).wf(),
        ensures
            final(self).wf(),
            final(self)@ == old(self)@.remove_selected(),
    {
        if self.selected_indices.len() == 0 {
            return;
        }
        let n = self.image_data.len();
        let mut lowest: usize = n;
        let mut i: usize = n;
        while i > 0
            invariant
                i <= n,
                n == old(self).image_data@.len(),
                lowest <= n,
                self.selected_indices == old(self).selected_indices,
                self.image_data@ == old(self).image_data@.take(i as int) + kept_from(
                    old(self).image_data@,
                    old(self).selected_indices@,
                    i as int,
                ),
                lowest == first_in(old(self).selected_indices@, i as int, n as int),
            decreases i,
        {
            i -= 1;
            if self.selected_indices.contains(&i) {
                self.image_data.remove(i);
                lowest = i;
            }
            assert(old(self).image_data@.take(i + 1).drop_last() == old(self).image_data@.take(
                i as int,
            ));
        }
        self.cursor = clamp_to(lowest, self.image_data.len());
        self.selected_indices.clear();
        self.last_selection = None;
    }

    /// Overwrites the status of the image at `index`, if there is one.
    pub fn update_image_status(&mut self, index: usize, status: ImageStatus)
        requires
            old(self).wf(),
        ensures
            final(self).wf(),
            final(self)@ == old(self)@.set_status(index, status),
    {
        if index < self.image_data.len() {
            self.image_data[index].status = status;
        }
    }

    /// Removes all images.
    pub fn clear_images(&mut self)
        requires
            old(self).wf(),
        ensures
            final(self).wf(),
            final(self)@ == ListModel::empty(),
    {
        self.image_data.clear();
        self.cursor = None;
        self.selected_indices.clear();
        self.last_selection = None;
    }

    /// Puts the cursor on `target`; a selection of more than one row is
    /// dropped together with the anchor.
    fn move_cursor_to(&mut self, target: usize)
        requires
            old(self).wf(),
            target < old(self)@.items.len(),
        ensures
            final(self).wf(),
            final(self)@ == old(self)@.moved_to(target),
    {
        self.cursor = Some(target);
        if self.selected_indices.len() > 1 {
            self.selected_indices.clear();
            self.last_selection = None;
        }
    }

    /// Moves the cursor one row down; on the last row it stays.
    pub fn cursor_down(&mut self)
        requires
            old(self).wf(),
        ensures
            final(self).wf(),
            final(self)@ == old(self)@.cursor_down(),
    {
        if let Some(c) = self.cursor {
            if c + 1 < self.image_data.len() {
                self.move_cursor_to(c + 1);
            }
        }
    }

    /// Moves the cursor one row up; on the first row it stays.
    pub fn cursor_up(&mut self)
        requires
            old(self).wf(),
        ensures
            final(self).wf(),
            final(self)@ == old(self)@.cursor_up(),
    {
        if let Some(c) = self.cursor {
            if c > 0 {
                self.move_cursor_to(c - 1);
            }
        }
    }

    /// Extends the selection at the cursor, then moves the cursor one row
    /// down.
    pub fn extend_down(&mut self)
        requires
            old(self).wf(),
        ensures
            final(self).wf(),
            final(self)@ == old(self)@.extend_down(),
    {
        if let Some(c) = self.cursor {
            if c + 1 < self.image_data.len() {
                self.extend_selection(c);
                self.cursor = Some(c + 1);
            }
        }
    }

    /// Extends the selection at the cursor, then moves the cursor one row
    /// up.
    pub fn extend_up(&mut self)
        requires
            old(self).wf(),
        ensures
            final(self).wf(),
            final(self)@ == old(self)@.extend_up(),
    {
        if let Some(c) = self.cursor {
            if c > 0 {
                self.extend_selection(c);
                self.cursor = Some(c - 1);
            }
        }
    }

    /// Selects at the cursor: a range with shift, a toggle with control,
    /// the cursor row alone with neither.
    pub fn select_at_cursor(&mut self, chord: KeyChord)
        requires
            old(self).wf(),
        ensures
            final(self).wf(),
            final(self)@ == old(self)@.select_at_cursor(chord),
    {
        if let Some(c) = self.cursor {
            if chord.has_shift() {
                self.extend_selection(c);
            } else if chord.has_control() {
                if self.selected_indices.contains(&c) {
                    self.selected_indices.remove(&c);
                } else {
                    self.selected_indices.insert(c);
                }
                self.last_selection = Some(c);
            } else {
                self.selected_indices.clear();
                self.selected_indices.insert(c);
                self.last_selection = Some(c);
            }
        }
    }

    /// Removes the selected images, or the image at the cursor if none is
    /// selected.
    pub fn delete_selected(&mut self)
        requires
            old(self).wf(),
        ensures
            final(self).wf(),
            final(self)@ == old(self)@.delete(),
    {
        if self.selected_indices.len() > 0 {
            self.remove_selected_images();
        } else if let Some(c) = self.cursor {
            self.remove_image(c);
        }
    }

    /// Number of images.
    pub fn len(&self) -> (n: usize)
        ensures
            n == self@.items.len(),
    {
        self.image_data.len()
    }

    /// Whether there is no image.
    pub fn is_empty(&self) -> (empty: bool)
        ensures
            empty == (self@.items.len() == 0),
    {
        self.image_data.len() == 0
    }

    /// The images in display order.
    pub fn image_data(&self) -> (images: &Vec<ImageInfo>)
        ensures
            images@ == self@.items,
    {
        &self.image_data
    }

    /// Index of the row under the cursor.
    pub fn cursor(&self) -> (cursor: Option<usize>)
        ensures
            cursor == self@.cursor,
    {
        self.cursor
    }

    /// Index from which the next range extension is measured.
    pub fn anchor(&self) -> (anchor: Option<usize>)
        ensures
            anchor == self@.anchor,
    {
        self.last_selection
    }

    /// Whether the row at `index` is selected.
    pub fn is_selected(&self, index: usize) -> (selected: bool)
        ensures
            selected == self@.selected.contains(index),
    {
        self.selected_indices.contains(&index)
    }

    /// Number of selected rows.
    pub fn selected_count(&self) -> (n: usize)
        ensures
            n == self@.selected.len(),
    {
        self.selected_indices.len()
    }

    /// The selected indices in rising order.
    pub fn selected_indices(&self) -> (indices: Vec<usize>)
        requires
            self.wf(),
        ensures
            forall|i: int, j: int| 0 <= i < j < indices@.len() ==> indices@[i] < indices@[j],
            forall|k: usize|
                #![trigger indices@.contains(k)]
                #![trigger self@.selected.contains(k)]
                indices@.contains(k) <==> self@.selected.contains(k),
    {
        let mut indices: Vec<usize> = Vec::new();
        let mut i: usize = 0;
        while i < self.image_data.len()
            invariant
                i <= self.image_data.len(),
                forall|a: int, b: int| 0 <= a < b < indices@.len() ==> indices@[a] < indices@[b],
                forall|a: int| 0 <= a < indices@.len() ==> indices@[a] < i,
                forall|k: usize|
                    #![trigger indices@.contains(k)]
                    #![trigger self.selected_indices@.contains(k)]
                    indices@.contains(k) <==> (k < i && self.selected_indices@.contains(k)),
            decreases self.image_data.len() - i,
        {
            if self.selected_indices.contains(&i) {
                let ghost earlier = indices@;
                indices.push(i);
                proof {
                    assert forall|k: usize| #![trigger indices@.contains(k)]
                        indices@.contains(k) <==> (earlier.contains(k) || k == i) by {
                        if earlier.contains(k) {
                            let a = choose|a: int| 0 <= a < earlier.len() && earlier[a] == k;
                            assert(indices@[a] == k);
                        }
                        if k == i {
                            assert(indices@[earlier.len() as int] == k);
                        }
                    }
                }
            }
            i += 1;
        }
        indices
    }

    /// The row that shows the image at `index`.
    pub fn row(&self, index: usize) -> (row: Row)
        requires
            index < self@.items.len(),
        ensures
            self@.shows(index as int, row),
    {
        let item = &self.image_data[index];
        Row {
            filename: item.filename.clone(),
            size: item.size.clone(),
            status: item.status.label(),
            tone: item.status.tone(),
            highlighted: match self.cursor {
                Some(c) => c == index,
                None => false,
            },
            selected: self.selected_indices.contains(&index),
        }
    }

    /// The rows of the list, top to bottom.
    pub fn rows(&self) -> (rows: Vec<Row>)
        ensures
            rows@.len() == self@.items.len(),
            forall|i: int| 0 <= i < rows@.len() ==> self@.shows(i, #[trigger] rows@[i]),
    {
        let mut rows: Vec<Row> = Vec::new();
        let mut i: usize = 0;
        while i < self.image_data.len()
            invariant
                i <= self.image_data.len(),
                rows@.len() == i,
                forall|j: int| 0 <= j < i ==> self@.shows(j, #[trigger] rows@[j]),
            decreases self.image_data.len() - i,
        {
            let row = self.row(i);
            rows.push(row);
            i += 1;
        }
        rows
    }
}

impl Component for ImageList {
    open spec fn ready(&self) -> bool {
        self.wf()
    }

    /// Reacts to a raw event. A key press whose chord alone is bound, in
    /// the home mode, to a navigation, selection or delete command acts
    /// on the list; everything else is ignored. No command is sent back.
    fn handle_events(&mut self, keymap: &Keymap, event: Option<Event>) -> (reply: Option<
        Action,
    >)
        ensures
            reply is None,
            final(self)@ == (match event {
                Some(e) => old(self)@.on_event(keymap@, e),
                None => old(self)@,
            }),
    {
        if let Some(Event::Key(chord)) = event {
            let mut single: Vec<KeyChord> = Vec::new();
            single.push(chord);
            if let Some(action) = keymap.get(Mode::Home, &single) {
                match action {
                    Action::Down => self.cursor_down(),
                    Action::Up => self.cursor_up(),
                    Action::ShiftDown => self.extend_down(),
                    Action::ShiftUp => self.extend_up(),
                    Action::Select => self.select_at_cursor(chord),
                    Action::Delete => self.delete_selected(),
                    _ => {},
                }
            }
        }
        None
    }

    /// Reacts to a broadcast command: `ClearImages` empties the list,
    /// `UpdateImageStatus` overwrites one status, the rest is ignored. No
    /// command is sent back.
    fn update(&mut self, action: Action) -> (reply: Option<Action>)
        ensures
            reply is None,
            final(self)@ == old(self)@.on_action(action),
    {
        match action {
            Action::ClearImages => self.clear_images(),
            Action::UpdateImageStatus { index, status } => self.update_image_status(index, status),
            _ => {},
        }
        None
    }
}

} // verus!
