//! Key bindings and the resolver that turns chords into commands.

use vstd::prelude::*;
use crate::action::Action;
use crate::keys::{same_chords, KeyChord};
use crate::Mode;

verus! {

/// One entry of a keymap: in `mode`, the chord sequence `keys` stands for
/// `action`.
#[derive(Debug)]
pub struct Binding {
    pub mode: Mode,
    pub keys: Vec<KeyChord>,
    pub action: Action,
}

/// The bindings of every mode. A later binding of the same sequence in
/// the same mode replaces an earlier one.
#[derive(Debug)]
pub struct Keymap {
    bindings: Vec<Binding>,
}

/// What a keymap stands for: per mode and chord sequence, the command.
pub type Bindings = Map<(Mode, Seq<KeyChord>), Action>;

/// The table that a list of bindings builds up, entry after entry.
pub open spec fn table_of(bindings: Seq<Binding>) -> Bindings
    decreases bindings.len(),
{
    if bindings.len() == 0 {
        Map::empty()
    } else {
        let last = bindings.last();
        table_of(bindings.drop_last()).insert((last.mode, last.keys@), last.action)
    }
}

/// The command bound to `keys` in `mode`, if there is one.
pub open spec fn bound(table: Bindings, mode: Mode, keys: Seq<KeyChord>) -> Option<Action> {
    if table.dom().contains((mode, keys)) {
        Some(table[(mode, keys)])
    } else {
        None
    }
}

/// What pressing `newest` gives when `buffer` holds the chords pressed
/// before it in this tick: the command to emit, and the buffer afterwards.
///
/// A binding of `newest` alone wins and leaves the buffer as it is.
/// Otherwise `newest` joins the buffer, and the buffer as a whole is
/// looked up.
pub open spec fn resolve(table: Bindings, mode: Mode, buffer: Seq<KeyChord>, newest: KeyChord) -> (
    Option<Action>,
    Seq<KeyChord>,
) {
    if bound(table, mode, seq![newest]) is Some {
        (bound(table, mode, seq![newest]), buffer)
    } else {
        (bound(table, mode, buffer.push(newest)), buffer.push(newest))
    }
}

impl View for Keymap {
    type V = Bindings;

    closed spec fn view(&self) -> Bindings {
        table_of(self.bindings@)
    }
}

impl Keymap {
    /// A keymap without bindings.
    pub fn new() -> (keymap: Keymap)
        ensures
            keymap@ == Map::<(Mode, Seq<KeyChord>), Action>::empty(),
    {
        Keymap { bindings: Vec::new() }
    }

    /// Binds `keys` to `action` in `mode`, replacing what was bound there.
    pub fn bind(&mut self, mode: Mode, keys: Vec<KeyChord>, action: Action)
        ensures
            final(self)@ == old(self)@.insert((mode, keys@), action),
    {
        let binding = Binding { mode, keys, action };
        self.bindings.push(binding);
        assert(self.bindings@.drop_last() == old(self).bindings@);
    }

    /// Looks up the command bound to `keys` in `mode`.
    pub fn get(&self, mode: Mode, keys: &Vec<KeyChord>) -> (found: Option<&Action>)
        ensures
            found == (match bound(self@, mode, keys@) {
                Some(action) => Some(&action),
                None => None,
            }),
    {
        let mut i: usize = self.bindings.len();
        assert(self.bindings@.take(i as int) == self.bindings@);
        while i > 0
            invariant
                i <= self.bindings.len(),
                bound(self@, mode, keys@) == bound(
                    table_of(self.bindings@.take(i as int)),
                    mode,
                    keys@,
                ),
            decreases i,
        {
            assert(self.bindings@.take(i as int).drop_last() == self.bindings@.take(i - 1));
            i -= 1;
            let binding = &self.bindings[i];
            if binding.mode == mode && same_chords(&binding.keys, keys) {
                return Some(&binding.action);
            }
        }
        None
    }
}

/// Resolves one key press: emits the command that `resolve` names and
/// leaves in `buffer` the chords that `resolve` keeps pending.
pub fn resolve_key(
    keymap: &Keymap,
    mode: Mode,
    buffer: &mut Vec<KeyChord>,
    newest: KeyChord,
) -> (emitted: Option<Action>)
    ensures
        emitted == resolve(keymap@, mode, old(buffer)@, newest).0,
        final(buffer)@ == resolve(keymap@, mode, old(buffer)@, newest).1,
{
    let mut single: Vec<KeyChord> = Vec::new();
    single.push(newest);
    match keymap.get(mode, &single) {
        Some(action) => Some(action.clone()),
        None => {
            buffer.push(newest);
            match keymap.get(mode, buffer) {
                Some(action) => Some(action.clone()),
                None => None,
            }
        },
    }
}

/// A chord that is bound alone is emitted at once and never joins the
/// buffer, whatever longer sequences begin with it.
pub proof fn lemma_single_chord_wins(
    table: Bindings,
    mode: Mode,
    buffer: Seq<KeyChord>,
    newest: KeyChord,
)
    requires
        table.dom().contains((mode, seq![newest])),
    ensures
        resolve(table, mode, buffer, newest).0 == Some(table[(mode, seq![newest])]),
        resolve(table, mode, buffer, newest).1 == buffer,
{
}

/// A chord that is not bound alone joins the buffer, and a command is
/// emitted exactly when the buffer as a whole is bound.
pub proof fn lemma_unbound_chord_is_buffered(
    table: Bindings,
    mode: Mode,
    buffer: Seq<KeyChord>,
    newest: KeyChord,
)
    requires
        !table.dom().contains((mode, seq![newest])),
    ensures
        resolve(table, mode, buffer, newest).1 == buffer.push(newest),
        resolve(table, mode, buffer, newest).0 is Some <==> table.dom().contains(
            (mode, buffer.push(newest)),
        ),
        resolve(table, mode, buffer, newest).0 matches Some(action) ==> action == table[(
            mode,
            buffer.push(newest),
        )],
{
}

} // verus!
