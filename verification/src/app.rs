//! The orchestrator: it turns events into commands, queues them, and
//! hands each command to the panels in arrival order.

use vstd::prelude::*;
use std::collections::VecDeque;
use crate::action::Action;
use crate::components::Component;
use crate::keymap::{resolve, resolve_key, Bindings, Keymap};
use crate::keys::KeyChord;
use crate::list::ImageList;
use crate::list_model::ListModel;
use crate::options::OptionsPanel;
use crate::value::ImageInfo;
use crate::{Event, Focus, Mode};

verus! {

/// Share of the width, in percent, that the image list gets at start.
pub const DEFAULT_LEFT_PERCENTAGE: u16 = 60;

/// Work on the terminal that a command asks of the caller.
#[derive(Debug, Clone, Copy, PartialEq, Eq, Structural)]
pub enum Effect {
    /// Clear the screen.
    ClearScreen,
    /// Take over the new width and height, then draw a frame.
    Resize(u16, u16),
    /// Draw a frame.
    Render,
}

/// What the caller does once the queue has run dry.
#[derive(Debug, Clone, Copy, PartialEq, Eq, Structural)]
pub struct LoopStep {
    /// Release the terminal and take it back at once.
    pub suspend: bool,
    /// Release the terminal and leave the loop.
    pub quit: bool,
}

/// How a frame is divided among the panels.
#[derive(Debug, Clone, Copy, PartialEq, Eq, Structural)]
pub struct PanelLayout {
    /// Percent of the width for the image list, on the left.
    pub left_percentage: u16,
    /// Percent of the width for the options panel, on the right.
    pub right_percentage: u16,
    /// Whether the image list has the focus.
    pub list_focused: bool,
    /// Whether the options panel has the focus.
    pub options_focused: bool,
}

/// State of the orchestrator.
pub struct AppModel {
    /// The key bindings.
    pub table: Bindings,
    /// Set by `Quit`: the loop ends after this pass.
    pub should_quit: bool,
    /// Set by `Suspend`, reset by `Resume`.
    pub should_suspend: bool,
    /// The operating mode.
    pub mode: Mode,
    /// Chords pressed since the last tick that are bound to nothing alone.
    pub buffer: Seq<KeyChord>,
    /// Commands waiting to be dispatched, oldest first.
    pub queue: Seq<Action>,
    /// The panel that has the focus.
    pub focus: Focus,
    /// Percent of the width that the image list gets.
    pub left_percentage: u16,
    /// The image list.
    pub list: ListModel,
}

impl AppModel {
    /// The invariant of the orchestrator.
    pub open spec fn wf(self) -> bool {
        &&& self.list.wf()
        &&& self.left_percentage <= 100
    }

    /// The state at start: no commands, no chords, focus on the list.
    pub open spec fn initial(table: Bindings, list: ListModel) -> AppModel {
        AppModel {
            table,
            should_quit: false,
            should_suspend: false,
            mode: Mode::Home,
            buffer: Seq::empty(),
            queue: Seq::empty(),
            focus: Focus::ImageList,
            left_percentage: DEFAULT_LEFT_PERCENTAGE,
            list,
        }
    }

    /// Puts a command at the end of the queue.
    pub open spec fn enqueue(self, action: Action) -> AppModel {
        AppModel { queue: self.queue.push(action), ..self }
    }

    /// A key press: the resolver decides what is emitted and what stays
    /// in the chord buffer; an emitted command is queued.
    pub open spec fn on_key(self, chord: KeyChord) -> AppModel {
        let (emitted, buffer) = resolve(self.table, self.mode, self.buffer, chord);
        AppModel {
            buffer,
            queue: match emitted {
                Some(action) => self.queue.push(action),
                None => self.queue,
            },
            ..self
        }
    }

    /// The commands that an event translates to are queued.
    pub open spec fn translate(self, event: Event) -> AppModel {
        match event {
            Event::Quit => self.enqueue(Action::Quit),
            Event::Tick => self.enqueue(Action::Tick),
            Event::Render => self.enqueue(Action::Render),
            Event::Resize(width, height) => self.enqueue(Action::Resize(width, height)),
            Event::Key(chord) => self.on_key(chord),
        }
    }

    /// An event: it is translated into commands, then shown to the image
    /// list.
    pub open spec fn on_event(self, event: Event) -> AppModel {
        let translated = self.translate(event);
        AppModel { list: translated.list.on_event(translated.table, event), ..translated }
    }

    /// The terminal work that a command asks for.
    pub open spec fn effect_of(action: Action) -> Option<Effect> {
        match action {
            Action::ClearScreen => Some(Effect::ClearScreen),
            Action::Resize(width, height) => Some(Effect::Resize(width, height)),
            Action::Render => Some(Effect::Render),
            _ => None,
        }
    }

    /// What one command does to the orchestrator itself and, through the
    /// broadcast, to the image list.
    pub open spec fn dispatch(self, action: Action) -> AppModel {
        AppModel {
            buffer: if action is Tick {
                Seq::empty()
            } else {
                self.buffer
            },
            should_quit: self.should_quit || action is Quit,
            should_suspend: if action is Suspend {
                true
            } else if action is Resume {
                false
            } else {
                self.should_suspend
            },
            list: self.list.on_action(action),
            ..self
        }
    }

    /// Dispatches the queued commands, oldest first, up to and including
    /// the first one that asks for terminal work; gives the state reached
    /// and that work. `None` means that the queue ran dry.
    pub open spec fn drain(self) -> (AppModel, Option<Effect>)
        decreases self.queue.len(),
    {
        if self.queue.len() == 0 {
            (self, None)
        } else {
            let action = self.queue.first();
            let next = AppModel { queue: self.queue.drop_first(), ..self }.dispatch(action);
            if Self::effect_of(action) is Some {
                (next, Self::effect_of(action))
            } else {
                next.drain()
            }
        }
    }

    /// Dispatches the given commands one after the other.
    pub open spec fn dispatch_all(self, actions: Seq<Action>) -> AppModel
        decreases actions.len(),
    {
        if actions.len() == 0 {
            self
        } else {
            self.dispatch_all(actions.drop_last()).dispatch(actions.last())
        }
    }

    /// How many commands of `queue`, from its front, a drain takes: all
    /// up to and including the first that asks for terminal work.
    pub open spec fn taken(queue: Seq<Action>) -> nat
        decreases queue.len(),
    {
        if queue.len() == 0 {
            0
        } else if Self::effect_of(queue.first()) is Some {
            1
        } else {
            1 + Self::taken(queue.drop_first())
        }
    }

    /// The end of a pass: a pending suspension queues `Resume` and then
    /// `ClearScreen`.
    pub open spec fn end_pass(self) -> AppModel {
        if self.should_suspend {
            self.enqueue(Action::Resume).enqueue(Action::ClearScreen)
        } else {
            self
        }
    }

    /// What the caller is told at the end of a pass.
    pub open spec fn step(self) -> LoopStep {
        LoopStep { suspend: self.should_suspend, quit: self.should_quit }
    }

    /// How a frame is divided.
    pub open spec fn layout(self) -> PanelLayout {
        PanelLayout {
            left_percentage: self.left_percentage,
            right_percentage: (100 - self.left_percentage) as u16,
            list_focused: self.focus == Focus::ImageList,
            options_focused: self.focus == Focus::OptionsPanel,
        }
    }
}

/// The orchestrator.
#[derive(Debug)]
pub struct App {
    keymap: Keymap,
    should_quit: bool,
    should_suspend: bool,
    mode: Mode,
    last_tick_key_events: Vec<KeyChord>,
    pending: VecDeque<Action>,
    focused_component: Focus,
    left_panel_percentage: u16,
    image_list: ImageList,
    options_panel: OptionsPanel,
}

impl View for App {
    type V = AppModel;

    closed spec fn view(&self) -> AppModel {
        AppModel {
            table: self.keymap@,
            should_quit: self.should_quit,
            should_suspend: self.should_suspend,
            mode: self.mode,
            buffer: self.last_tick_key_events@,
            queue: self.pending@,
            focus: self.focused_component,
            left_percentage: self.left_panel_percentage,
            list: self.image_list@,
        }
    }
}

impl Default for App {
    fn default() -> (app: Self)
        ensures
            app.wf(),
            app@ == AppModel::initial(Map::empty(), ListModel::empty()),
    {
        App {
            keymap: Keymap::new(),
            should_quit: false,
            should_suspend: false,
            mode: Mode::Home,
            last_tick_key_events: Vec::new(),
            pending: VecDeque::new(),
            focused_component: Focus::ImageList,
            left_panel_percentage: DEFAULT_LEFT_PERCENTAGE,
            image_list: ImageList::new(),
            options_panel: OptionsPanel::new(),
        }
    }
}

impl App {
    /// The invariant of the orchestrator, see `AppModel::wf`.
    pub open spec fn wf(&self) -> bool {
        self@.wf()
    }

    /// An orchestrator with the given bindings, whose list holds the
    /// given images in their order.
    pub fn new(keymap: Keymap, images: Vec<ImageInfo>) -> (app: Self)
        ensures
            app.wf(),
            app@ == AppModel::initial(keymap@, ListModel::empty().add_all(images@)),
    {
        let mut image_list = ImageList::new();
        let ghost all = images@;
        for image in iter: images.into_iter()
            invariant
                iter.seq() == all,
                image_list.wf(),
                image_list@ == ListModel::empty().add_all(all.take(iter.index() as int)),
        {
            image_list.add_image(image);
            assert(all.take(iter.index() + 1).drop_last() == all.take(iter.index() as int));
        }
        assert(all.take(all.len() as int) == all);
        App {
            keymap,
            should_quit: false,
            should_suspend: false,
            mode: Mode::Home,
            last_tick_key_events: Vec::new(),
            pending: VecDeque::new(),
            focused_component: Focus::ImageList,
            left_panel_percentage: DEFAULT_LEFT_PERCENTAGE,
            image_list,
            options_panel: OptionsPanel::new(),
        }
    }

    /// Queues a command behind those that wait.
    pub fn enqueue(&mut self, action: Action)
        requires
            old(self).wf(),
        ensures
            final(self).wf(),
            final(self)@ == old(self)@.enqueue(action),
    {
        self.pending.push_back(action);
    }

    /// Resolves a key press against the bindings and queues the command
    /// that it completes, if any.
    pub fn handle_key_event(&mut self, key: KeyChord)
        requires
            old(self).wf(),
        ensures
            final(self).wf(),
            final(self)@ == old(self)@.on_key(key),
    {
        let emitted = resolve_key(&self.keymap, self.mode, &mut self.last_tick_key_events, key);
        if let Some(action) = emitted {
            self.pending.push_back(action);
        }
    }

    /// Takes an event from the terminal: queues the commands it stands
    /// for and shows it to the panels, queueing what they reply.
    pub fn handle_events(&mut self, event: Event)
        requires
            old(self).wf(),
        ensures
            final(self).wf(),
            final(self)@ == old(self)@.on_event(event),
    {
        match event {
            Event::Quit => self.enqueue(Action::Quit),
            Event::Tick => self.enqueue(Action::Tick),
            Event::Render => self.enqueue(Action::Render),
            Event::Resize(width, height) => self.enqueue(Action::Resize(width, height)),
            Event::Key(key) => self.handle_key_event(key),
        }
        if let Some(action) = self.image_list.handle_events(&self.keymap, Some(event)) {
            self.pending.push_back(action);
        }
        if let Some(action) = self.options_panel.handle_events(&self.keymap, Some(event)) {
            self.pending.push_back(action);
        }
    }

    /// Applies one command: the orchestrator's own part first, then the
    /// broadcast to the panels, whose replies are queued. Returns the
    /// terminal work that the command asks for.
    pub fn dispatch(&mut self, action: Action) -> (effect: Option<Effect>)
        requires
            old(self).wf(),
        ensures
            final(self).wf(),
            final(self)@ == old(self)@.dispatch(action),
            effect == AppModel::effect_of(action),
    {
        let effect = match &action {
            Action::Tick => {
                self.last_tick_key_events.clear();
                None
            },
            Action::Quit => {
                self.should_quit = true;
                None
            },
            Action::Suspend => {
                self.should_suspend = true;
                None
            },
            Action::Resume => {
                self.should_suspend = false;
                None
            },
            Action::ClearScreen => Some(Effect::ClearScreen),
            Action::Resize(width, height) => Some(Effect::Resize(*width, *height)),
            Action::Render => Some(Effect::Render),
            _ => None,
        };
        if let Some(reply) = self.options_panel.update(action.clone()) {
            self.pending.push_back(reply);
        }
        if let Some(reply) = self.image_list.update(action) {
            self.pending.push_back(reply);
        }
        effect
    }

    /// Dispatches the queued commands in arrival order until one asks for
    /// terminal work, which is returned, or until the queue is empty.
    pub fn handle_actions(&mut self) -> (effect: Option<Effect>)
        requires
            old(self).wf(),
        ensures
            final(self).wf(),
            final(self)@ == old(self)@.drain().0,
            effect == old(self)@.drain().1,
    {
        loop
            invariant
                self.wf(),
                self@.drain() == old(self)@.drain(),
            decreases self.pending@.len(),
        {
            let ghost before = self@;
            match self.pending.pop_front() {
                None => {
                    return None;
                },
                Some(action) => {
                    let effect = self.dispatch(action);
                    if effect.is_some() {
                        return effect;
                    }
                },
            }
        }
    }

    /// Closes a pass of the loop: a pending suspension queues `Resume`
    /// and `ClearScreen`; the result tells the caller whether to cycle
    /// the terminal and whether to leave.
    pub fn end_pass(&mut self) -> (step: LoopStep)
        requires
            old(self).wf(),
        ensures
            final(self).wf(),
            final(self)@ == old(self)@.end_pass(),
            step == old(self)@.step(),
    {
        if self.should_suspend {
            self.pending.push_back(Action::Resume);
            self.pending.push_back(Action::ClearScreen);
        }
        LoopStep { suspend: self.should_suspend, quit: self.should_quit }
    }

    /// How the next frame is divided among the panels.
    pub fn layout(&self) -> (layout: PanelLayout)
        requires
            self.wf(),
        ensures
            layout == self@.layout(),
            layout.left_percentage + layout.right_percentage == 100,
    {
        PanelLayout {
            left_percentage: self.left_panel_percentage,
            right_percentage: 100 - self.left_panel_percentage,
            list_focused: self.focused_component == Focus::ImageList,
            options_focused: self.focused_component == Focus::OptionsPanel,
        }
    }

    /// Whether a `Quit` command has been dispatched.
    pub fn should_quit(&self) -> (flag: bool)
        ensures
            flag == self@.should_quit,
    {
        self.should_quit
    }

    /// Whether a suspension is pending.
    pub fn should_suspend(&self) -> (flag: bool)
        ensures
            flag == self@.should_suspend,
    {
        self.should_suspend
    }

    /// The operating mode.
    pub fn mode(&self) -> (mode: Mode)
        ensures
            mode == self@.mode,
    {
        self.mode
    }

    /// The panel that has the focus.
    pub fn focus(&self) -> (focus: Focus)
        ensures
            focus == self@.focus,
    {
        self.focused_component
    }

    /// Number of commands that wait in the queue.
    pub fn pending_len(&self) -> (n: usize)
        ensures
            n == self@.queue.len(),
    {
        self.pending.len()
    }

    /// The chords that wait for a longer binding to complete.
    pub fn pending_chords(&self) -> (chords: &Vec<KeyChord>)
        ensures
            chords@ == self@.buffer,
    {
        &self.last_tick_key_events
    }

    /// The key bindings.
    pub fn keymap(&self) -> (keymap: &Keymap)
        ensures
            keymap@ == self@.table,
    {
        &self.keymap
    }

    /// The image list.
    pub fn image_list(&self) -> (list: &ImageList)
        ensures
            list@ == self@.list,
    {
        &self.image_list
    }

    /// The options panel.
    pub fn options_panel(&self) -> (panel: &OptionsPanel)
        ensures
            *panel == (OptionsPanel {  }),
    {
        &self.options_panel
    }
}

/// Dispatching does not depend on what waits in the queue, and leaves
/// the queue alone.
pub proof fn lemma_dispatch_all_ignores_queue(app: AppModel, queue: Seq<Action>, actions: Seq<Action>)
    ensures
        (AppModel { queue, ..app }).dispatch_all(actions) == (AppModel {
            queue,
            ..app.dispatch_all(actions)
        }),
        app.dispatch_all(actions).queue == app.queue,
    decreases actions.len(),
{
    if actions.len() > 0 {
        lemma_dispatch_all_ignores_queue(app, queue, actions.drop_last());
    }
}

/// Dispatching a command and then some more is dispatching all of them.
pub proof fn lemma_dispatch_all_from_front(app: AppModel, first: Action, rest: Seq<Action>)
    ensures
        app.dispatch_all(seq![first] + rest) == app.dispatch(first).dispatch_all(rest),
    decreases rest.len(),
{
    let all = seq![first] + rest;
    if rest.len() == 0 {
        assert(app.dispatch_all(all.drop_last()) == app);
    } else {
        lemma_dispatch_all_from_front(app, first, rest.drop_last());
        assert(all.drop_last() == seq![first] + rest.drop_last());
    }
}

/// A drain works in arrival order: it dispatches the commands at the
/// front of the queue, in their order, up to and including the first
/// that asks for terminal work, and leaves the others waiting. It
/// reports that work, or `None` when it has taken the whole queue. The
/// orchestrator stays well formed.
pub proof fn lemma_drain_is_first_in_first_out(app: AppModel)
    requires
        app.wf(),
    ensures
        AppModel::taken(app.queue) <= app.queue.len(),
        app.drain().0 == (AppModel {
            queue: app.queue.skip(AppModel::taken(app.queue) as int),
            ..app.dispatch_all(app.queue.take(AppModel::taken(app.queue) as int))
        }),
        forall|i: int|
            0 <= i < AppModel::taken(app.queue) - 1 ==> AppModel::effect_of(
                #[trigger] app.queue[i],
            ) is None,
        app.drain().1 == (if AppModel::taken(app.queue) == 0 {
            None
        } else {
            AppModel::effect_of(app.queue[AppModel::taken(app.queue) - 1])
        }),
        app.drain().1 is None ==> app.drain().0.queue.len() == 0,
        app.drain().0.wf(),
    decreases app.queue.len(),
{
    let n = AppModel::taken(app.queue) as int;
    if app.queue.len() == 0 {
        assert(app.queue.skip(0) == app.queue);
    } else {
        let first = app.queue.first();
        let rest = app.queue.drop_first();
        let next = (AppModel { queue: rest, ..app }).dispatch(first);
        lemma_dispatch_keeps_wf(AppModel { queue: rest, ..app }, first);
        if AppModel::effect_of(first) is Some {
            assert(app.queue.take(1) == seq![first] + Seq::<Action>::empty());
            lemma_dispatch_all_from_front(app, first, Seq::empty());
        } else {
            lemma_drain_is_first_in_first_out(next);
            let m = AppModel::taken(rest) as int;
            assert(rest.skip(m) == app.queue.skip(n));
            assert(app.queue.take(n) == seq![first] + rest.take(m));
            lemma_dispatch_all_from_front(app, first, rest.take(m));
            lemma_dispatch_all_ignores_queue(app.dispatch(first), rest, rest.take(m));
            assert forall|i: int| 0 <= i < n - 1 implies AppModel::effect_of(
                #[trigger] app.queue[i],
            ) is None by {
                if i > 0 {
                    assert(app.queue[i] == rest[i - 1]);
                }
            }
        }
    }
}

/// One command keeps the orchestrator well formed, and only `Quit` sets
/// the quit flag, which nothing resets.
pub proof fn lemma_dispatch_keeps_wf(app: AppModel, action: Action)
    requires
        app.wf(),
    ensures
        app.dispatch(action).wf(),
        app.dispatch(action).queue == app.queue,
        app.dispatch(action).table == app.table,
        app.dispatch(action).should_quit == (app.should_quit || action is Quit),
        action is Tick ==> app.dispatch(action).buffer.len() == 0,
{
}

/// An event keeps the orchestrator well formed and only ever adds to the
/// end of the queue: at most one command.
pub proof fn lemma_event_appends_at_most_one(app: AppModel, event: Event)
    requires
        app.wf(),
    ensures
        app.on_event(event).wf(),
        app.on_event(event).queue == app.queue || (exists|action: Action|
            app.on_event(event).queue == app.queue.push(action)),
        !(event is Key) ==> app.on_event(event).buffer == app.buffer && app.on_event(event).list
            == app.list,
{
    if let Event::Key(chord) = event {
        let command = crate::keymap::bound(app.table, Mode::Home, seq![chord]);
        crate::list_laws::lemma_commands_keep_wf(app.list, command, chord);
    }
}

} // verus!
