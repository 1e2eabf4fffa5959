pub mod content;
pub mod lemmas;
pub mod navtab;
pub mod ops;

use vstd::prelude::*;

use crate::config::tab::{ItemConfig, TabModel, TabsConfig};
use crate::config::{applied, op_in_range, ConfigOp, OpModel};
use crate::scene::content::{item_count, next_item, previous_item, tab_after, ContentPainter};
use crate::scene::navtab::{next_index, previous_index, tab_names, NavTabPainter};
use crate::scene::ops::{
    common_form, confirmed, failed_form, fresh_form, received, running_error_prefix, switched,
    FormModel, InstructionType, OperationPainter,
};
use crate::utils::{Key, THLEvent};

verus! {

/// The interaction modes; each one decides which keys mean what.
#[derive(Debug, Clone, Copy, PartialEq, Eq, Structural)]
pub enum THLOperation {
    Common,
    Running,
    AppendingGame,
    RemovingGame,
    AppendingTab,
    RemovingTab,
}

/// What a single event asks for.
#[derive(Debug, Clone, Copy, PartialEq, Eq, Structural)]
pub enum SceneAction {
    Terminal,
    Rendering,
    React(SceneReaction),
}

/// A user intent, handed to the scene.
#[derive(Debug, Clone, Copy, PartialEq, Eq, Structural)]
pub enum SceneReaction {
    NextTab,
    PreviousTab,
    NextGame,
    PreviousGame,
    LaunchGame,
    AppendTab,
    RemoveTab,
    AppendGame,
    RemoveGame,
    SwitchInputFocus,
    CancelOp,
    ConfirmAction,
    UserInput(Key),
}

/// What the keys of a single text field mean: escape cancels, enter
/// confirms, characters and deletions edit.
pub open spec fn form_key(op: THLOperation, key: Key) -> (THLOperation, SceneAction) {
    match key {
        Key::Esc => (THLOperation::Common, SceneAction::React(SceneReaction::CancelOp)),
        Key::Char(c) => if c == '\n' {
            (THLOperation::Common, SceneAction::React(SceneReaction::ConfirmAction))
        } else {
            (op, SceneAction::React(SceneReaction::UserInput(key)))
        },
        Key::Delete | Key::Backspace => (op, SceneAction::React(SceneReaction::UserInput(key))),
        _ => (op, SceneAction::Rendering),
    }
}

/// The mode after `event` in mode `op`, and what the event asks for.
pub open spec fn dispatched(op: THLOperation, event: THLEvent<Key>) -> (THLOperation, SceneAction) {
    match event {
        THLEvent::Tick => (op, SceneAction::Rendering),
        THLEvent::Input(key) => match op {
            THLOperation::Common => match key {
                Key::Esc => (op, SceneAction::Terminal),
                Key::Right => (op, SceneAction::React(SceneReaction::NextTab)),
                Key::Left => (op, SceneAction::React(SceneReaction::PreviousTab)),
                Key::Down => (op, SceneAction::React(SceneReaction::NextGame)),
                Key::Up => (op, SceneAction::React(SceneReaction::PreviousGame)),
                Key::Char(c) => if c == '\n' {
                    (op, SceneAction::React(SceneReaction::LaunchGame))
                } else {
                    (op, SceneAction::Rendering)
                },
                Key::Ctrl(c) => if c == 'n' {
                    (THLOperation::AppendingGame, SceneAction::React(SceneReaction::AppendGame))
                } else if c == 'd' {
                    (THLOperation::RemovingGame, SceneAction::React(SceneReaction::RemoveGame))
                } else if c == 't' {
                    (THLOperation::AppendingTab, SceneAction::React(SceneReaction::AppendTab))
                } else if c == 'r' {
                    (THLOperation::RemovingTab, SceneAction::React(SceneReaction::RemoveTab))
                } else {
                    (op, SceneAction::Rendering)
                },
                _ => (op, SceneAction::Rendering),
            },
            THLOperation::AppendingGame => match key {
                Key::Up | Key::Down => (op, SceneAction::React(SceneReaction::SwitchInputFocus)),
                _ => form_key(op, key),
            },
            THLOperation::AppendingTab | THLOperation::RemovingGame | THLOperation::RemovingTab => {
                form_key(op, key)
            },
            THLOperation::Running => (op, SceneAction::Rendering),
        },
    }
}

/// The key dispatcher: it holds the mode and turns each event into an action.
#[derive(Debug)]
pub struct EventNerve {
    op: THLOperation,
}

impl View for EventNerve {
    type V = THLOperation;

    closed spec fn view(&self) -> THLOperation {
        self.op
    }
}

impl EventNerve {
    /// A dispatcher in the common mode.
    pub fn new() -> (r: EventNerve)
        ensures
            r@ == THLOperation::Common,
    {
        EventNerve { op: THLOperation::Common }
    }

    /// The current mode.
    pub fn mode(&self) -> (r: THLOperation)
        ensures
            r == self@,
    {
        self.op
    }

    /// Turns one event into an action, entering or leaving a mode when the
    /// key asks for it. A tick always asks for a redraw.
    pub fn tick(&mut self, event: THLEvent<Key>) -> (r: SceneAction)
        ensures
            (final(self)@, r) == dispatched(old(self)@, event),
    {
        let key = match event {
            THLEvent::Tick => return SceneAction::Rendering,
            THLEvent::Input(key) => key,
        };
        match self.op {
            THLOperation::Common => match key {
                Key::Esc => SceneAction::Terminal,
                Key::Right => SceneAction::React(SceneReaction::NextTab),
                Key::Left => SceneAction::React(SceneReaction::PreviousTab),
                Key::Down => SceneAction::React(SceneReaction::NextGame),
                Key::Up => SceneAction::React(SceneReaction::PreviousGame),
                Key::Char('\n') => SceneAction::React(SceneReaction::LaunchGame),
                Key::Ctrl('n') => {
                    self.op = THLOperation::AppendingGame;
                    SceneAction::React(SceneReaction::AppendGame)
                },
                Key::Ctrl('d') => {
                    self.op = THLOperation::RemovingGame;
                    SceneAction::React(SceneReaction::RemoveGame)
                },
                Key::Ctrl('t') => {
                    self.op = THLOperation::AppendingTab;
                    SceneAction::React(SceneReaction::AppendTab)
                },
                Key::Ctrl('r') => {
                    self.op = THLOperation::RemovingTab;
                    SceneAction::React(SceneReaction::RemoveTab)
                },
                _ => SceneAction::Rendering,
            },
            THLOperation::Running => SceneAction::Rendering,
            _ => match key {
                Key::Esc => {
                    self.op = THLOperation::Common;
                    SceneAction::React(SceneReaction::CancelOp)
                },
                Key::Char('\n') => {
                    self.op = THLOperation::Common;
                    SceneAction::React(SceneReaction::ConfirmAction)
                },
                Key::Char(_) | Key::Delete | Key::Backspace => SceneAction::React(
                    SceneReaction::UserInput(key),
                ),
                Key::Up | Key::Down => {
                    if self.op == THLOperation::AppendingGame {
                        SceneAction::React(SceneReaction::SwitchInputFocus)
                    } else {
                        SceneAction::Rendering
                    }
                },
                _ => SceneAction::Rendering,
            },
        }
    }
}


/// Hint left when a confirmed change names a tab or an item that does not
/// exist.
pub open spec fn out_of_range_hint() -> Seq<char> {
    "Operation failed. Index out of range."@
}

/// What the scene shows: the tabs, the tab shown, the selected item of that
/// tab, and the form of the instruction panel.
pub ghost struct SceneModel {
    pub tabs: Seq<TabModel>,
    pub tab: nat,
    pub item: Option<nat>,
    pub form: FormModel,
}

impl SceneModel {
    /// The tab shown exists (0 when there is none) and the selected item
    /// exists in it.
    pub open spec fn wf(self) -> bool {
        &&& if self.tabs.len() == 0 {
            self.tab == 0
        } else {
            self.tab < self.tabs.len()
        }
        &&& self.item matches Some(i) ==> i < item_count(self.tabs, self.tab)
    }

    /// The tab shown, or none when there is no tab.
    pub open spec fn selected_tab(self) -> Option<nat> {
        if self.tabs.len() == 0 {
            None
        } else {
            Some(self.tab)
        }
    }
}

/// The scene with the form replaced by `form`.
pub open spec fn with_form(m: SceneModel, form: FormModel) -> SceneModel {
    SceneModel { form, ..m }
}

/// The scene after a confirmed change `op` of the tab list: the change is
/// applied and the tab that it touched is shown, with no item selected.
pub open spec fn changed(m: SceneModel, op: OpModel, form: FormModel) -> SceneModel {
    SceneModel {
        tabs: applied(m.tabs, op),
        tab: tab_after(m.tabs.len(), m.tab, op),
        item: None,
        form,
    }
}

/// The scene after `reaction`, and the change of the tab list that it
/// confirms (`NoOp` for all but a successful confirmation). `path_is_file`
/// tells whether the path typed into a new-game form names a regular file.
pub open spec fn react_model(m: SceneModel, reaction: SceneReaction, path_is_file: bool) -> (
    SceneModel,
    OpModel,
) {
    let count = m.tabs.len();
    let items = item_count(m.tabs, m.tab);
    match reaction {
        SceneReaction::NextTab => if count > 0 {
            (SceneModel { tab: next_index(m.tab, count), item: None, ..m }, OpModel::NoOp)
        } else {
            (m, OpModel::NoOp)
        },
        SceneReaction::PreviousTab => if count > 0 {
            (SceneModel { tab: previous_index(m.tab, count), item: None, ..m }, OpModel::NoOp)
        } else {
            (m, OpModel::NoOp)
        },
        SceneReaction::NextGame => if items > 0 {
            (SceneModel { item: Some(next_item(m.item, items)), ..m }, OpModel::NoOp)
        } else {
            (m, OpModel::NoOp)
        },
        SceneReaction::PreviousGame => if items > 0 {
            (SceneModel { item: Some(previous_item(m.item, items)), ..m }, OpModel::NoOp)
        } else {
            (m, OpModel::NoOp)
        },
        SceneReaction::LaunchGame => match m.item {
            Some(i) => (
                with_form(
                    m,
                    FormModel::Running { program: m.tabs[m.tab as int].items[i as int].name },
                ),
                OpModel::NoOp,
            ),
            None => (m, OpModel::NoOp),
        },
        SceneReaction::AppendTab => (
            with_form(m, fresh_form(THLOperation::AppendingTab, Seq::empty())),
            OpModel::NoOp,
        ),
        SceneReaction::RemoveTab => (
            with_form(m, fresh_form(THLOperation::RemovingTab, Seq::empty())),
            OpModel::NoOp,
        ),
        SceneReaction::AppendGame => (
            with_form(m, fresh_form(THLOperation::AppendingGame, Seq::empty())),
            OpModel::NoOp,
        ),
        SceneReaction::RemoveGame => (
            with_form(m, fresh_form(THLOperation::RemovingGame, Seq::empty())),
            OpModel::NoOp,
        ),
        SceneReaction::SwitchInputFocus => (with_form(m, switched(m.form)), OpModel::NoOp),
        SceneReaction::UserInput(key) => (with_form(m, received(m.form, key)), OpModel::NoOp),
        SceneReaction::CancelOp => (with_form(m, common_form()), OpModel::NoOp),
        SceneReaction::ConfirmAction => {
            let (op, form) = confirmed(m.form, m.tab, path_is_file);
            if !op_in_range(m.tabs, op) {
                (with_form(m, failed_form(out_of_range_hint())), OpModel::NoOp)
            } else if op is NoOp {
                (with_form(m, form), OpModel::NoOp)
            } else {
                (changed(m, op, form), op)
            }
        },
    }
}

/// The scene once a launched program has returned: the common form, with
/// the reason of the failure when there was one.
pub open spec fn launch_finished(m: SceneModel, failure: Option<Seq<char>>) -> SceneModel {
    match failure {
        Some(mess) => with_form(m, failed_form(running_error_prefix() + mess)),
        None => with_form(m, common_form()),
    }
}

/// The tab bar, the content view and the instruction panel, kept in step.
#[derive(Debug)]
pub struct THLScene {
    navtab: NavTabPainter,
    content: ContentPainter,
    ops: OperationPainter,
}

impl View for THLScene {
    type V = SceneModel;

    closed spec fn view(&self) -> SceneModel {
        SceneModel {
            tabs: self.content@.tabs,
            tab: self.content@.tab,
            item: self.content@.item.index,
            form: self.ops@.form,
        }
    }
}

impl THLScene {
    /// The three views agree: one title per tab, the same tab selected in
    /// each, and the item cursor counting the items of that tab.
    pub closed spec fn wf(&self) -> bool {
        &&& self.content@.wf()
        &&& self.navtab.wf()
        &&& self.navtab.titles_view() == tab_names(self.content@.tabs)
        &&& self.navtab.state@.index == self.content@.tab
        &&& self.ops@.tab == self.content@.tab
    }

    /// A well-formed scene shows a well-formed model.
    pub proof fn lemma_wf(&self)
        requires
            self.wf(),
        ensures
            self@.wf(),
    {
    }

    /// Shows the first tab of `tabs` with the common form.
    pub fn new(tabs: TabsConfig) -> (r: THLScene)
        ensures
            r.wf(),
            r@ == (SceneModel { tabs: tabs@, tab: 0, item: None, form: common_form() }),
    {
        let navtab = NavTabPainter::new(&tabs);
        let content = ContentPainter::new(tabs);
        THLScene { navtab, content, ops: OperationPainter::new() }
    }

    /// The tab bar, for drawing.
    pub fn navtab(&self) -> (r: &NavTabPainter)
        ensures
            self.wf() ==> r.wf() && r.titles_view() == tab_names(self@.tabs) && r.state@.index
                == self@.tab,
    {
        &self.navtab
    }

    /// The content view, for drawing.
    pub fn content(&self) -> (r: &ContentPainter)
        ensures
            r@.tabs == self@.tabs,
            r@.tab == self@.tab,
            r@.item.index == self@.item,
    {
        &self.content
    }

    /// The instruction panel, for drawing.
    pub fn ops(&self) -> (r: &OperationPainter)
        ensures
            r@.form == self@.form,
    {
        &self.ops
    }

    /// Routes `reaction` to the view it concerns. A confirmed change is
    /// checked against the tab list, applied to every view, and returned for
    /// the configuration to apply in turn.
    pub fn react(&mut self, reaction: SceneReaction, path_is_file: bool) -> (r: ConfigOp)
        requires
            old(self).wf(),
        ensures
            final(self).wf(),
            (final(self)@, r@) == react_model(old(self)@, reaction, path_is_file),
    {
        match reaction {
            SceneReaction::LaunchGame => {
                let program = match self.content.current_program() {
                    Some(item) => Some(item.name.clone()),
                    None => None,
                };
                if program.is_some() {
                    self.ops.switch_mode(THLOperation::Running, program);
                }
            },
            SceneReaction::NextTab => {
                if self.navtab.state.count() > 0 {
                    self.navtab.state.next();
                    let current_tab = self.navtab.current_index();
                    self.content.set_tab(current_tab);
                    self.ops.set_tab(current_tab);
                }
            },
            SceneReaction::PreviousTab => {
                if self.navtab.state.count() > 0 {
                    self.navtab.state.previous();
                    let current_tab = self.navtab.current_index();
                    self.content.set_tab(current_tab);
                    self.ops.set_tab(current_tab);
                }
            },
            SceneReaction::NextGame => self.content.next_tab(),
            SceneReaction::PreviousGame => self.content.previous_tab(),
            SceneReaction::CancelOp => self.ops.cancel_op(),
            SceneReaction::ConfirmAction => {
                let ops = self.ops.confirm_op(path_is_file);
                match self.content.tabs().check(&ops) {
                    Ok(()) => {
                        self.update_config(&ops);
                        return ops;
                    },
                    Err(_) => {
                        self.ops.show_hint("Operation failed. Index out of range.".to_owned());
                    },
                }
            },
            SceneReaction::AppendTab => self.ops.switch_mode(THLOperation::AppendingTab, None),
            SceneReaction::RemoveTab => self.ops.switch_mode(THLOperation::RemovingTab, None),
            SceneReaction::AppendGame => self.ops.switch_mode(THLOperation::AppendingGame, None),
            SceneReaction::RemoveGame => self.ops.switch_mode(THLOperation::RemovingGame, None),
            SceneReaction::UserInput(key) => self.ops.input_word(key),
            SceneReaction::SwitchInputFocus => self.ops.swtich_input_focus(),
        }
        ConfigOp::NoOp
    }

    /// The program that the scene is running, if a launch is under way.
    pub fn running_program(&self) -> (r: Option<&ItemConfig>)
        requires
            self.wf(),
        ensures
            self@.form is Running && self@.item is Some ==> (r matches Some(item) && item@
                == self@.tabs[self@.tab as int].items[self@.item->0 as int]),
            !(self@.form is Running && self@.item is Some) ==> r is None,
    {
        match self.ops.instruction() {
            InstructionType::Running(_) => self.content.current_program(),
            _ => None,
        }
    }

    /// Ends a launch: back to the common form, with the reason of the
    /// failure as a hint when the program could not run or exited with an
    /// error.
    pub fn finish_launch(&mut self, failure: Option<&str>)
        requires
            old(self).wf(),
        ensures
            final(self).wf(),
            final(self)@ == launch_finished(
                old(self)@,
                match failure {
                    Some(mess) => Some(mess@),
                    None => None,
                },
            ),
    {
        self.ops.switch_mode(THLOperation::Common, None);
        if let Some(mess) = failure {
            self.ops.set_running_error_hint(mess);
        }
    }

    /// Shows `hint` on the common form, dropping any form in progress.
    pub fn show_hint(&mut self, hint: String)
        requires
            old(self).wf(),
        ensures
            final(self).wf(),
            final(self)@ == with_form(old(self)@, failed_form(hint@)),
    {
        self.ops.show_hint(hint);
    }

    /// Applies a checked change to the tab bar and the content view, and
    /// points the instruction panel at the tab shown.
    fn update_config(&mut self, ops: &ConfigOp)
        requires
            old(self).wf(),
            op_in_range(old(self)@.tabs, ops@),
            ops@ matches OpModel::AppendGame { tab_index, .. } ==> tab_index == old(self)@.tab,
            ops@ matches OpModel::RemoveGame { tab_index, .. } ==> tab_index == old(self)@.tab,
        ensures
            final(self).wf(),
            ops@ is NoOp ==> final(self)@ == old(self)@,
            !(ops@ is NoOp) ==> final(self)@ == changed(old(self)@, ops@, old(self)@.form),
    {
        let ghost before = self@.tabs;
        self.navtab.update_tabs(ops);
        self.content.update_tab(ops);
        let current_tab = self.content.current_tab();
        self.ops.set_tab(current_tab);
        assert(self.navtab.titles_view() =~= tab_names(applied(before, ops@)));
    }
}

} // verus!
