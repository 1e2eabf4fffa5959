use vstd::prelude::*;

use crate::config::tab::{ItemConfig, ItemModel, TabConfig, TabModel};
use crate::config::{ConfigOp, OpModel};
use crate::scene::THLOperation;
use crate::utils::Key;

verus! {

/// Hint left when a form is confirmed with an empty name.
pub open spec fn name_empty_hint() -> Seq<char> {
    "Operation failed. Name must not be empty."@
}

/// Hint left when the new-game form is confirmed with an empty path.
pub open spec fn path_empty_hint() -> Seq<char> {
    "Operation failed. Path must not be empty."@
}

/// Hint left when the path of the new-game form names no regular file.
pub open spec fn path_invalid_hint() -> Seq<char> {
    "Operation failed. Path is not a valid value."@
}

/// Hint left when a remove form holds no valid index.
pub open spec fn not_integer_hint() -> Seq<char> {
    "Operation failed. Input content is not a valid integer."@
}

/// Start of the hint left when a launched program failed.
pub open spec fn running_error_prefix() -> Seq<char> {
    "Some errors occur during the program running: "@
}

/// Whether `c` is one of the ASCII digits `0` to `9`.
pub open spec fn is_ascii_digit(c: char) -> bool {
    '0' as u32 <= c as u32 && c as u32 <= '9' as u32
}

/// The number that the decimal digits `s` spell.
pub open spec fn digits_value(s: Seq<char>) -> nat
    decreases s.len(),
{
    if s.len() == 0 {
        0
    } else {
        digits_value(s.drop_last()) * 10 + (s.last() as u32 - '0' as u32) as nat
    }
}

/// The index that `s` spells: an optional `+` and then at least one decimal
/// digit and nothing else, of a value that fits in `usize`.
pub open spec fn parse_index(s: Seq<char>) -> Option<nat> {
    let digits = if s.len() > 0 && s[0] == '+' {
        s.drop_first()
    } else {
        s
    };
    if digits.len() > 0 && (forall|i: int| 0 <= i < digits.len() ==> is_ascii_digit(#[trigger] digits[i]))
        && digits_value(digits) <= usize::MAX {
        Some(digits_value(digits))
    } else {
        None
    }
}

/// Relies on `usize::from_str`: an optional `+` followed by decimal digits
/// only, whose value fits in `usize`, and an error for anything else.
#[verifier::external_body]
fn parse_usize(s: &str) -> (r: Option<usize>)
    ensures
        r matches Some(n) ==> parse_index(s@) == Some(n as nat),
        r is None ==> parse_index(s@) is None,
{
    <usize as std::str::FromStr>::from_str(s).ok()
}

/// Relies on `String::push`: appends `c` at the end.
#[verifier::external_body]
fn push_char(s: &mut String, c: char)
    ensures
        final(s)@ == old(s)@.push(c),
{
    s.push(c);
}

/// Relies on `String::pop`: removes the last character, if there is one.
#[verifier::external_body]
fn pop_char(s: &mut String)
    ensures
        final(s)@ == if old(s)@.len() > 0 {
            old(s)@.drop_last()
        } else {
            old(s)@
        },
{
    s.pop();
}

/// Which field of the new-game form receives typed keys.
#[derive(Debug, Clone, Copy, PartialEq, Eq, Structural)]
pub enum InputFocus {
    Name,
    Path,
}

/// Key help of the common mode, with the hint that the last operation left.
#[derive(Debug)]
pub struct CommonInstruction {
    pub hint: Option<String>,
}

/// Shown while a program runs.
#[derive(Debug)]
pub struct RunningInstruction {
    pub program: String,
}

/// Form for a new item: its name and its path.
#[derive(Debug)]
pub struct NewGameInstruction {
    pub focus: InputFocus,
    pub input_name: String,
    pub input_path: String,
}

/// Form for a new tab: its name.
#[derive(Debug)]
pub struct NewTabInstruction {
    pub input_name: String,
}

/// Form for removing an item: its index in the current tab.
#[derive(Debug)]
pub struct RemoveGameInstruction {
    pub input_content: String,
}

/// Form for removing a tab: its index.
#[derive(Debug)]
pub struct RemoveTabInstruction {
    pub input_content: String,
}

/// The form of the instruction panel, one per mode.
#[derive(Debug)]
pub enum InstructionType {
    Common(CommonInstruction),
    Running(RunningInstruction),
    NewGame(NewGameInstruction),
    NewTab(NewTabInstruction),
    RemoveGame(RemoveGameInstruction),
    RemoveTab(RemoveTabInstruction),
}

/// What a form holds: its kind and its text.
pub ghost enum FormModel {
    Common { hint: Option<Seq<char>> },
    Running { program: Seq<char> },
    NewGame { focus: InputFocus, name: Seq<char>, path: Seq<char> },
    NewTab { name: Seq<char> },
    RemoveGame { content: Seq<char> },
    RemoveTab { content: Seq<char> },
}

impl View for InstructionType {
    type V = FormModel;

    open spec fn view(&self) -> FormModel {
        match self {
            InstructionType::Common(c) => FormModel::Common {
                hint: match c.hint {
                    Some(h) => Some(h@),
                    None => None,
                },
            },
            InstructionType::Running(r) => FormModel::Running { program: r.program@ },
            InstructionType::NewGame(g) => FormModel::NewGame {
                focus: g.focus,
                name: g.input_name@,
                path: g.input_path@,
            },
            InstructionType::NewTab(t) => FormModel::NewTab { name: t.input_name@ },
            InstructionType::RemoveGame(g) => FormModel::RemoveGame { content: g.input_content@ },
            InstructionType::RemoveTab(t) => FormModel::RemoveTab { content: t.input_content@ },
        }
    }
}

/// The common form without a hint.
pub open spec fn common_form() -> FormModel {
    FormModel::Common { hint: None }
}

/// The common form showing `hint`.
pub open spec fn failed_form(hint: Seq<char>) -> FormModel {
    FormModel::Common { hint: Some(hint) }
}

/// The empty form of mode `op`; `program` names what runs in `Running`.
pub open spec fn fresh_form(op: THLOperation, program: Seq<char>) -> FormModel {
    match op {
        THLOperation::Common => common_form(),
        THLOperation::Running => FormModel::Running { program },
        THLOperation::AppendingGame => FormModel::NewGame {
            focus: InputFocus::Name,
            name: Seq::empty(),
            path: Seq::empty(),
        },
        THLOperation::AppendingTab => FormModel::NewTab { name: Seq::empty() },
        THLOperation::RemovingGame => FormModel::RemoveGame { content: Seq::empty() },
        THLOperation::RemovingTab => FormModel::RemoveTab { content: Seq::empty() },
    }
}

/// A text field after `key`: backspace drops the last character, a
/// character is appended, any other key changes nothing.
pub open spec fn edited(text: Seq<char>, key: Key) -> Seq<char> {
    match key {
        Key::Backspace => if text.len() > 0 {
            text.drop_last()
        } else {
            text
        },
        Key::Char(c) => text.push(c),
        _ => text,
    }
}

/// A form after `key` reached its focused field; forms without a field are
/// left as they are.
pub open spec fn received(form: FormModel, key: Key) -> FormModel {
    match form {
        FormModel::NewGame { focus, name, path } => match focus {
            InputFocus::Name => FormModel::NewGame { focus, name: edited(name, key), path },
            InputFocus::Path => FormModel::NewGame { focus, name, path: edited(path, key) },
        },
        FormModel::NewTab { name } => FormModel::NewTab { name: edited(name, key) },
        FormModel::RemoveGame { content } => FormModel::RemoveGame { content: edited(content, key) },
        FormModel::RemoveTab { content } => FormModel::RemoveTab { content: edited(content, key) },
        _ => form,
    }
}

/// The new-game form with the other field focused; other forms unchanged.
pub open spec fn switched(form: FormModel) -> FormModel {
    match form {
        FormModel::NewGame { focus, name, path } => FormModel::NewGame {
            focus: match focus {
                InputFocus::Name => InputFocus::Path,
                InputFocus::Path => InputFocus::Name,
            },
            name,
            path,
        },
        _ => form,
    }
}

/// What confirming `form` gives while tab `tab` is current: the change it
/// asks for and the form shown next. The first failed check decides the
/// hint, and a failed form asks for no change.
pub open spec fn confirmed(form: FormModel, tab: nat, path_is_file: bool) -> (OpModel, FormModel) {
    match form {
        FormModel::NewGame { name, path, .. } => {
            if name.len() == 0 {
                (OpModel::NoOp, failed_form(name_empty_hint()))
            } else if path.len() == 0 {
                (OpModel::NoOp, failed_form(path_empty_hint()))
            } else if !path_is_file {
                (OpModel::NoOp, failed_form(path_invalid_hint()))
            } else {
                (
                    OpModel::AppendGame { tab_index: tab, config: ItemModel { name, path } },
                    common_form(),
                )
            }
        },
        FormModel::NewTab { name } => {
            if name.len() == 0 {
                (OpModel::NoOp, failed_form(name_empty_hint()))
            } else {
                (OpModel::AppendTab { config: TabModel { name, items: Seq::empty() } }, common_form())
            }
        },
        FormModel::RemoveGame { content } => match parse_index(content) {
            Some(n) => (OpModel::RemoveGame { tab_index: tab, item_index: n }, common_form()),
            None => (OpModel::NoOp, failed_form(not_integer_hint())),
        },
        FormModel::RemoveTab { content } => match parse_index(content) {
            Some(n) => (OpModel::RemoveTab { tab_index: n }, common_form()),
            None => (OpModel::NoOp, failed_form(not_integer_hint())),
        },
        FormModel::Common { .. } => (OpModel::NoOp, common_form()),
        FormModel::Running { .. } => (OpModel::NoOp, form),
    }
}

/// Applies `key` to a single text field.
fn edit(text: &mut String, key: Key)
    ensures
        final(text)@ == edited(old(text)@, key),
{
    match key {
        Key::Backspace => pop_char(text),
        Key::Char(ch) => push_char(text, ch),
        _ => {},
    }
}

impl CommonInstruction {
    pub fn new() -> (r: CommonInstruction)
        ensures
            r.hint is None,
    {
        CommonInstruction { hint: None }
    }
}

impl RunningInstruction {
    pub fn new(program: String) -> (r: RunningInstruction)
        ensures
            r.program@ == program@,
    {
        RunningInstruction { program }
    }
}

impl NewGameInstruction {
    pub fn new() -> (r: NewGameInstruction)
        ensures
            InstructionType::NewGame(r)@ == fresh_form(THLOperation::AppendingGame, Seq::empty()),
    {
        NewGameInstruction { focus: InputFocus::Name, input_name: String::new(), input_path: String::new() }
    }

    /// Moves the focus to the other field.
    pub fn switch_focus(&mut self)
        ensures
            InstructionType::NewGame(*final(self))@ == switched(InstructionType::NewGame(*old(self))@),
    {
        match self.focus {
            InputFocus::Name => self.focus = InputFocus::Path,
            InputFocus::Path => self.focus = InputFocus::Name,
        }
    }

    /// Edits the focused field.
    pub fn receive_input(&mut self, key: Key)
        ensures
            InstructionType::NewGame(*final(self))@ == received(
                InstructionType::NewGame(*old(self))@,
                key,
            ),
    {
        match self.focus {
            InputFocus::Name => edit(&mut self.input_name, key),
            InputFocus::Path => edit(&mut self.input_path, key),
        }
    }
}

impl NewTabInstruction {
    pub fn new() -> (r: NewTabInstruction)
        ensures
            r.input_name@ == Seq::<char>::empty(),
    {
        NewTabInstruction { input_name: String::new() }
    }

    pub fn receive_input(&mut self, key: Key)
        ensures
            final(self).input_name@ == edited(old(self).input_name@, key),
    {
        edit(&mut self.input_name, key);
    }
}

impl RemoveGameInstruction {
    pub fn new() -> (r: RemoveGameInstruction)
        ensures
            r.input_content@ == Seq::<char>::empty(),
    {
        RemoveGameInstruction { input_content: String::new() }
    }

    pub fn receive_input(&mut self, key: Key)
        ensures
            final(self).input_content@ == edited(old(self).input_content@, key),
    {
        edit(&mut self.input_content, key);
    }
}

impl RemoveTabInstruction {
    pub fn new() -> (r: RemoveTabInstruction)
        ensures
            r.input_content@ == Seq::<char>::empty(),
    {
        RemoveTabInstruction { input_content: String::new() }
    }

    pub fn receive_input(&mut self, key: Key)
        ensures
            final(self).input_content@ == edited(old(self).input_content@, key),
    {
        edit(&mut self.input_content, key);
    }
}

/// What the instruction panel holds: the current tab and the form shown.
pub ghost struct PanelModel {
    pub tab: nat,
    pub form: FormModel,
}

/// The instruction panel: the form of the current mode, and the tab that
/// its changes apply to.
#[derive(Debug)]
pub struct OperationPainter {
    current_tab: usize,
    instruction: InstructionType,
}

impl View for OperationPainter {
    type V = PanelModel;

    closed spec fn view(&self) -> PanelModel {
        PanelModel { tab: self.current_tab as nat, form: self.instruction@ }
    }
}

impl OperationPainter {
    /// The common form, on the first tab.
    pub fn new() -> (r: OperationPainter)
        ensures
            r@ == (PanelModel { tab: 0, form: common_form() }),
    {
        OperationPainter { current_tab: 0, instruction: InstructionType::Common(CommonInstruction::new()) }
    }

    pub fn set_tab(&mut self, index: usize)
        ensures
            final(self)@ == (PanelModel { tab: index as nat, ..old(self)@ }),
    {
        self.current_tab = index;
    }

    /// The form shown, for drawing.
    pub fn instruction(&self) -> (r: &InstructionType)
        ensures
            r@ == self@.form,
    {
        &self.instruction
    }

    pub fn current_tab(&self) -> (r: usize)
        ensures
            r == self@.tab,
    {
        self.current_tab
    }

    /// Shows the empty form of mode `op`; `mess` names the program of
    /// `Running`.
    pub fn switch_mode(&mut self, op: THLOperation, mess: Option<String>)
        requires
            op == THLOperation::Running ==> mess is Some,
        ensures
            final(self)@ == (PanelModel {
                form: fresh_form(
                    op,
                    match mess {
                        Some(m) => m@,
                        None => Seq::empty(),
                    },
                ),
                ..old(self)@
            }),
    {
        self.instruction = match op {
            THLOperation::Common => InstructionType::Common(CommonInstruction::new()),
            THLOperation::AppendingGame => InstructionType::NewGame(NewGameInstruction::new()),
            THLOperation::AppendingTab => InstructionType::NewTab(NewTabInstruction::new()),
            THLOperation::RemovingGame => InstructionType::RemoveGame(RemoveGameInstruction::new()),
            THLOperation::RemovingTab => InstructionType::RemoveTab(RemoveTabInstruction::new()),
            THLOperation::Running => match mess {
                Some(program) => InstructionType::Running(RunningInstruction::new(program)),
                None => InstructionType::Common(CommonInstruction::new()),
            },
        };
    }

    /// Hands `key` to the field of the form shown.
    pub fn input_word(&mut self, key: Key)
        ensures
            final(self)@ == (PanelModel { form: received(old(self)@.form, key), ..old(self)@ }),
    {
        match self.instruction {
            InstructionType::NewGame(ref mut inst) => inst.receive_input(key),
            InstructionType::NewTab(ref mut inst) => inst.receive_input(key),
            InstructionType::RemoveGame(ref mut inst) => inst.receive_input(key),
            InstructionType::RemoveTab(ref mut inst) => inst.receive_input(key),
            _ => {},
        }
    }

    /// Moves the focus of the new-game form; other forms are left alone.
    pub fn swtich_input_focus(&mut self)
        ensures
            final(self)@ == (PanelModel { form: switched(old(self)@.form), ..old(self)@ }),
    {
        if let InstructionType::NewGame(ref mut inst) = self.instruction {
            inst.switch_focus();
        }
    }

    /// Drops the form shown and its text, back to the common form.
    pub fn cancel_op(&mut self)
        ensures
            final(self)@ == (PanelModel { form: common_form(), ..old(self)@ }),
    {
        self.instruction = InstructionType::Common(CommonInstruction::new());
    }

    /// Shows why a launched program failed, when the common form is shown.
    pub fn set_running_error_hint(&mut self, mess: &str)
        ensures
            old(self)@.form is Common ==> final(self)@ == (PanelModel {
                form: failed_form(running_error_prefix() + mess@),
                ..old(self)@
            }),
            !(old(self)@.form is Common) ==> final(self)@ == old(self)@,
    {
        if let InstructionType::Common(ref mut inst) = self.instruction {
            let mut hint = "Some errors occur during the program running: ".to_owned();
            hint.append(mess);
            inst.hint = Some(hint);
        }
    }

    /// Shows the common form with `hint`.
    pub fn show_hint(&mut self, hint: String)
        ensures
            final(self)@ == (PanelModel { form: failed_form(hint@), ..old(self)@ }),
    {
        self.instruction = InstructionType::Common(CommonInstruction { hint: Some(hint) });
    }

    /// Checks the form shown and turns it into a change of the tab list;
    /// `path_is_file` tells whether the path of a new-game form names an
    /// existing regular file. The common form is shown next, with a hint
    /// when a check failed.
    pub fn confirm_op(&mut self, path_is_file: bool) -> (r: ConfigOp)
        ensures
            (r@, final(self)@.form) == confirmed(old(self)@.form, old(self)@.tab, path_is_file),
            final(self)@.tab == old(self)@.tab,
    {
        let (result, hint): (ConfigOp, Option<String>) = match self.instruction {
            InstructionType::NewGame(ref inst) => {
                if inst.input_name.as_str().is_empty() {
                    (ConfigOp::NoOp, Some("Operation failed. Name must not be empty.".to_owned()))
                } else if inst.input_path.as_str().is_empty() {
                    (ConfigOp::NoOp, Some("Operation failed. Path must not be empty.".to_owned()))
                } else if !path_is_file {
                    (ConfigOp::NoOp, Some("Operation failed. Path is not a valid value.".to_owned()))
                } else {
                    let config = ItemConfig {
                        name: inst.input_name.clone(),
                        path: inst.input_path.clone(),
                    };
                    (ConfigOp::AppendGame { tab_index: self.current_tab, config }, None)
                }
            },
            InstructionType::NewTab(ref inst) => {
                if inst.input_name.as_str().is_empty() {
                    (ConfigOp::NoOp, Some("Operation failed. Name must not be empty.".to_owned()))
                } else {
                    let config = TabConfig { name: inst.input_name.clone(), items: vec![] };
                    proof {
                        assert(config@.items =~= Seq::<ItemModel>::empty());
                    }
                    (ConfigOp::AppendTab { config }, None)
                }
            },
            InstructionType::RemoveGame(ref inst) => match parse_usize(inst.input_content.as_str()) {
                Some(game_index) => (
                    ConfigOp::RemoveGame { tab_index: self.current_tab, item_index: game_index },
                    None,
                ),
                None => (
                    ConfigOp::NoOp,
                    Some("Operation failed. Input content is not a valid integer.".to_owned()),
                ),
            },
            InstructionType::RemoveTab(ref inst) => match parse_usize(inst.input_content.as_str()) {
                Some(tab_index) => (ConfigOp::RemoveTab { tab_index }, None),
                None => (
                    ConfigOp::NoOp,
                    Some("Operation failed. Input content is not a valid integer.".to_owned()),
                ),
            },
            InstructionType::Common(_) => (ConfigOp::NoOp, None),
            InstructionType::Running(_) => {
                return ConfigOp::NoOp;
            },
        };
        self.instruction = InstructionType::Common(CommonInstruction { hint });
        result
    }
}

} // verus!
