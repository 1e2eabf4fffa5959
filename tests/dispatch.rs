use thl::config::tab::TabsConfig;
use thl::config::{ConfigOp, EngineConfig};
use thl::scene::ops::InstructionType;
use thl::scene::{EventNerve, SceneAction, SceneReaction, THLOperation, THLScene};
use thl::utils::{Key, THLEvent};

fn press(nerve: &mut EventNerve, key: Key) -> SceneAction {
    nerve.tick(THLEvent::Input(key))
}

#[test]
fn tick_asks_for_redraw() {
    let mut nerve = EventNerve::new();
    assert_eq!(nerve.tick(THLEvent::Tick), SceneAction::Rendering);
    assert_eq!(nerve.mode(), THLOperation::Common);
}

#[test]
fn common_mode_keys() {
    let mut nerve = EventNerve::new();
    assert_eq!(press(&mut nerve, Key::Right), SceneAction::React(SceneReaction::NextTab));
    assert_eq!(press(&mut nerve, Key::Left), SceneAction::React(SceneReaction::PreviousTab));
    assert_eq!(press(&mut nerve, Key::Down), SceneAction::React(SceneReaction::NextGame));
    assert_eq!(press(&mut nerve, Key::Up), SceneAction::React(SceneReaction::PreviousGame));
    assert_eq!(press(&mut nerve, Key::Char('\n')), SceneAction::React(SceneReaction::LaunchGame));
    assert_eq!(press(&mut nerve, Key::Char('x')), SceneAction::Rendering);
    assert_eq!(press(&mut nerve, Key::Ctrl('x')), SceneAction::Rendering);
    assert_eq!(nerve.mode(), THLOperation::Common);
    assert_eq!(press(&mut nerve, Key::Esc), SceneAction::Terminal);
}

#[test]
fn combination_keys_enter_forms() {
    let cases = [
        ('n', THLOperation::AppendingGame, SceneReaction::AppendGame),
        ('d', THLOperation::RemovingGame, SceneReaction::RemoveGame),
        ('t', THLOperation::AppendingTab, SceneReaction::AppendTab),
        ('r', THLOperation::RemovingTab, SceneReaction::RemoveTab),
    ];
    for (ch, mode, reaction) in cases {
        let mut nerve = EventNerve::new();
        assert_eq!(press(&mut nerve, Key::Ctrl(ch)), SceneAction::React(reaction));
        assert_eq!(nerve.mode(), mode);
    }
}

#[test]
fn form_keys_edit_confirm_and_cancel() {
    for ch in ['n', 'd', 't', 'r'] {
        let mut nerve = EventNerve::new();
        press(&mut nerve, Key::Ctrl(ch));
        let mode = nerve.mode();
        assert_eq!(
            press(&mut nerve, Key::Char('q')),
            SceneAction::React(SceneReaction::UserInput(Key::Char('q')))
        );
        assert_eq!(
            press(&mut nerve, Key::Backspace),
            SceneAction::React(SceneReaction::UserInput(Key::Backspace))
        );
        assert_eq!(
            press(&mut nerve, Key::Delete),
            SceneAction::React(SceneReaction::UserInput(Key::Delete))
        );
        assert_eq!(press(&mut nerve, Key::Left), SceneAction::Rendering);
        assert_eq!(nerve.tick(THLEvent::Tick), SceneAction::Rendering);
        assert_eq!(nerve.mode(), mode);
        assert_eq!(press(&mut nerve, Key::Esc), SceneAction::React(SceneReaction::CancelOp));
        assert_eq!(nerve.mode(), THLOperation::Common);
        press(&mut nerve, Key::Ctrl(ch));
        assert_eq!(
            press(&mut nerve, Key::Char('\n')),
            SceneAction::React(SceneReaction::ConfirmAction)
        );
        assert_eq!(nerve.mode(), THLOperation::Common);
    }
}

#[test]
fn arrows_switch_focus_only_in_new_game_form() {
    let mut nerve = EventNerve::new();
    press(&mut nerve, Key::Ctrl('n'));
    assert_eq!(press(&mut nerve, Key::Up), SceneAction::React(SceneReaction::SwitchInputFocus));
    assert_eq!(press(&mut nerve, Key::Down), SceneAction::React(SceneReaction::SwitchInputFocus));
    let mut other = EventNerve::new();
    press(&mut other, Key::Ctrl('t'));
    assert_eq!(press(&mut other, Key::Up), SceneAction::Rendering);
}

#[test]
fn keys_drive_scene_and_config_in_step() {
    let mut config = EngineConfig::default();
    let mut scene = THLScene::new(TabsConfig::default());
    let mut nerve = EventNerve::new();
    let mut keys = vec![Key::Ctrl('t')];
    keys.extend("Arcade\n".chars().map(Key::Char));
    keys.push(Key::Ctrl('r'));
    keys.extend("0\n".chars().map(Key::Char));
    keys.push(Key::Ctrl('d'));
    keys.push(Key::Char('x'));
    keys.push(Key::Esc);
    for key in keys {
        if let SceneAction::React(reaction) = press(&mut nerve, key) {
            let op = scene.react(reaction, false);
            if !matches!(op, ConfigOp::NoOp) {
                assert_eq!(config.update(op), Ok(()));
            }
        }
        let editing = nerve.mode() != THLOperation::Common;
        let common_form = matches!(scene.ops().instruction(), InstructionType::Common(_));
        assert_eq!(editing, !common_form);
    }
    let names: Vec<&str> = config.tabs.tabs.iter().map(|t| t.name.as_str()).collect();
    assert_eq!(names, vec!["Arcade"]);
    assert_eq!(scene.navtab().titles, vec!["Arcade".to_string()]);
    assert_eq!(scene.content().tabs().tabs.len(), 1);
    assert_eq!(nerve.mode(), THLOperation::Common);
}
