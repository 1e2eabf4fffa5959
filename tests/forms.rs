use thl::config::tab::{ItemConfig, TabConfig, TabsConfig};
use thl::config::{ConfigError, ConfigOp, EngineConfig};
use thl::config::setting::SettingConfig;
use thl::scene::ops::{InputFocus, InstructionType, OperationPainter};
use thl::scene::{SceneReaction, THLOperation, THLScene};
use thl::utils::Key;

fn sample_tabs() -> TabsConfig {
    TabsConfig {
        tabs: vec![
            TabConfig {
                name: "Board".to_string(),
                items: vec![ItemConfig { name: "Go".to_string(), path: "/bin/go".to_string() }],
            },
            TabConfig { name: "Cards".to_string(), items: vec![] },
        ],
    }
}

fn type_text(scene: &mut THLScene, text: &str) {
    for ch in text.chars() {
        scene.react(SceneReaction::UserInput(Key::Char(ch)), false);
    }
}

fn hint(scene: &THLScene) -> Option<String> {
    match scene.ops().instruction() {
        InstructionType::Common(c) => c.hint.clone(),
        other => panic!("expected the common form, got {:?}", other),
    }
}

fn config_of(tabs: TabsConfig) -> EngineConfig {
    EngineConfig { tabs, setting: SettingConfig::default() }
}

#[test]
fn new_game_with_existing_file_is_appended_and_persisted() {
    let mut scene = THLScene::new(sample_tabs());
    let mut config = config_of(sample_tabs());
    scene.react(SceneReaction::NextTab, false);
    scene.react(SceneReaction::AppendGame, false);
    type_text(&mut scene, "Chess");
    scene.react(SceneReaction::SwitchInputFocus, false);
    type_text(&mut scene, "/usr/games/chess");
    let op = scene.react(SceneReaction::ConfirmAction, true);
    match &op {
        ConfigOp::AppendGame { tab_index, config } => {
            assert_eq!(*tab_index, 1);
            assert_eq!(config.name, "Chess");
            assert_eq!(config.path, "/usr/games/chess");
        },
        other => panic!("unexpected op {:?}", other),
    }
    assert_eq!(hint(&scene), None);
    assert_eq!(config.update(op), Ok(()));
    assert_eq!(config.tabs.tabs[1].items.len(), 1);
    assert_eq!(config.tabs.tabs[1].items[0].name, "Chess");
    let shown = &scene.content().tabs().tabs[1].items;
    assert_eq!(shown.len(), 1);
    assert_eq!(shown[0].path, "/usr/games/chess");
    assert_eq!(scene.content().current_tab(), 1);
}

#[test]
fn new_game_with_missing_file_is_refused() {
    let mut scene = THLScene::new(sample_tabs());
    scene.react(SceneReaction::AppendGame, false);
    type_text(&mut scene, "Chess");
    scene.react(SceneReaction::SwitchInputFocus, false);
    type_text(&mut scene, "/no/such/file");
    let op = scene.react(SceneReaction::ConfirmAction, false);
    assert!(matches!(op, ConfigOp::NoOp));
    assert_eq!(hint(&scene).as_deref(), Some("Operation failed. Path is not a valid value."));
    assert_eq!(scene.content().tabs().tabs[0].items.len(), 1);
}

#[test]
fn new_game_first_failed_check_wins() {
    let mut scene = THLScene::new(sample_tabs());
    scene.react(SceneReaction::AppendGame, false);
    let op = scene.react(SceneReaction::ConfirmAction, false);
    assert!(matches!(op, ConfigOp::NoOp));
    assert_eq!(hint(&scene).as_deref(), Some("Operation failed. Name must not be empty."));
    scene.react(SceneReaction::AppendGame, false);
    type_text(&mut scene, "Chess");
    let op = scene.react(SceneReaction::ConfirmAction, true);
    assert!(matches!(op, ConfigOp::NoOp));
    assert_eq!(hint(&scene).as_deref(), Some("Operation failed. Path must not be empty."));
}

#[test]
fn new_game_fields_follow_focus_and_backspace() {
    let mut ops = OperationPainter::new();
    ops.switch_mode(THLOperation::AppendingGame, None);
    for key in [Key::Char('a'), Key::Char('b'), Key::Backspace, Key::Delete, Key::Char('c')] {
        ops.input_word(key);
    }
    ops.swtich_input_focus();
    ops.input_word(Key::Backspace);
    ops.input_word(Key::Char('/'));
    match ops.instruction() {
        InstructionType::NewGame(g) => {
            assert_eq!(g.input_name, "ac");
            assert_eq!(g.input_path, "/");
            assert_eq!(g.focus, InputFocus::Path);
        },
        other => panic!("unexpected form {:?}", other),
    }
}

#[test]
fn new_tab_with_empty_name_is_refused() {
    let mut scene = THLScene::new(sample_tabs());
    scene.react(SceneReaction::AppendTab, false);
    let op = scene.react(SceneReaction::ConfirmAction, false);
    assert!(matches!(op, ConfigOp::NoOp));
    assert_eq!(hint(&scene).as_deref(), Some("Operation failed. Name must not be empty."));
    assert_eq!(scene.content().tabs().tabs.len(), 2);
}

#[test]
fn new_tab_named_arcade_is_appended_and_selected() {
    let mut scene = THLScene::new(sample_tabs());
    scene.react(SceneReaction::AppendTab, false);
    type_text(&mut scene, "Arcade");
    let op = scene.react(SceneReaction::ConfirmAction, false);
    match &op {
        ConfigOp::AppendTab { config } => {
            assert_eq!(config.name, "Arcade");
            assert!(config.items.is_empty());
        },
        other => panic!("unexpected op {:?}", other),
    }
    assert_eq!(scene.navtab().current_index(), 2);
    assert_eq!(scene.content().current_tab(), 2);
    assert_eq!(scene.navtab().titles[2], "Arcade");
    scene.react(SceneReaction::NextTab, false);
    assert_eq!(scene.navtab().current_index(), 0);
    scene.react(SceneReaction::PreviousTab, false);
    assert_eq!(scene.navtab().current_index(), 2);
    let mut config = config_of(sample_tabs());
    assert_eq!(config.update(op), Ok(()));
    assert_eq!(config.tabs.tabs.len(), 3);
    assert_eq!(config.tabs.tabs[2].name, "Arcade");
}

#[test]
fn remove_game_with_text_is_refused() {
    let mut scene = THLScene::new(sample_tabs());
    scene.react(SceneReaction::RemoveGame, false);
    type_text(&mut scene, "one");
    let op = scene.react(SceneReaction::ConfirmAction, false);
    assert!(matches!(op, ConfigOp::NoOp));
    assert_eq!(
        hint(&scene).as_deref(),
        Some("Operation failed. Input content is not a valid integer.")
    );
    assert_eq!(scene.content().tabs().tabs[0].items.len(), 1);
}

#[test]
fn remove_game_out_of_range_is_refused() {
    let mut scene = THLScene::new(sample_tabs());
    scene.react(SceneReaction::RemoveGame, false);
    type_text(&mut scene, "5");
    let op = scene.react(SceneReaction::ConfirmAction, false);
    assert!(matches!(op, ConfigOp::NoOp));
    assert_eq!(hint(&scene).as_deref(), Some("Operation failed. Index out of range."));
    assert_eq!(scene.content().tabs().tabs[0].items.len(), 1);
    let mut config = config_of(sample_tabs());
    let r = config.update(ConfigOp::RemoveGame { tab_index: 0, item_index: 5 });
    assert_eq!(r, Err(ConfigError::IndexOutOfRange));
    assert_eq!(config.tabs.tabs[0].items.len(), 1);
    assert_eq!(config.tabs.tabs.len(), 2);
}

#[test]
fn remove_game_in_range_is_applied() {
    let mut scene = THLScene::new(sample_tabs());
    scene.react(SceneReaction::RemoveGame, false);
    type_text(&mut scene, "+0");
    let op = scene.react(SceneReaction::ConfirmAction, false);
    assert!(matches!(op, ConfigOp::RemoveGame { tab_index: 0, item_index: 0 }));
    assert!(scene.content().tabs().tabs[0].items.is_empty());
    let mut config = config_of(sample_tabs());
    assert_eq!(config.update(op), Ok(()));
    assert!(config.tabs.tabs[0].items.is_empty());
}

#[test]
fn remove_index_parsing_rejects_signs_spaces_and_overflow() {
    for text in ["-1", " 1", "1 ", "", "+", "18446744073709551616999"] {
        let mut scene = THLScene::new(sample_tabs());
        scene.react(SceneReaction::RemoveTab, false);
        type_text(&mut scene, text);
        let op = scene.react(SceneReaction::ConfirmAction, false);
        assert!(matches!(op, ConfigOp::NoOp), "text {:?}", text);
        assert_eq!(
            hint(&scene).as_deref(),
            Some("Operation failed. Input content is not a valid integer.")
        );
    }
}

#[test]
fn remove_current_tab_selects_first() {
    let mut scene = THLScene::new(sample_tabs());
    scene.react(SceneReaction::NextTab, false);
    scene.react(SceneReaction::RemoveTab, false);
    type_text(&mut scene, "01");
    let op = scene.react(SceneReaction::ConfirmAction, false);
    assert!(matches!(op, ConfigOp::RemoveTab { tab_index: 1 }));
    assert_eq!(scene.navtab().current_index(), 0);
    assert_eq!(scene.content().current_tab(), 0);
    assert_eq!(scene.navtab().titles, vec!["Board".to_string()]);
}

#[test]
fn remove_last_tab_leaves_no_selection() {
    let mut scene = THLScene::new(TabsConfig::default());
    scene.react(SceneReaction::RemoveTab, false);
    type_text(&mut scene, "0");
    let op = scene.react(SceneReaction::ConfirmAction, false);
    assert!(matches!(op, ConfigOp::RemoveTab { tab_index: 0 }));
    assert!(scene.content().tabs().tabs.is_empty());
    assert_eq!(scene.navtab().state.count(), 0);
    assert_eq!(scene.content().state().index(), None);
    let mut config = EngineConfig::default();
    assert_eq!(config.update(op), Ok(()));
    assert!(config.tabs.tabs.is_empty());
}

#[test]
fn cancel_from_each_form_restores_common() {
    for reaction in [
        SceneReaction::AppendGame,
        SceneReaction::AppendTab,
        SceneReaction::RemoveGame,
        SceneReaction::RemoveTab,
    ] {
        let mut scene = THLScene::new(sample_tabs());
        scene.react(reaction, false);
        type_text(&mut scene, "12");
        let op = scene.react(SceneReaction::CancelOp, false);
        assert!(matches!(op, ConfigOp::NoOp));
        assert_eq!(hint(&scene), None);
        assert_eq!(scene.content().tabs().tabs.len(), 2);
        assert_eq!(scene.content().tabs().tabs[0].items.len(), 1);
        assert_eq!(scene.navtab().titles.len(), 2);
    }
}

#[test]
fn confirm_in_common_form_clears_hint() {
    let mut scene = THLScene::new(sample_tabs());
    scene.react(SceneReaction::AppendTab, false);
    scene.react(SceneReaction::ConfirmAction, false);
    assert!(hint(&scene).is_some());
    let op = scene.react(SceneReaction::ConfirmAction, false);
    assert!(matches!(op, ConfigOp::NoOp));
    assert_eq!(hint(&scene), None);
}
