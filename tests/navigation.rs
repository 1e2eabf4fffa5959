use thl::config::tab::{ItemConfig, TabConfig, TabsConfig};
use thl::scene::content::ListState;
use thl::scene::navtab::TabsState;
use thl::scene::ops::InstructionType;
use thl::scene::{SceneReaction, THLScene};

fn item(name: &str, path: &str) -> ItemConfig {
    ItemConfig { name: name.to_string(), path: path.to_string() }
}

fn tabs_of(spec: &[(&str, usize)]) -> TabsConfig {
    let mut tabs = Vec::new();
    for (name, count) in spec {
        let mut items = Vec::new();
        for i in 0..*count {
            items.push(item(&format!("{}-{}", name, i), &format!("/games/{}/{}", name, i)));
        }
        tabs.push(TabConfig { name: name.to_string(), items });
    }
    TabsConfig { tabs }
}

#[test]
fn tabs_state_wraps_backward_from_first() {
    let mut state = TabsState::new(3);
    assert_eq!(state.index(), 0);
    state.previous();
    assert_eq!(state.index(), 2);
    assert_eq!(state.count(), 3);
}

#[test]
fn tabs_state_wraps_forward_from_last() {
    let mut state = TabsState::new(3);
    state.next();
    state.next();
    assert_eq!(state.index(), 2);
    state.next();
    assert_eq!(state.index(), 0);
}

#[test]
fn tabs_state_without_tabs_stays() {
    let mut state = TabsState::new(0);
    state.next();
    assert_eq!(state.index(), 0);
    state.previous();
    assert_eq!(state.index(), 0);
}

#[test]
fn tabs_state_reset_sets_both() {
    let mut state = TabsState::new(2);
    state.reset(4, 5);
    assert_eq!(state.index(), 4);
    assert_eq!(state.count(), 5);
}

#[test]
fn list_state_first_moves() {
    let mut forward = ListState::new(4);
    assert_eq!(forward.index(), None);
    forward.next();
    assert_eq!(forward.index(), Some(0));
    let mut backward = ListState::new(4);
    backward.previous();
    assert_eq!(backward.index(), Some(3));
}

#[test]
fn list_state_cycles() {
    let mut state = ListState::new(3);
    let mut seen = Vec::new();
    for _ in 0..6 {
        state.next();
        seen.push(state.index().unwrap());
    }
    assert_eq!(seen, vec![0, 1, 2, 0, 1, 2]);
    state.previous();
    state.previous();
    state.previous();
    assert_eq!(state.index(), Some(2));
}

#[test]
fn scene_tab_moves_wrap_and_reset_item() {
    let mut scene = THLScene::new(tabs_of(&[("a", 2), ("b", 0), ("c", 1)]));
    scene.react(SceneReaction::NextGame, false);
    assert_eq!(scene.content().state().index(), Some(0));
    scene.react(SceneReaction::PreviousTab, false);
    assert_eq!(scene.content().current_tab(), 2);
    assert_eq!(scene.navtab().current_index(), 2);
    assert_eq!(scene.ops().current_tab(), 2);
    assert_eq!(scene.content().state().index(), None);
    assert_eq!(scene.content().state().count(), 1);
    scene.react(SceneReaction::NextTab, false);
    assert_eq!(scene.content().current_tab(), 0);
    scene.react(SceneReaction::NextTab, false);
    assert_eq!(scene.content().current_tab(), 1);
}

#[test]
fn scene_game_moves_cycle_through_items() {
    let mut scene = THLScene::new(tabs_of(&[("a", 3)]));
    let mut seen = Vec::new();
    for _ in 0..4 {
        scene.react(SceneReaction::NextGame, false);
        seen.push(scene.content().state().index().unwrap());
    }
    assert_eq!(seen, vec![0, 1, 2, 0]);
    scene.react(SceneReaction::PreviousGame, false);
    assert_eq!(scene.content().state().index(), Some(2));
}

#[test]
fn scene_game_moves_on_empty_tab_select_nothing() {
    let mut scene = THLScene::new(tabs_of(&[("empty", 0), ("full", 2)]));
    scene.react(SceneReaction::NextGame, false);
    scene.react(SceneReaction::PreviousGame, false);
    scene.react(SceneReaction::NextGame, false);
    assert_eq!(scene.content().state().index(), None);
    assert!(scene.content().current_program().is_none());
}

#[test]
fn scene_without_tabs_ignores_moves() {
    let mut scene = THLScene::new(TabsConfig { tabs: vec![] });
    scene.react(SceneReaction::NextTab, false);
    scene.react(SceneReaction::PreviousTab, false);
    scene.react(SceneReaction::NextGame, false);
    assert_eq!(scene.content().current_tab(), 0);
    assert_eq!(scene.content().state().index(), None);
    assert_eq!(scene.navtab().titles.len(), 0);
}

#[test]
fn scene_titles_follow_tabs() {
    let scene = THLScene::new(tabs_of(&[("x", 0), ("y", 1)]));
    assert_eq!(scene.navtab().titles, vec!["x".to_string(), "y".to_string()]);
}

#[test]
fn launch_selects_program_and_finishes() {
    let mut scene = THLScene::new(tabs_of(&[("a", 2)]));
    scene.react(SceneReaction::LaunchGame, false);
    assert!(scene.running_program().is_none());
    scene.react(SceneReaction::NextGame, false);
    scene.react(SceneReaction::NextGame, false);
    scene.react(SceneReaction::LaunchGame, false);
    match scene.ops().instruction() {
        InstructionType::Running(r) => assert_eq!(r.program, "a-1"),
        other => panic!("unexpected form {:?}", other),
    }
    assert_eq!(scene.running_program().unwrap().path, "/games/a/1");
    scene.finish_launch(None);
    match scene.ops().instruction() {
        InstructionType::Common(c) => assert_eq!(c.hint, None),
        other => panic!("unexpected form {:?}", other),
    }
    assert!(scene.running_program().is_none());
}

#[test]
fn failed_launch_leaves_hint() {
    let mut scene = THLScene::new(tabs_of(&[("a", 1)]));
    scene.react(SceneReaction::NextGame, false);
    scene.react(SceneReaction::LaunchGame, false);
    scene.finish_launch(Some("error code: Some(3)"));
    match scene.ops().instruction() {
        InstructionType::Common(c) => assert_eq!(
            c.hint.as_deref(),
            Some("Some errors occur during the program running: error code: Some(3)")
        ),
        other => panic!("unexpected form {:?}", other),
    }
}
