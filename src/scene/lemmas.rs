use vstd::arithmetic::div_mod::{
    lemma_add_mod_noop_right, lemma_mod_sub_multiples_vanish, lemma_small_mod,
};
use vstd::prelude::*;

use crate::config::tab::TabModel;
use crate::config::{applied, op_in_range, OpModel};
use crate::scene::content::item_count;
use crate::scene::ops::{common_form, failed_form, not_integer_hint, parse_index, FormModel};
use crate::scene::{dispatched, out_of_range_hint, react_model, with_form, SceneAction, SceneModel, SceneReaction, THLOperation};
use crate::utils::{Key, THLEvent};

verus! {

/// The scene after each reaction of `rs` in turn.
pub open spec fn run(m: SceneModel, rs: Seq<SceneReaction>, path_is_file: bool) -> SceneModel
    decreases rs.len(),
{
    if rs.len() == 0 {
        m
    } else {
        run(react_model(m, rs[0], path_is_file).0, rs.drop_first(), path_is_file)
    }
}

/// How far `step` moves forward: 1, -1 for a step back, else 0.
pub open spec fn step_of(step: SceneReaction, forward: SceneReaction, back: SceneReaction) -> int {
    if step == forward {
        1
    } else if step == back {
        -1
    } else {
        0
    }
}

/// Forward moves minus backward moves among `rs`.
pub open spec fn net_moves(rs: Seq<SceneReaction>, forward: SceneReaction, back: SceneReaction) -> int
    decreases rs.len(),
{
    if rs.len() == 0 {
        0
    } else {
        step_of(rs[0], forward, back) + net_moves(rs.drop_first(), forward, back)
    }
}

/// `d` more steps from any representative of `a` land on the same place.
proof fn lemma_mod_shift(a: int, d: int, n: int)
    requires
        n > 0,
    ensures
        ((a % n) + d) % n == (a + d) % n,
{
    lemma_add_mod_noop_right(d, a, n);
}

/// Every reaction keeps the scene well formed: the tab shown exists (none
/// when the list is empty) and so does the selected item.
pub proof fn lemma_react_keeps_wf(m: SceneModel, reaction: SceneReaction, path_is_file: bool)
    requires
        m.wf(),
    ensures
        react_model(m, reaction, path_is_file).0.wf(),
{
    let count = m.tabs.len();
    if count > 0 {
        crate::scene::navtab::lemma_cyclic_step(m.tab, count);
    }
    let items = item_count(m.tabs, m.tab);
    if items > 0 {
        if let Some(i) = m.item {
            crate::scene::navtab::lemma_cyclic_step(i, items);
        }
    }
}

/// Tab moves wrap around the tab list: after any sequence of next-tab and
/// previous-tab reactions the tab shown is the first one moved by the
/// forward steps minus the backward steps, modulo the number of tabs. The
/// list and the form stay as they were; with no tab nothing moves.
pub proof fn lemma_tab_navigation(m: SceneModel, rs: Seq<SceneReaction>, path_is_file: bool)
    requires
        m.wf(),
        forall|i: int|
            0 <= i < rs.len() ==> #[trigger] rs[i] == SceneReaction::NextTab || rs[i]
                == SceneReaction::PreviousTab,
    ensures
        run(m, rs, path_is_file).wf(),
        run(m, rs, path_is_file).tabs == m.tabs,
        run(m, rs, path_is_file).form == m.form,
        m.tabs.len() == 0 ==> run(m, rs, path_is_file) == m,
        m.tabs.len() > 0 ==> run(m, rs, path_is_file).tab < m.tabs.len(),
        m.tabs.len() > 0 ==> run(m, rs, path_is_file).tab == (m.tab + net_moves(
            rs,
            SceneReaction::NextTab,
            SceneReaction::PreviousTab,
        )) % (m.tabs.len() as int),
    decreases rs.len(),
{
    let n = m.tabs.len() as int;
    if rs.len() == 0 {
        if n > 0 {
            lemma_small_mod(m.tab, n as nat);
        }
    } else {
        let m1 = react_model(m, rs[0], path_is_file).0;
        let rest = rs.drop_first();
        lemma_react_keeps_wf(m, rs[0], path_is_file);
        assert forall|i: int| 0 <= i < rest.len() implies #[trigger] rest[i] == SceneReaction::NextTab
            || rest[i] == SceneReaction::PreviousTab by {
            assert(rest[i] == rs[i + 1]);
        }
        lemma_tab_navigation(m1, rest, path_is_file);
        if n > 0 {
            let net = net_moves(rest, SceneReaction::NextTab, SceneReaction::PreviousTab);
            if rs[0] == SceneReaction::NextTab {
                lemma_mod_shift(m.tab + 1int, net, n);
            } else {
                lemma_mod_shift(m.tab as int + n - 1, net, n);
                lemma_mod_sub_multiples_vanish(m.tab as int + n - 1 + net, n);
            }
        }
    }
}

/// Item moves cycle through the items of the tab shown: on a tab without
/// items the cursor never changes (and selects nothing); on a tab of `N`
/// items any non-empty sequence of next-item and previous-item reactions
/// leaves an item of `[0, N)` selected, and from a selected item `i` it
/// selects `(i + forward - backward) mod N`.
pub proof fn lemma_game_navigation(m: SceneModel, rs: Seq<SceneReaction>, path_is_file: bool)
    requires
        m.wf(),
        forall|i: int|
            0 <= i < rs.len() ==> #[trigger] rs[i] == SceneReaction::NextGame || rs[i]
                == SceneReaction::PreviousGame,
    ensures
        run(m, rs, path_is_file).wf(),
        run(m, rs, path_is_file).tabs == m.tabs,
        run(m, rs, path_is_file).tab == m.tab,
        run(m, rs, path_is_file).form == m.form,
        item_count(m.tabs, m.tab) == 0 ==> run(m, rs, path_is_file) == m && m.item is None,
        item_count(m.tabs, m.tab) > 0 && rs.len() > 0 ==> (run(m, rs, path_is_file).item matches Some(
            i,
        ) && i < item_count(m.tabs, m.tab)),
        item_count(m.tabs, m.tab) > 0 && m.item is Some ==> run(m, rs, path_is_file).item == Some(
            ((m.item->0 + net_moves(rs, SceneReaction::NextGame, SceneReaction::PreviousGame)) % (
            item_count(m.tabs, m.tab) as int)) as nat,
        ),
    decreases rs.len(),
{
    let n = item_count(m.tabs, m.tab) as int;
    if rs.len() == 0 {
        if n > 0 && m.item is Some {
            lemma_small_mod(m.item->0, n as nat);
        }
    } else {
        let m1 = react_model(m, rs[0], path_is_file).0;
        let rest = rs.drop_first();
        lemma_react_keeps_wf(m, rs[0], path_is_file);
        assert forall|i: int| 0 <= i < rest.len() implies #[trigger] rest[i] == SceneReaction::NextGame
            || rest[i] == SceneReaction::PreviousGame by {
            assert(rest[i] == rs[i + 1]);
        }
        lemma_game_navigation(m1, rest, path_is_file);
        if n > 0 && m.item is Some {
            let i0 = m.item->0 as int;
            let net = net_moves(rest, SceneReaction::NextGame, SceneReaction::PreviousGame);
            if rs[0] == SceneReaction::NextGame {
                lemma_mod_shift(i0 + 1, net, n);
            } else {
                lemma_mod_shift(i0 + n - 1, net, n);
                lemma_mod_sub_multiples_vanish(i0 + n - 1 + net, n);
            }
        }
    }
}

/// `count` copies of `reaction`.
pub open spec fn repeated(reaction: SceneReaction, count: nat) -> Seq<SceneReaction> {
    Seq::new(count, |_i: int| reaction)
}

/// A confirmed new tab is appended to the list and shown; from any tab of
/// the new list, next-tab reactions reach it, and so do previous-tab ones.
pub proof fn lemma_appended_tab_reachable(
    m: SceneModel,
    name: Seq<char>,
    path_is_file: bool,
    from: nat,
)
    requires
        m.wf(),
        m.form == (FormModel::NewTab { name }),
        name.len() > 0,
        from <= m.tabs.len(),
    ensures
        ({
            let (m1, op) = react_model(m, SceneReaction::ConfirmAction, path_is_file);
            let last = m.tabs.len();
            let at_from = SceneModel { tab: from, item: None, ..m1 };
            &&& op == (OpModel::AppendTab { config: TabModel { name, items: Seq::empty() } })
            &&& m1.tabs == m.tabs.push(TabModel { name, items: Seq::empty() })
            &&& m1.tab == last
            &&& m1.wf()
            &&& run(
                at_from,
                repeated(SceneReaction::NextTab, (last - from) as nat),
                path_is_file,
            ).tab == last
            &&& run(
                at_from,
                repeated(SceneReaction::PreviousTab, from + 1),
                path_is_file,
            ).tab == last
        }),
{
    let (m1, op) = react_model(m, SceneReaction::ConfirmAction, path_is_file);
    let last = m.tabs.len();
    let n = (last + 1) as int;
    lemma_react_keeps_wf(m, SceneReaction::ConfirmAction, path_is_file);
    let at_from = SceneModel { tab: from, item: None, ..m1 };
    let forward = repeated(SceneReaction::NextTab, (last - from) as nat);
    let back = repeated(SceneReaction::PreviousTab, from + 1);
    lemma_tab_navigation(at_from, forward, path_is_file);
    lemma_tab_navigation(at_from, back, path_is_file);
    lemma_net_repeated(SceneReaction::NextTab, (last - from) as nat);
    lemma_net_repeated(SceneReaction::PreviousTab, from + 1);
    lemma_small_mod(last, n as nat);
    lemma_mod_sub_multiples_vanish(n - 1, n);
    assert(from + net_moves(back, SceneReaction::NextTab, SceneReaction::PreviousTab) == -n + (n
        - 1));
}

/// Forward moves count one each in a run of next moves; backward moves
/// count minus one each in a run of previous moves.
proof fn lemma_net_repeated(reaction: SceneReaction, count: nat)
    requires
        reaction == SceneReaction::NextTab || reaction == SceneReaction::PreviousTab,
    ensures
        net_moves(repeated(reaction, count), SceneReaction::NextTab, SceneReaction::PreviousTab)
            == if reaction == SceneReaction::NextTab {
            count as int
        } else {
            -(count as int)
        },
    decreases count,
{
    if count > 0 {
        assert(repeated(reaction, count).drop_first() =~= repeated(reaction, (count - 1) as nat));
        lemma_net_repeated(reaction, (count - 1) as nat);
    }
}

/// Removing a tab that exists, the current one included, leaves the first
/// tab shown when tabs remain and none when the list became empty, with no
/// item selected.
pub proof fn lemma_removed_tab_cursor(
    m: SceneModel,
    content: Seq<char>,
    index: nat,
    path_is_file: bool,
)
    requires
        m.wf(),
        m.form == (FormModel::RemoveTab { content }),
        parse_index(content) == Some(index),
        index < m.tabs.len(),
    ensures
        ({
            let (m1, op) = react_model(m, SceneReaction::ConfirmAction, path_is_file);
            &&& op == (OpModel::RemoveTab { tab_index: index })
            &&& m1.tabs == m.tabs.remove(index as int)
            &&& m1.item is None
            &&& m1.wf()
            &&& m1.selected_tab() == if m1.tabs.len() > 0 {
                Some(0nat)
            } else {
                None::<nat>
            }
        }),
{
    lemma_react_keeps_wf(m, SceneReaction::ConfirmAction, path_is_file);
}

/// A remove form that holds no number changes nothing and hints at the bad
/// number; one that names an item or a tab that does not exist changes
/// nothing and hints that the index is out of range.
pub proof fn lemma_rejected_removal(m: SceneModel, content: Seq<char>, path_is_file: bool)
    requires
        m.form == (FormModel::RemoveGame { content }) || m.form == (FormModel::RemoveTab {
            content,
        }),
    ensures
        parse_index(content) is None ==> react_model(m, SceneReaction::ConfirmAction, path_is_file)
            == (with_form(m, failed_form(not_integer_hint())), OpModel::NoOp),
        parse_index(content) matches Some(n) && (if m.form is RemoveGame {
            n >= item_count(m.tabs, m.tab)
        } else {
            n >= m.tabs.len()
        }) ==> react_model(m, SceneReaction::ConfirmAction, path_is_file) == (
            with_form(m, failed_form(out_of_range_hint())),
            OpModel::NoOp,
        ),
{
}

/// Escape in any editing mode returns the dispatcher to the common mode and
/// cancels; cancelling shows the common form without a hint or any typed
/// text, and leaves the tabs and the cursors as they were.
pub proof fn lemma_cancel_restores_common(m: SceneModel, mode: THLOperation, path_is_file: bool)
    requires
        mode != THLOperation::Common,
        mode != THLOperation::Running,
    ensures
        dispatched(mode, THLEvent::Input(Key::Esc)) == (
            THLOperation::Common,
            SceneAction::React(SceneReaction::CancelOp),
        ),
        react_model(m, SceneReaction::CancelOp, path_is_file) == (
            SceneModel { form: common_form(), ..m },
            OpModel::NoOp,
        ),
{
}

/// The change that a reaction returns fits the tab list the scene held,
/// and applying it to that list gives the list the scene holds after: a
/// configuration that agreed with the scene agrees again once it applies
/// the change.
pub proof fn lemma_config_follows_scene(m: SceneModel, reaction: SceneReaction, path_is_file: bool)
    ensures
        op_in_range(m.tabs, react_model(m, reaction, path_is_file).1),
        applied(m.tabs, react_model(m, reaction, path_is_file).1) == react_model(
            m,
            reaction,
            path_is_file,
        ).0.tabs,
{
}

/// Whether the panel shows the form that `mode` edits: the common form in
/// the common mode (or the running form while a launch is under way), and
/// the matching form in each editing mode.
pub open spec fn form_of_mode(mode: THLOperation, form: FormModel) -> bool {
    match mode {
        THLOperation::Common => form is Common || form is Running,
        THLOperation::Running => form is Running,
        THLOperation::AppendingGame => form is NewGame,
        THLOperation::AppendingTab => form is NewTab,
        THLOperation::RemovingGame => form is RemoveGame,
        THLOperation::RemovingTab => form is RemoveTab,
    }
}

/// The dispatcher and the instruction panel stay in step: when the panel
/// shows the form of the dispatcher's mode, it still does once an event has
/// been dispatched and the reaction it asks for has reached the scene.
pub proof fn lemma_mode_matches_form(
    m: SceneModel,
    mode: THLOperation,
    event: THLEvent<Key>,
    path_is_file: bool,
)
    requires
        form_of_mode(mode, m.form),
    ensures
        ({
            let (next_mode, action) = dispatched(mode, event);
            match action {
                SceneAction::React(reaction) => form_of_mode(
                    next_mode,
                    react_model(m, reaction, path_is_file).0.form,
                ),
                _ => form_of_mode(next_mode, m.form),
            }
        }),
{
}

} // verus!
