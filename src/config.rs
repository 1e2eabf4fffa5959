pub mod manifest;
pub mod setting;
pub mod tab;

use vstd::prelude::*;

use crate::config::setting::{default_setting, SettingConfig};
use crate::config::tab::{default_tabs, ItemConfig, ItemModel, TabConfig, TabModel, TabsConfig};

verus! {

/// The whole configuration: the tab list and the settings.
#[derive(Debug)]
pub struct EngineConfig {
    pub tabs: TabsConfig,
    pub setting: SettingConfig,
}

/// A confirmed change of the tab list.
#[derive(Debug)]
pub enum ConfigOp {
    NoOp,
    AppendTab { config: TabConfig },
    RemoveTab { tab_index: usize },
    AppendGame { tab_index: usize, config: ItemConfig },
    RemoveGame { tab_index: usize, item_index: usize },
}

/// What a change of the tab list is, over the models of its parts.
pub ghost enum OpModel {
    NoOp,
    AppendTab { config: TabModel },
    RemoveTab { tab_index: nat },
    AppendGame { tab_index: nat, config: ItemModel },
    RemoveGame { tab_index: nat, item_index: nat },
}

impl View for ConfigOp {
    type V = OpModel;

    open spec fn view(&self) -> OpModel {
        match self {
            ConfigOp::NoOp => OpModel::NoOp,
            ConfigOp::AppendTab { config } => OpModel::AppendTab { config: config@ },
            ConfigOp::RemoveTab { tab_index } => OpModel::RemoveTab { tab_index: *tab_index as nat },
            ConfigOp::AppendGame { tab_index, config } => OpModel::AppendGame {
                tab_index: *tab_index as nat,
                config: config@,
            },
            ConfigOp::RemoveGame { tab_index, item_index } => OpModel::RemoveGame {
                tab_index: *tab_index as nat,
                item_index: *item_index as nat,
            },
        }
    }
}

/// Why a change of the tab list was not applied.
#[derive(Debug, Clone, Copy, PartialEq, Eq, Structural)]
pub enum ConfigError {
    /// The change names a tab or an item that the list does not hold.
    IndexOutOfRange,
}

/// Whether every index that `op` names exists in `tabs`.
pub open spec fn op_in_range(tabs: Seq<TabModel>, op: OpModel) -> bool {
    match op {
        OpModel::NoOp => true,
        OpModel::AppendTab { .. } => true,
        OpModel::RemoveTab { tab_index } => tab_index < tabs.len(),
        OpModel::AppendGame { tab_index, .. } => tab_index < tabs.len(),
        OpModel::RemoveGame { tab_index, item_index } => {
            tab_index < tabs.len() && item_index < tabs[tab_index as int].items.len()
        },
    }
}

/// The tab list after `op`, for an `op` whose indices are in range.
pub open spec fn applied(tabs: Seq<TabModel>, op: OpModel) -> Seq<TabModel> {
    match op {
        OpModel::NoOp => tabs,
        OpModel::AppendTab { config } => tabs.push(config),
        OpModel::RemoveTab { tab_index } => tabs.remove(tab_index as int),
        OpModel::AppendGame { tab_index, config } => {
            let tab = tabs[tab_index as int];
            tabs.update(tab_index as int, TabModel { items: tab.items.push(config), ..tab })
        },
        OpModel::RemoveGame { tab_index, item_index } => {
            let tab = tabs[tab_index as int];
            tabs.update(
                tab_index as int,
                TabModel { items: tab.items.remove(item_index as int), ..tab },
            )
        },
    }
}

impl EngineConfig {
    /// Applies `op` to the tab list. An index out of range leaves the
    /// configuration as it was. Persisting the result is the caller's part.
    pub fn update(&mut self, op: ConfigOp) -> (r: Result<(), ConfigError>)
        ensures
            op_in_range(old(self).tabs@, op@) ==> r is Ok && final(self).tabs@ == applied(
                old(self).tabs@,
                op@,
            ),
            !op_in_range(old(self).tabs@, op@) ==> r == Err::<(), ConfigError>(
                ConfigError::IndexOutOfRange,
            ) && final(self).tabs@ == old(self).tabs@,
            final(self).setting == old(self).setting,
    {
        self.tabs.apply(&op)
    }
}

impl Default for EngineConfig {
    fn default() -> (r: EngineConfig)
        ensures
            r.tabs@ == default_tabs(),
            r.setting == default_setting(),
    {
        EngineConfig { tabs: TabsConfig::default(), setting: SettingConfig::default() }
    }
}

} // verus!
