use vstd::prelude::*;

use crate::config::{applied, op_in_range, ConfigError, ConfigOp};

verus! {

/// What an item of a tab is: its name and the path of its program.
pub ghost struct ItemModel {
    pub name: Seq<char>,
    pub path: Seq<char>,
}

/// What a tab is: its name and its items, in order.
pub ghost struct TabModel {
    pub name: Seq<char>,
    pub items: Seq<ItemModel>,
}

/// The ordered list of tabs.
#[derive(Debug)]
pub struct TabsConfig {
    pub tabs: Vec<TabConfig>,
}

/// A named group of launchable programs.
#[derive(Debug)]
pub struct TabConfig {
    pub name: String,
    pub items: Vec<ItemConfig>,
}

/// A launchable program: its name and the path of its executable.
#[derive(Debug)]
pub struct ItemConfig {
    pub name: String,
    pub path: String,
}

impl View for ItemConfig {
    type V = ItemModel;

    open spec fn view(&self) -> ItemModel {
        ItemModel { name: self.name@, path: self.path@ }
    }
}

impl View for TabConfig {
    type V = TabModel;

    open spec fn view(&self) -> TabModel {
        TabModel { name: self.name@, items: self.items@.map_values(|i: ItemConfig| i@) }
    }
}

impl View for TabsConfig {
    type V = Seq<TabModel>;

    open spec fn view(&self) -> Seq<TabModel> {
        self.tabs@.map_values(|t: TabConfig| t@)
    }
}

/// The name that the tab of a fresh configuration has.
pub open spec fn default_tab_name() -> Seq<char> {
    "Default"@
}

/// The tab list of a fresh configuration: a single empty tab named "Default".
pub open spec fn default_tabs() -> Seq<TabModel> {
    seq![TabModel { name: default_tab_name(), items: Seq::empty() }]
}

impl TabsConfig {
    /// Whether every index that `op` names exists.
    pub fn check(&self, op: &ConfigOp) -> (r: Result<(), ConfigError>)
        ensures
            op_in_range(self@, op@) ==> r is Ok,
            !op_in_range(self@, op@) ==> r == Err::<(), ConfigError>(ConfigError::IndexOutOfRange),
    {
        let n = self.tabs.len();
        let ok = match op {
            ConfigOp::NoOp => true,
            ConfigOp::AppendTab { .. } => true,
            ConfigOp::RemoveTab { tab_index } => *tab_index < n,
            ConfigOp::AppendGame { tab_index, .. } => *tab_index < n,
            ConfigOp::RemoveGame { tab_index, item_index } => {
                *tab_index < n && *item_index < self.tabs[*tab_index].items.len()
            },
        };
        if ok {
            Ok(())
        } else {
            Err(ConfigError::IndexOutOfRange)
        }
    }

    /// Applies `op` when every index it names exists; otherwise leaves the
    /// list as it was and reports `IndexOutOfRange`.
    pub fn apply(&mut self, op: &ConfigOp) -> (r: Result<(), ConfigError>)
        ensures
            op_in_range(old(self)@, op@) ==> r is Ok && final(self)@ == applied(old(self)@, op@),
            !op_in_range(old(self)@, op@) ==> r == Err::<(), ConfigError>(
                ConfigError::IndexOutOfRange,
            ) && final(self)@ == old(self)@,
    {
        let ghost before = self@;
        match op {
            ConfigOp::NoOp => Ok(()),
            ConfigOp::AppendTab { config } => {
                self.tabs.push(config.clone());
                assert(self@ =~= applied(before, op@));
                Ok(())
            },
            ConfigOp::RemoveTab { tab_index } => {
                let tab_index = *tab_index;
                if tab_index < self.tabs.len() {
                    self.tabs.remove(tab_index);
                    assert(self@ =~= applied(before, op@));
                    Ok(())
                } else {
                    Err(ConfigError::IndexOutOfRange)
                }
            },
            ConfigOp::AppendGame { tab_index, config } => {
                let tab_index = *tab_index;
                if tab_index < self.tabs.len() {
                    let ghost item = config@;
                    self.tabs[tab_index].items.push(config.clone());
                    assert(self@[tab_index as int].items =~= before[tab_index as int].items.push(
                        item,
                    ));
                    assert(self@ =~= applied(before, op@));
                    Ok(())
                } else {
                    Err(ConfigError::IndexOutOfRange)
                }
            },
            ConfigOp::RemoveGame { tab_index, item_index } => {
                let (tab_index, item_index) = (*tab_index, *item_index);
                if tab_index < self.tabs.len() && item_index < self.tabs[tab_index].items.len() {
                    self.tabs[tab_index].items.remove(item_index);
                    assert(self@[tab_index as int].items =~= before[tab_index as int].items.remove(
                        item_index as int,
                    ));
                    assert(self@ =~= applied(before, op@));
                    Ok(())
                } else {
                    Err(ConfigError::IndexOutOfRange)
                }
            },
        }
    }
}

impl Default for TabsConfig {
    fn default() -> (r: TabsConfig)
        ensures
            r@ == default_tabs(),
    {
        let welcome_tab = TabConfig { name: "Default".to_owned(), items: vec![] };
        assert(welcome_tab@.items =~= Seq::<ItemModel>::empty());
        let r = TabsConfig { tabs: vec![welcome_tab] };
        assert(r@ =~= seq![TabModel { name: default_tab_name(), items: Seq::empty() }]);
        r
    }
}

impl Clone for ItemConfig {
    fn clone(&self) -> (r: ItemConfig)
        ensures
            r@ == self@,
    {
        ItemConfig { name: self.name.clone(), path: self.path.clone() }
    }
}

impl Clone for TabConfig {
    fn clone(&self) -> (r: TabConfig)
        ensures
            r@ == self@,
    {
        let r = TabConfig { name: self.name.clone(), items: self.items.clone() };
        assert(r@.items =~= self@.items);
        r
    }
}

impl Clone for TabsConfig {
    fn clone(&self) -> (r: TabsConfig)
        ensures
            r@ == self@,
    {
        let r = TabsConfig { tabs: self.tabs.clone() };
        assert(r@ =~= self@);
        r
    }
}

} // verus!
