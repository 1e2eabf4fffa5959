use vstd::prelude::*;

use crate::config::tab::{ItemConfig, TabModel, TabsConfig};
use crate::config::{applied, op_in_range, ConfigOp, OpModel};
use crate::scene::navtab::{lemma_cyclic_step, next_index, previous_index};

verus! {

/// The selected item, if any, and the number of items.
pub ghost struct ListCursor {
    pub index: Option<nat>,
    pub count: nat,
}

impl ListCursor {
    /// A selected item exists.
    pub open spec fn wf(self) -> bool {
        self.index matches Some(i) ==> i < self.count
    }
}

/// The item that a step forward selects: the first when none was selected.
pub open spec fn next_item(index: Option<nat>, count: nat) -> nat {
    match index {
        Some(i) => next_index(i, count),
        None => 0,
    }
}

/// The item that a step back selects: the last when none was selected.
pub open spec fn previous_item(index: Option<nat>, count: nat) -> nat {
    match index {
        Some(i) => previous_index(i, count),
        None => (count - 1) as nat,
    }
}

/// Cursor of the item list of a tab.
#[derive(Debug)]
pub struct ListState {
    index: Option<usize>,
    count: usize,
}

impl View for ListState {
    type V = ListCursor;

    closed spec fn view(&self) -> ListCursor {
        ListCursor {
            index: match self.index {
                Some(i) => Some(i as nat),
                None => None,
            },
            count: self.count as nat,
        }
    }
}

impl ListState {
    /// No item selected among `count`.
    pub fn new(count: usize) -> (r: ListState)
        ensures
            r@ == (ListCursor { index: None, count: count as nat }),
    {
        ListState { index: None, count }
    }

    pub fn index(&self) -> (r: Option<usize>)
        ensures
            r matches Some(i) ==> self@.index == Some(i as nat),
            r is None ==> self@.index is None,
    {
        self.index
    }

    pub fn count(&self) -> (r: usize)
        ensures
            r == self@.count,
    {
        self.count
    }

    /// Selects the next item, wrapping from the last to the first.
    pub fn next(&mut self)
        requires
            old(self)@.wf(),
            old(self)@.count > 0,
        ensures
            final(self)@.wf(),
            final(self)@ == (ListCursor {
                index: Some(next_item(old(self)@.index, old(self)@.count)),
                count: old(self)@.count,
            }),
    {
        self.index = match self.index {
            Some(index) => {
                proof {
                    lemma_cyclic_step(index as nat, self.count as nat);
                }
                if index + 1 == self.count {
                    Some(0)
                } else {
                    Some(index + 1)
                }
            },
            None => Some(0),
        };
    }

    /// Selects the previous item, wrapping from the first to the last.
    pub fn previous(&mut self)
        requires
            old(self)@.wf(),
            old(self)@.count > 0,
        ensures
            final(self)@.wf(),
            final(self)@ == (ListCursor {
                index: Some(previous_item(old(self)@.index, old(self)@.count)),
                count: old(self)@.count,
            }),
    {
        self.index = match self.index {
            Some(index) => {
                proof {
                    lemma_cyclic_step(index as nat, self.count as nat);
                }
                if index == 0 {
                    Some(self.count - 1)
                } else {
                    Some(index - 1)
                }
            },
            None => Some(self.count - 1),
        };
    }
}

/// What the content view holds: the tabs, the tab shown, and the cursor on
/// its items.
pub ghost struct ContentModel {
    pub tabs: Seq<TabModel>,
    pub tab: nat,
    pub item: ListCursor,
}

/// The number of items of tab `tab`, or 0 when there is no such tab.
pub open spec fn item_count(tabs: Seq<TabModel>, tab: nat) -> nat {
    if tab < tabs.len() {
        tabs[tab as int].items.len()
    } else {
        0
    }
}

/// Tab `tab` of `tabs` shown with no item selected.
pub open spec fn focused(tabs: Seq<TabModel>, tab: nat) -> ContentModel {
    ContentModel { tabs, tab, item: ListCursor { index: None, count: item_count(tabs, tab) } }
}

/// The tab shown once `op` has been applied to a list of `count` tabs on
/// which tab `tab` was shown.
pub open spec fn tab_after(count: nat, tab: nat, op: OpModel) -> nat {
    match op {
        OpModel::NoOp => tab,
        OpModel::AppendTab { .. } => count,
        OpModel::RemoveTab { .. } => 0,
        OpModel::AppendGame { tab_index, .. } => tab_index,
        OpModel::RemoveGame { tab_index, .. } => tab_index,
    }
}

impl ContentModel {
    /// The tab shown exists (or is 0 when there is none), and the cursor
    /// counts its items.
    pub open spec fn wf(self) -> bool {
        &&& self.item.wf()
        &&& self.item.count == item_count(self.tabs, self.tab)
        &&& if self.tabs.len() == 0 {
            self.tab == 0
        } else {
            self.tab < self.tabs.len()
        }
    }
}

/// The content view: the item list of the tab shown.
#[derive(Debug)]
pub struct ContentPainter {
    state: ListState,
    current_tab: usize,
    tabs: TabsConfig,
}

impl View for ContentPainter {
    type V = ContentModel;

    closed spec fn view(&self) -> ContentModel {
        ContentModel { tabs: self.tabs@, tab: self.current_tab as nat, item: self.state@ }
    }
}

impl ContentPainter {
    /// Shows the first tab of `config`, with no item selected.
    pub fn new(config: TabsConfig) -> (r: ContentPainter)
        ensures
            r@ == focused(config@, 0),
            r@.wf(),
    {
        let count = if config.tabs.len() > 0 {
            config.tabs[0].items.len()
        } else {
            0
        };
        ContentPainter { state: ListState::new(count), current_tab: 0, tabs: config }
    }

    /// Shows tab `index`, with no item selected.
    pub fn set_tab(&mut self, index: usize)
        requires
            index < old(self)@.tabs.len(),
        ensures
            final(self)@ == focused(old(self)@.tabs, index as nat),
            final(self)@.wf(),
    {
        self.current_tab = index;
        self.state = ListState::new(self.tabs.tabs[index].items.len());
    }

    /// Mirrors a change of the tab list: the list becomes the changed one and
    /// the cursor moves to the tab that the change touched (the first after a
    /// removed tab), with no item selected.
    pub fn update_tab(&mut self, ops: &ConfigOp)
        requires
            old(self)@.wf(),
            op_in_range(old(self)@.tabs, ops@),
        ensures
            final(self)@.wf(),
            ops@ is NoOp ==> final(self)@ == old(self)@,
            !(ops@ is NoOp) ==> final(self)@ == focused(
                applied(old(self)@.tabs, ops@),
                tab_after(old(self)@.tabs.len(), old(self)@.tab, ops@),
            ),
    {
        let count = self.tabs.tabs.len();
        let _ = self.tabs.apply(ops);
        match ops {
            ConfigOp::NoOp => {},
            ConfigOp::AppendTab { .. } => self.set_tab(count),
            ConfigOp::RemoveTab { .. } => {
                if self.tabs.tabs.len() > 0 {
                    self.set_tab(0);
                } else {
                    self.current_tab = 0;
                    self.state = ListState::new(0);
                }
            },
            ConfigOp::AppendGame { tab_index, .. } => self.set_tab(*tab_index),
            ConfigOp::RemoveGame { tab_index, .. } => self.set_tab(*tab_index),
        }
    }

    /// Selects the next item of the tab shown; does nothing on an empty tab.
    pub fn next_tab(&mut self)
        requires
            old(self)@.wf(),
        ensures
            final(self)@.wf(),
            final(self)@.tabs == old(self)@.tabs,
            final(self)@.tab == old(self)@.tab,
            old(self)@.item.count == 0 ==> final(self)@ == old(self)@,
            old(self)@.item.count > 0 ==> final(self)@.item == (ListCursor {
                index: Some(next_item(old(self)@.item.index, old(self)@.item.count)),
                count: old(self)@.item.count,
            }),
    {
        if self.tabs.tabs.len() > 0 && self.tabs.tabs[self.current_tab].items.len() > 0 {
            self.state.next();
        }
    }

    /// Selects the previous item of the tab shown; does nothing on an empty
    /// tab.
    pub fn previous_tab(&mut self)
        requires
            old(self)@.wf(),
        ensures
            final(self)@.wf(),
            final(self)@.tabs == old(self)@.tabs,
            final(self)@.tab == old(self)@.tab,
            old(self)@.item.count == 0 ==> final(self)@ == old(self)@,
            old(self)@.item.count > 0 ==> final(self)@.item == (ListCursor {
                index: Some(previous_item(old(self)@.item.index, old(self)@.item.count)),
                count: old(self)@.item.count,
            }),
    {
        if self.tabs.tabs.len() > 0 && self.tabs.tabs[self.current_tab].items.len() > 0 {
            self.state.previous();
        }
    }

    /// The selected item of the tab shown, if any.
    pub fn current_program(&self) -> (r: Option<&ItemConfig>)
        requires
            self@.wf(),
        ensures
            self@.item.index is None ==> r is None,
            self@.item.index matches Some(i) ==> r matches Some(item) && item@
                == self@.tabs[self@.tab as int].items[i as int],
    {
        match self.state.index() {
            Some(i) => Some(&self.tabs.tabs[self.current_tab].items[i]),
            None => None,
        }
    }

    /// The tabs, for drawing.
    pub fn tabs(&self) -> (r: &TabsConfig)
        ensures
            r@ == self@.tabs,
    {
        &self.tabs
    }

    /// The index of the tab shown.
    pub fn current_tab(&self) -> (r: usize)
        ensures
            r == self@.tab,
    {
        self.current_tab
    }

    /// The cursor on the items of the tab shown.
    pub fn state(&self) -> (r: &ListState)
        ensures
            r@ == self@.item,
    {
        &self.state
    }
}

} // verus!
