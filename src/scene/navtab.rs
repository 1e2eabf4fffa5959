use vstd::arithmetic::div_mod::{lemma_mod_multiples_vanish, lemma_mod_self_0, lemma_small_mod};
use vstd::prelude::*;

use crate::config::tab::{TabModel, TabsConfig};
use crate::config::ConfigOp;

verus! {

/// The tab after `index` among `count` tabs, wrapping to the first.
pub open spec fn next_index(index: nat, count: nat) -> nat {
    ((index + 1) as int % (count as int)) as nat
}

/// The tab before `index` among `count` tabs, wrapping to the last.
pub open spec fn previous_index(index: nat, count: nat) -> nat {
    ((index + count - 1) as int % (count as int)) as nat
}

/// One step either way from a valid index, without the modulus.
pub proof fn lemma_cyclic_step(index: nat, count: nat)
    requires
        index < count,
    ensures
        next_index(index, count) == if index + 1 == count {
            0
        } else {
            index + 1
        },
        previous_index(index, count) == if index == 0 {
            (count - 1) as nat
        } else {
            (index - 1) as nat
        },
{
    if index + 1 == count {
        lemma_mod_self_0(count as int);
    } else {
        lemma_small_mod(index + 1, count);
    }
    if index == 0 {
        lemma_small_mod((count - 1) as nat, count);
    } else {
        lemma_mod_multiples_vanish(1, index - 1, count as int);
        lemma_small_mod((index - 1) as nat, count);
    }
}

/// The selected tab and the number of tabs.
pub ghost struct TabsCursor {
    pub index: nat,
    pub count: nat,
}

impl TabsCursor {
    /// The index names a tab, or is 0 when there is none.
    pub open spec fn wf(self) -> bool {
        if self.count == 0 {
            self.index == 0
        } else {
            self.index < self.count
        }
    }
}

/// The names of `tabs`, in order.
pub open spec fn tab_names(tabs: Seq<TabModel>) -> Seq<Seq<char>> {
    tabs.map_values(|t: TabModel| t.name)
}

/// The tab bar: the tab titles and the cursor on them.
#[derive(Debug)]
pub struct NavTabPainter {
    pub state: TabsState,
    pub titles: Vec<String>,
}

impl NavTabPainter {
    /// The titles shown, in order.
    pub open spec fn titles_view(&self) -> Seq<Seq<char>> {
        self.titles@.map_values(|t: String| t@)
    }

    /// One title per tab, and a valid cursor.
    pub open spec fn wf(&self) -> bool {
        self.state@.wf() && self.state@.count == self.titles_view().len()
    }

    /// A tab bar on the first of the tabs of `config`.
    pub fn new(config: &TabsConfig) -> (r: NavTabPainter)
        ensures
            r.wf(),
            r.titles_view() == tab_names(config@),
            r.state@.index == 0,
    {
        let mut titles: Vec<String> = Vec::new();
        let n = config.tabs.len();
        for i in 0..n
            invariant
                n == config.tabs@.len(),
                titles@.len() == i,
                forall|j: int| 0 <= j < i ==> #[trigger] titles@[j]@ == config.tabs@[j].name@,
        {
            titles.push(config.tabs[i].name.clone());
        }
        let r = NavTabPainter { state: TabsState::new(n), titles };
        assert(r.titles_view() =~= tab_names(config@));
        r
    }

    pub fn current_index(&self) -> (r: usize)
        ensures
            r == self.state@.index,
    {
        self.state.index()
    }

    /// Mirrors an added or removed tab: an added tab becomes the selected
    /// one; after a removal the first tab is selected.
    pub fn update_tabs(&mut self, ops: &ConfigOp)
        requires
            old(self).wf(),
            ops matches ConfigOp::RemoveTab { tab_index } ==> tab_index < old(
                self,
            ).titles_view().len(),
        ensures
            final(self).wf(),
            match ops {
                ConfigOp::AppendTab { config } => {
                    &&& final(self).titles_view() == old(self).titles_view().push(config.name@)
                    &&& final(self).state@.index == old(self).titles_view().len()
                },
                ConfigOp::RemoveTab { tab_index } => {
                    &&& final(self).titles_view() == old(self).titles_view().remove(
                        *tab_index as int,
                    )
                    &&& final(self).state@.index == 0
                },
                _ => *final(self) == *old(self),
            },
    {
        let ghost before = self.titles_view();
        match ops {
            ConfigOp::AppendTab { config } => {
                self.titles.push(config.name.clone());
                assert(self.titles_view() =~= before.push(config.name@));
                self.state.reset(self.titles.len() - 1, self.titles.len());
            },
            ConfigOp::RemoveTab { tab_index } => {
                self.titles.remove(*tab_index);
                assert(self.titles_view() =~= before.remove(*tab_index as int));
                self.state.reset(0, self.titles.len());
            },
            _ => {},
        }
    }
}

/// Cursor of the tab bar.
#[derive(Debug)]
pub struct TabsState {
    index: usize,
    count: usize,
}

impl View for TabsState {
    type V = TabsCursor;

    closed spec fn view(&self) -> TabsCursor {
        TabsCursor { index: self.index as nat, count: self.count as nat }
    }
}

impl TabsState {
    /// A cursor on the first of `count` tabs.
    pub fn new(count: usize) -> (r: TabsState)
        ensures
            r@ == (TabsCursor { index: 0, count: count as nat }),
    {
        TabsState { index: 0, count }
    }

    pub fn index(&self) -> (r: usize)
        ensures
            r == self@.index,
    {
        self.index
    }

    pub fn count(&self) -> (r: usize)
        ensures
            r == self@.count,
    {
        self.count
    }

    pub fn reset(&mut self, index: usize, count: usize)
        requires
            (TabsCursor { index: index as nat, count: count as nat }).wf(),
        ensures
            final(self)@ == (TabsCursor { index: index as nat, count: count as nat }),
    {
        self.index = index;
        self.count = count;
    }

    /// Moves to the next tab, from the last back to the first.
    pub fn next(&mut self)
        requires
            old(self)@.wf(),
        ensures
            final(self)@.wf(),
            final(self)@.count == old(self)@.count,
            old(self)@.count == 0 ==> final(self)@ == old(self)@,
            old(self)@.count > 0 ==> final(self)@.index == next_index(
                old(self)@.index,
                old(self)@.count,
            ),
    {
        if self.count > 0 {
            proof {
                lemma_cyclic_step(self.index as nat, self.count as nat);
            }
            if self.index + 1 == self.count {
                self.index = 0;
            } else {
                self.index = self.index + 1;
            }
        }
    }

    /// Moves to the previous tab, from the first back to the last.
    pub fn previous(&mut self)
        requires
            old(self)@.wf(),
        ensures
            final(self)@.wf(),
            final(self)@.count == old(self)@.count,
            old(self)@.count == 0 ==> final(self)@ == old(self)@,
            old(self)@.count > 0 ==> final(self)@.index == previous_index(
                old(self)@.index,
                old(self)@.count,
            ),
    {
        if self.count > 0 {
            proof {
                lemma_cyclic_step(self.index as nat, self.count as nat);
            }
            if self.index == 0 {
                self.index = self.count - 1;
            } else {
                self.index = self.index - 1;
            }
        }
    }
}

} // verus!
