//! The navigation tabs and the bar that holds them.
use vstd::prelude::*;

use crate::commands::owned;

verus! {

/// A navigation tab.
#[derive(Debug, Clone)]
pub struct Tab {
    pub title: String,
    pub active: bool,
}

impl Tab {
    /// An inactive tab titled `title`.
    pub fn new(title: &str) -> (res: Self)
        ensures
            res.title@ == title@,
            !res.active,
    {
        Tab { title: owned(title), active: false }
    }

    /// The tab's title.
    pub fn title(&self) -> (res: String)
        ensures
            res == self.title,
    {
        self.title.clone()
    }

    /// Whether the tab is the active one.
    pub fn is_active(&self) -> (res: bool)
        ensures
            res == self.active,
    {
        self.active
    }

    /// Makes the tab active or inactive.
    pub fn active(&mut self, active: bool)
        ensures
            final(self).active == active,
            final(self).title == old(self).title,
    {
        self.active = active;
    }
}

/// The message a tab button sends.
#[derive(Debug, Clone)]
pub enum TabBarMessage {
    TabSelected(String),
}

/// A bar of tabs, each with its content; `C` is what produces a tab's content.
pub struct TabBar<C> {
    pub tabs: Vec<(Tab, C)>,
}

impl<C> TabBar<C> {
    /// A bar holding only `default_tab`, with its content.
    pub fn new(default_tab: Tab, default_tab_content: C) -> (res: Self)
        ensures
            res.tabs@ == seq![(default_tab, default_tab_content)],
    {
        let mut tabs: Vec<(Tab, C)> = Vec::new();
        tabs.push((default_tab, default_tab_content));
        assert(tabs@ =~= seq![(default_tab, default_tab_content)]);
        TabBar { tabs }
    }

    /// Adds a tab, with its content, after the others.
    pub fn push(&mut self, tab: Tab, content: C)
        ensures
            final(self).tabs@ == old(self).tabs@.push((tab, content)),
    {
        self.tabs.push((tab, content));
    }

    /// The titles of the tab buttons, in order.
    pub fn titles(&self) -> (res: Vec<String>)
        ensures
            res@.len() == self.tabs@.len(),
            forall|i: int| 0 <= i < res@.len() ==> #[trigger] res@[i] == self.tabs@[i].0.title,
    {
        let mut res: Vec<String> = Vec::new();
        let mut i: usize = 0;
        while i < self.tabs.len()
            invariant
                i <= self.tabs@.len(),
                res@.len() == i,
                forall|k: int| 0 <= k < i ==> #[trigger] res@[k] == self.tabs@[k].0.title,
            decreases self.tabs@.len() - i,
        {
            res.push(self.tabs[i].0.title());
            i = i + 1;
        }
        res
    }

    /// The tab whose content is shown: the first active one, if any.
    pub fn active_index(&self) -> (res: Option<usize>)
        ensures
            res matches Some(i) ==> i < self.tabs@.len() && self.tabs@[i as int].0.active
                && forall|j: int| 0 <= j < i ==> !#[trigger] self.tabs@[j].0.active,
            res is None ==> forall|j: int|
                0 <= j < self.tabs@.len() ==> !#[trigger] self.tabs@[j].0.active,
    {
        let mut i: usize = 0;
        while i < self.tabs.len()
            invariant
                i <= self.tabs@.len(),
                forall|j: int| 0 <= j < i ==> !#[trigger] self.tabs@[j].0.active,
            decreases self.tabs@.len() - i,
        {
            if self.tabs[i].0.is_active() {
                return Some(i);
            }
            i = i + 1;
        }
        None
    }
}


/// The main navigation tabs, in order: Home (active), Exit Nodes, Settings.
pub fn main_tabs() -> (res: Vec<Tab>)
    ensures
        res@.len() == 3,
        res@[0].title@ == "Home"@ && res@[0].active,
        res@[1].title@ == "Exit Nodes"@ && !res@[1].active,
        res@[2].title@ == "Settings"@ && !res@[2].active,
{
    let mut home = Tab::new("Home");
    home.active(true);
    let mut tabs: Vec<Tab> = Vec::new();
    tabs.push(home);
    tabs.push(Tab::new("Exit Nodes"));
    tabs.push(Tab::new("Settings"));
    tabs
}

} // verus!
