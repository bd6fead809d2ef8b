use vstd::prelude::*;

verus! {

/// The tabs of the application, in the order of the navigation bar.
#[derive(Debug, Clone, Copy, PartialEq, Eq, Structural)]
pub enum Tab {
    Chat,
    RoomMenu,
    Direct,
    Rating,
}

impl Tab {
    /// The tab that follows in the cycle Chat, RoomMenu, Direct. The rating
    /// page stands outside the cycle and leads back to the chat.
    pub open spec fn following(self) -> Tab {
        match self {
            Tab::Chat => Tab::RoomMenu,
            Tab::RoomMenu => Tab::Direct,
            Tab::Direct => Tab::Chat,
            Tab::Rating => Tab::Chat,
        }
    }

    /// The place of the tab in the navigation bar.
    pub open spec fn place(self) -> nat {
        match self {
            Tab::Chat => 0,
            Tab::RoomMenu => 1,
            Tab::Direct => 2,
            Tab::Rating => 3,
        }
    }

    /// Switch to the next tab in the cycle.
    pub fn next(&self) -> (tab: Tab)
        ensures
            tab == self.following(),
    {
        match self {
            Tab::Chat => Tab::RoomMenu,
            Tab::RoomMenu => Tab::Direct,
            Tab::Direct => Tab::Chat,
            Tab::Rating => Tab::Chat,
        }
    }

    /// The place of the tab in the navigation bar.
    pub fn index(&self) -> (i: usize)
        ensures
            i == self.place(),
    {
        match self {
            Tab::Chat => 0,
            Tab::RoomMenu => 1,
            Tab::Direct => 2,
            Tab::Rating => 3,
        }
    }
}

impl Default for Tab {
    fn default() -> (tab: Tab)
        ensures
            tab == Tab::Chat,
    {
        Tab::Chat
    }
}

/// Three rounds of the cycle of tabs lead back to where they began, and the
/// cycle never leads to the rating page.
pub proof fn lemma_tab_cycle(tab: Tab)
    ensures
        tab.following() != Tab::Rating,
        tab != Tab::Rating ==> tab.following().following().following() == tab,
{
}

/// A key that the user pressed.
#[derive(Debug, Clone, Copy, PartialEq, Eq, Structural)]
pub enum Key {
    Char(char),
    Backspace,
    Enter,
    Left,
    Right,
    Up,
    Down,
    Tab,
    BackTab,
    Esc,
    Other,
}

/// Which item of a list is selected, if any. The place may lie beyond the
/// end of the list: nothing is selected then.
#[derive(Debug, Clone, Copy, PartialEq, Eq)]
pub struct Selection {
    pub selected: Option<usize>,
}

/// The place after `place`: the first place where there was none, and the
/// last place that a machine can count stays.
pub open spec fn next_place(place: Option<usize>) -> Option<usize> {
    match place {
        Some(i) => if i < usize::MAX {
            Some((i + 1) as usize)
        } else {
            Some(i)
        },
        None => Some(0),
    }
}

/// The place before `place`: the first place stays, and where there was
/// none it is the last place that a machine can count.
pub open spec fn previous_place(place: Option<usize>) -> Option<usize> {
    match place {
        Some(i) => if i > 0 {
            Some((i - 1) as usize)
        } else {
            Some(i)
        },
        None => Some(usize::MAX),
    }
}

impl Selection {
    /// Nothing selected.
    pub fn new() -> (s: Self)
        ensures
            s.selected is None,
    {
        Selection { selected: None }
    }

    /// The selected place.
    pub fn selected(&self) -> (place: Option<usize>)
        ensures
            place == self.selected,
    {
        self.selected
    }

    /// Selects a place, or nothing.
    pub fn select(&mut self, place: Option<usize>)
        ensures
            final(self).selected == place,
    {
        self.selected = place;
    }

    /// Selects the first place.
    pub fn select_first(&mut self)
        ensures
            final(self).selected == Some(0usize),
    {
        self.selected = Some(0);
    }

    /// Selects the place after the selected one.
    pub fn select_next(&mut self)
        ensures
            final(self).selected == next_place(old(self).selected),
    {
        self.selected = match self.selected {
            Some(i) => if i < usize::MAX {
                Some(i + 1)
            } else {
                Some(i)
            },
            None => Some(0),
        };
    }

    /// Selects the place before the selected one.
    pub fn select_previous(&mut self)
        ensures
            final(self).selected == previous_place(old(self).selected),
    {
        self.selected = match self.selected {
            Some(i) => if i > 0 {
                Some(i - 1)
            } else {
                Some(i)
            },
            None => Some(usize::MAX),
        };
    }
}

} // verus!
