//! The tabs of the application.
use vstd::prelude::*;

verus! {

/// A tab, numbered from 0 in declaration order.
#[derive(Clone, Copy, Debug, PartialEq, Eq, Structural)]
pub enum Tab {
    Main,
    Typing,
    Settings,
    Help,
}

impl Tab {
    /// The tab numbered `num`, if any.
    pub fn from_number(num: usize) -> (r: Option<Tab>)
        ensures
            num == 0 ==> r == Some(Tab::Main),
            num == 1 ==> r == Some(Tab::Typing),
            num == 2 ==> r == Some(Tab::Settings),
            num == 3 ==> r == Some(Tab::Help),
            num > 3 ==> r is None,
    {
        match num {
            0 => Some(Tab::Main),
            1 => Some(Tab::Typing),
            2 => Some(Tab::Settings),
            3 => Some(Tab::Help),
            _ => None,
        }
    }

    pub open spec fn title(self) -> Seq<char> {
        match self {
            Tab::Main => "Main"@,
            Tab::Typing => "Typing"@,
            Tab::Help => "Help"@,
            Tab::Settings => "Settings"@,
        }
    }

    /// The title of the tab.
    pub fn to_string(&self) -> (r: &'static str)
        ensures
            r@ == self.title(),
    {
        match self {
            Tab::Main => "Main",
            Tab::Typing => "Typing",
            Tab::Help => "Help",
            Tab::Settings => "Settings",
        }
    }
}

} // verus!
