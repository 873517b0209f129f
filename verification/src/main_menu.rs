//! The screens of the program and the moves between them.

use vstd::prelude::*;
use crate::ioc_menu::IOCSelectorApp;
use crate::rules::rule_menu::ToolSelectorApp;

verus! {

/// The screen that is shown.
#[derive(Debug)]
pub enum Screen {
    Menu,
    ToolSelector(ToolSelectorApp),
    IOCDownloader(IOCSelectorApp),
}

/// Which screen it is, whatever it holds.
#[derive(Clone, Copy, Debug, PartialEq, Eq, Structural)]
pub enum ScreenKind {
    Menu,
    ToolSelector,
    IOCDownloader,
}

/// What the user did on a screen.
#[derive(Clone, Copy, Debug, PartialEq, Eq, Structural)]
pub enum MenuEvent {
    /// Chose the rules on the menu.
    Rules,
    /// Chose the indicators on the menu.
    Iocs,
    /// Chose to quit on the menu.
    Quit,
    /// Asked a selector for the way back to the menu.
    Back,
}

impl Screen {
    pub open spec fn kind(&self) -> ScreenKind {
        match self {
            Screen::Menu => ScreenKind::Menu,
            Screen::ToolSelector(_) => ScreenKind::ToolSelector,
            Screen::IOCDownloader(_) => ScreenKind::IOCDownloader,
        }
    }
}

/// The screen that follows: the menu leads to the selectors, and a selector
/// leads back to the menu. Anything else leaves the screen as it is.
pub open spec fn next_screen(kind: ScreenKind, event: MenuEvent) -> ScreenKind {
    match (kind, event) {
        (ScreenKind::Menu, MenuEvent::Rules) => ScreenKind::ToolSelector,
        (ScreenKind::Menu, MenuEvent::Iocs) => ScreenKind::IOCDownloader,
        (ScreenKind::ToolSelector, MenuEvent::Back) => ScreenKind::Menu,
        (ScreenKind::IOCDownloader, MenuEvent::Back) => ScreenKind::Menu,
        _ => kind,
    }
}

/// The program as a whole: the screen shown, and whether its window has been
/// put in place.
#[derive(Debug)]
pub struct MainApp {
    pub screen: Screen,
    /// Whether the window has been put in place.
    pub did_center: bool,
}

impl Default for MainApp {
    fn default() -> (app: Self)
        ensures
            app.screen is Menu,
            !app.did_center,
    {
        MainApp { screen: Screen::Menu, did_center: false }
    }
}

impl MainApp {
    /// Says whether the window is still to be sized and centred, which is so
    /// exactly once, at the first call.
    pub fn take_centering(&mut self) -> (due: bool)
        ensures
            due == !old(self).did_center,
            final(self).did_center,
            final(self).screen == old(self).screen,
    {
        let due = !self.did_center;
        self.did_center = true;
        due
    }

    /// Takes what the user did and says whether the program is to end, which
    /// is so exactly when quitting was chosen on the menu. A selector that is
    /// entered starts afresh; a screen that stays keeps what it holds.
    pub fn handle(&mut self, event: MenuEvent) -> (quit: bool)
        ensures
            quit == (old(self).screen is Menu && event == MenuEvent::Quit),
            final(self).screen.kind() == next_screen(old(self).screen.kind(), event),
            final(self).screen.kind() == old(self).screen.kind() ==> final(self).screen == old(
                self
            ).screen,
            final(self).screen.kind() != old(self).screen.kind() ==> match final(self).screen {
                Screen::Menu => true,
                Screen::ToolSelector(tools) => tools.is_fresh(),
                Screen::IOCDownloader(iocs) => iocs.is_fresh(),
            },
            final(self).did_center == old(self).did_center,
    {
        match (&self.screen, event) {
            (Screen::Menu, MenuEvent::Rules) => {
                self.screen = Screen::ToolSelector(ToolSelectorApp::default());
                false
            },
            (Screen::Menu, MenuEvent::Iocs) => {
                self.screen = Screen::IOCDownloader(IOCSelectorApp::default());
                false
            },
            (Screen::Menu, MenuEvent::Quit) => true,
            (Screen::ToolSelector(_), MenuEvent::Back) => {
                self.screen = Screen::Menu;
                false
            },
            (Screen::IOCDownloader(_), MenuEvent::Back) => {
                self.screen = Screen::Menu;
                false
            },
            _ => false,
        }
    }
}

} // verus!
