//! Decision logic behind the tray menu.
//!
//! The menu itself — items, icon, OS event loop — is presented outside this
//! library.  The library owns the decisions: which action a clicked menu
//! item identifier denotes, what effect each action has and whether the
//! menu must be rebuilt afterwards, the label of the autostart item, and
//! the address of the served page.

use vstd::prelude::*;
use vstd::string::StringExecFns;

verus! {

/// One action a tray-menu click can request.
#[derive(Clone, Copy, Debug, PartialEq, Eq, Structural)]
pub enum MenuAction {
    /// Open the served touch-surface page in the default browser.
    OpenWeb,
    /// Flip the "launch at login" setting.
    ToggleStartup,
    /// Open the project page.
    About,
    /// Shut the application down.
    Quit,
    /// A click on no known item.
    NoAction,
}

/// The outward effect of one menu action, for the shell to perform, and
/// whether the menu must be rebuilt to reflect new state.
#[derive(Clone, Copy, Debug, PartialEq, Eq, Structural)]
pub enum MenuEffect {
    /// Open the served page in the default browser.
    OpenWebInterface,
    /// Flip the autostart setting.
    ToggleStartup,
    /// Open the project page in the default browser.
    OpenAboutPage,
    /// Leave the event loop.
    Quit,
    /// Do nothing.
    Nothing,
}

/// What executing one menu action directs the shell to do.
#[derive(Clone, Copy, Debug, PartialEq, Eq, Structural)]
pub struct MenuDirective {
    /// The outward effect to perform.
    pub effect: MenuEffect,
    /// Whether the menu must be rebuilt afterwards (its autostart label
    /// reflects state that the effect changes).
    pub update_menu: bool,
}

/// The tray menu as the library sees it: the identifiers of its four
/// items, in the order they stand in the menu.
#[derive(Debug, Clone)]
pub struct TrayMenu {
    open_web_id: String,
    startup_id: String,
    about_id: String,
    quit_id: String,
}

/// The mathematical model of a `TrayMenu`.
pub ghost struct TrayMenuModel {
    pub open_web_id: Seq<char>,
    pub startup_id: Seq<char>,
    pub about_id: Seq<char>,
    pub quit_id: Seq<char>,
}

impl View for TrayMenu {
    type V = TrayMenuModel;

    closed spec fn view(&self) -> TrayMenuModel {
        TrayMenuModel {
            open_web_id: self.open_web_id@,
            startup_id: self.startup_id@,
            about_id: self.about_id@,
            quit_id: self.quit_id@,
        }
    }
}

/// Which action a clicked item identifier denotes, first match in menu
/// order, `NoAction` for an identifier outside the menu.
pub open spec fn spec_action_for(m: TrayMenuModel, id: Seq<char>) -> MenuAction {
    if id == m.open_web_id {
        MenuAction::OpenWeb
    } else if id == m.startup_id {
        MenuAction::ToggleStartup
    } else if id == m.about_id {
        MenuAction::About
    } else if id == m.quit_id {
        MenuAction::Quit
    } else {
        MenuAction::NoAction
    }
}

/// What executing one menu action does: its outward effect, and whether
/// the menu must be rebuilt.  Only the autostart toggle changes state the
/// menu displays, so only it asks for a rebuild.
pub open spec fn spec_directive(action: MenuAction) -> MenuDirective {
    match action {
        MenuAction::OpenWeb => MenuDirective {
            effect: MenuEffect::OpenWebInterface,
            update_menu: false,
        },
        MenuAction::ToggleStartup => MenuDirective {
            effect: MenuEffect::ToggleStartup,
            update_menu: true,
        },
        MenuAction::About => MenuDirective { effect: MenuEffect::OpenAboutPage, update_menu: false },
        MenuAction::Quit => MenuDirective { effect: MenuEffect::Quit, update_menu: false },
        MenuAction::NoAction => MenuDirective { effect: MenuEffect::Nothing, update_menu: false },
    }
}

impl TrayMenu {
    /// Record the identifiers of the four menu items, in menu order:
    /// open the web interface, toggle autostart, about, quit.
    pub fn new(open_web_id: String, startup_id: String, about_id: String, quit_id: String) -> (m:
        TrayMenu)
        ensures
            m@ == (TrayMenuModel {
                open_web_id: open_web_id@,
                startup_id: startup_id@,
                about_id: about_id@,
                quit_id: quit_id@,
            }),
    {
        TrayMenu { open_web_id, startup_id, about_id, quit_id }
    }

    /// Resolve a menu event to the action it requests.
    pub fn handle_event(&self, event_id: &String) -> (action: MenuAction)
        ensures
            action == spec_action_for(self@, event_id@),
    {
        if event_id.eq(&self.open_web_id) {
            MenuAction::OpenWeb
        } else if event_id.eq(&self.startup_id) {
            MenuAction::ToggleStartup
        } else if event_id.eq(&self.about_id) {
            MenuAction::About
        } else if event_id.eq(&self.quit_id) {
            MenuAction::Quit
        } else {
            MenuAction::NoAction
        }
    }

    /// Decide what executing a menu action does: the outward effect the
    /// shell must perform, and whether the menu must be rebuilt afterwards.
    pub fn execute_action(&self, action: MenuAction) -> (d: MenuDirective)
        ensures
            d == spec_directive(action),
    {
        match action {
            MenuAction::OpenWeb => MenuDirective {
                effect: MenuEffect::OpenWebInterface,
                update_menu: false,
            },
            MenuAction::ToggleStartup => MenuDirective {
                effect: MenuEffect::ToggleStartup,
                update_menu: true,
            },
            MenuAction::About => MenuDirective {
                effect: MenuEffect::OpenAboutPage,
                update_menu: false,
            },
            MenuAction::Quit => MenuDirective { effect: MenuEffect::Quit, update_menu: false },
            MenuAction::NoAction => MenuDirective { effect: MenuEffect::Nothing, update_menu: false },
        }
    }
}

/// The label of the autostart menu item: a check mark marks the enabled
/// state.
pub fn startup_label(enabled: bool) -> (label: &'static str)
    ensures
        label@ == (if enabled {
            "✓ Start with Windows"@
        } else {
            "Start with Windows"@
        }),
{
    if enabled {
        "✓ Start with Windows"
    } else {
        "Start with Windows"
    }
}

/// The address of the served touch-surface page on the given host: the
/// page is served over plain HTTP on port 8000.
pub fn web_url(host: &str) -> (url: String)
    ensures
        url@ == "http://"@ + host@ + ":8000/"@,
{
    let mut url: String = "http://".to_owned();
    url.append(host);
    url.append(":8000/");
    url
}

} // verus!
