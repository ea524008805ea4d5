//! Keyboard-driven UI decisions: which action a key maps to in each view,
//! and what an action does to the view, the command queue and the process.
//! Rendering and event polling stay outside; the decisions live here.

use vstd::prelude::*;

use crate::session::BleAction;

verus! {

/// Whether the terminal is still waiting for the first reading.
pub enum UiState {
    Spinner(String),
    Connected,
}

/// What a key press asks the application to do.
#[derive(Debug, Clone, Copy, PartialEq, Eq, Structural)]
pub enum Action {
    Reconnect,
    Exit,
    ClearHistory,
    OpenDashboard,
    OpenCalibrateCo2Popup,
    OpenCalibrateTemperaturePopup,
    CalibrateCo2,
}

/// A key press, reduced to what the dispatch logic reads of it.
#[derive(Debug, Clone, Copy, PartialEq, Eq, Structural)]
pub enum KeyPress {
    Char(char),
    Enter,
    Esc,
    Other,
}

/// The calibration popup's tabs; the temperature tab carries the operator's
/// input so far.
#[derive(Debug, Clone, PartialEq)]
pub enum Tab {
    Co2,
    Temperature { input: String },
}

impl Tab {
    /// The key that selects this tab.
    pub fn get_char(&self) -> (c: char)
        ensures
            (self is Co2) ==> c == 'c',
            (self is Temperature) ==> c == 't',
    {
        match self {
            Tab::Co2 => 'c',
            Tab::Temperature { .. } => 't',
        }
    }
}

/// The calibration popup: one selected tab.
pub struct CalibrationPopup {
    tab: Tab,
}

impl CalibrationPopup {
    /// The selected tab.
    pub closed spec fn spec_tab(&self) -> Tab {
        self.tab
    }

    /// A popup opened on the CO2 calibration tab.
    pub fn co2() -> (r: Self)
        ensures
            r.spec_tab() == Tab::Co2,
    {
        Self { tab: Tab::Co2 }
    }

    /// Whether the temperature tab is the selected one.
    pub fn is_temperature(&self) -> (r: bool)
        ensures
            r == (self.spec_tab() is Temperature),
    {
        match &self.tab {
            Tab::Co2 => false,
            Tab::Temperature { .. } => true,
        }
    }

    /// A popup opened on the temperature calibration tab, with no input yet.
    pub fn temperature() -> (r: Self)
        ensures
            r.spec_tab() is Temperature,
    {
        Self { tab: Tab::Temperature { input: String::new() } }
    }

    /// Maps a key pressed while the popup is open: tab-select keys switch
    /// tabs, escape returns to the dashboard, and enter starts the selected
    /// calibration. Confirming the temperature tab is not implemented and is
    /// excluded here.
    pub fn handle_key(&self, key: &KeyPress) -> (r: Option<Action>)
        requires
            !(*key == KeyPress::Enter && self.spec_tab() is Temperature),
        ensures
            *key == KeyPress::Char('t') ==> r == Some(Action::OpenCalibrateTemperaturePopup),
            *key == KeyPress::Char('c') ==> r == Some(Action::OpenCalibrateCo2Popup),
            *key == KeyPress::Esc ==> r == Some(Action::OpenDashboard),
            *key == KeyPress::Enter ==> r == Some(Action::CalibrateCo2),
            (match *key {
                KeyPress::Char(c) => c != 't' && c != 'c',
                KeyPress::Enter => false,
                KeyPress::Esc => false,
                KeyPress::Other => true,
            }) ==> r is None,
    {
        match key {
            KeyPress::Char(c) => {
                if *c == 't' {
                    Some(Action::OpenCalibrateTemperaturePopup)
                } else if *c == 'c' {
                    Some(Action::OpenCalibrateCo2Popup)
                } else {
                    None
                }
            },
            KeyPress::Esc => Some(Action::OpenDashboard),
            KeyPress::Enter => Some(Action::CalibrateCo2),
            KeyPress::Other => None,
        }
    }
}

/// The views the terminal can show.
pub enum View {
    Dashboard,
    Calibrate(CalibrationPopup),
}

/// Maps a key pressed on the dashboard to its button's action: calibrate,
/// reconnect, clear history, or exit.
pub fn handle_dashboard_key_event(key: &KeyPress) -> (r: Option<Action>)
    ensures
        *key == KeyPress::Char('c') ==> r == Some(Action::OpenCalibrateCo2Popup),
        *key == KeyPress::Char('r') ==> r == Some(Action::Reconnect),
        *key == KeyPress::Char('x') ==> r == Some(Action::ClearHistory),
        *key == KeyPress::Char('q') ==> r == Some(Action::Exit),
        (match *key {
            KeyPress::Char(c) => c != 'c' && c != 'r' && c != 'x' && c != 'q',
            _ => true,
        }) ==> r is None,
{
    match key {
        KeyPress::Char(c) => {
            if *c == 'c' {
                Some(Action::OpenCalibrateCo2Popup)
            } else if *c == 'r' {
                Some(Action::Reconnect)
            } else if *c == 'x' {
                Some(Action::ClearHistory)
            } else if *c == 'q' {
                Some(Action::Exit)
            } else {
                None
            }
        },
        _ => None,
    }
}

/// What applying one UI action amounts to.
pub struct UiUpdate {
    /// The view to switch to, if any.
    pub next_view: Option<View>,
    /// The command to queue towards the link session, if any.
    pub send: Option<BleAction>,
    /// Whether the application exits.
    pub exit: bool,
}

/// Applies a dispatched action: popup actions switch the view, CO2
/// calibration queues the command and returns to the dashboard, reconnect
/// queues a session stop, and exit ends the application. Clearing the
/// history is not implemented and is excluded here.
pub fn apply_ui_action(action: &Action) -> (u: UiUpdate)
    requires
        *action != Action::ClearHistory,
    ensures
        *action == Action::OpenCalibrateTemperaturePopup ==> ((u.next_view matches Some(
            View::Calibrate(p),
        ) && p.spec_tab() is Temperature) && u.send is None && !u.exit),
        *action == Action::OpenCalibrateCo2Popup ==> ((u.next_view matches Some(View::Calibrate(p))
            && p.spec_tab() == Tab::Co2) && u.send is None && !u.exit),
        *action == Action::CalibrateCo2 ==> ((u.next_view matches Some(View::Dashboard)) && u.send
            == Some(BleAction::CalibrateCo2) && !u.exit),
        *action == Action::Reconnect ==> (u.next_view is None && u.send == Some(BleAction::Stop)
            && !u.exit),
        *action == Action::Exit ==> u.exit,
        *action == Action::OpenDashboard ==> ((u.next_view matches Some(View::Dashboard)) && u.send
            is None && !u.exit),
{
    match action {
        Action::OpenCalibrateTemperaturePopup => UiUpdate {
            next_view: Some(View::Calibrate(CalibrationPopup::temperature())),
            send: None,
            exit: false,
        },
        Action::OpenCalibrateCo2Popup => UiUpdate {
            next_view: Some(View::Calibrate(CalibrationPopup::co2())),
            send: None,
            exit: false,
        },
        Action::CalibrateCo2 => UiUpdate {
            next_view: Some(View::Dashboard),
            send: Some(BleAction::CalibrateCo2),
            exit: false,
        },
        Action::Reconnect => UiUpdate { next_view: None, send: Some(BleAction::Stop), exit: false },
        Action::Exit => UiUpdate { next_view: None, send: None, exit: true },
        Action::ClearHistory => UiUpdate { next_view: None, send: None, exit: false },
        Action::OpenDashboard => UiUpdate {
            next_view: Some(View::Dashboard),
            send: None,
            exit: false,
        },
    }
}

} // verus!
