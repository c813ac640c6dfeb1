//! The screen state machine and the selection store it writes.

use vstd::prelude::*;

use crate::route::{members, spec_resolve, RouteRegistry};

verus! {

/// A screen other than the diagnostics view.
#[derive(Debug, Clone, Copy, PartialEq, Eq, Structural)]
pub enum Page {
    SelectCategory,
    /// Picking a route of the category with this index.
    SelectRoute(usize),
    ConfirmSelection,
    Confirmed,
}

/// The active screen. The diagnostics view remembers the page it was opened
/// from, and that page is never itself the diagnostics view.
#[derive(Debug, Clone, Copy, PartialEq, Eq, Structural)]
pub enum Screen {
    SelectCategory,
    SelectRoute(usize),
    ConfirmSelection,
    Confirmed,
    Diagnostics(Page),
}

/// The screen that shows `p`.
pub open spec fn page_screen(p: Page) -> Screen {
    match p {
        Page::SelectCategory => Screen::SelectCategory,
        Page::SelectRoute(c) => Screen::SelectRoute(c),
        Page::ConfirmSelection => Screen::ConfirmSelection,
        Page::Confirmed => Screen::Confirmed,
    }
}

/// The page that a non-diagnostics screen shows.
pub open spec fn screen_page(s: Screen) -> Page
    recommends
        !(s is Diagnostics),
{
    match s {
        Screen::SelectCategory => Page::SelectCategory,
        Screen::SelectRoute(c) => Page::SelectRoute(c),
        Screen::ConfirmSelection => Page::ConfirmSelection,
        Screen::Confirmed => Page::Confirmed,
        Screen::Diagnostics(p) => p,
    }
}

/// The animation key of a screen: one value per screen kind, so that two
/// renders of the same kind of screen never start a transition.
pub open spec fn spec_animation_key(s: Screen) -> u32 {
    match s {
        Screen::SelectCategory => 0,
        Screen::SelectRoute(_) => 1,
        Screen::ConfirmSelection => 2,
        Screen::Confirmed => 3,
        Screen::Diagnostics(_) => 4,
    }
}

impl Page {
    /// The screen that shows this page.
    pub fn to_screen(self) -> (s: Screen)
        ensures
            s == page_screen(self),
    {
        match self {
            Page::SelectCategory => Screen::SelectCategory,
            Page::SelectRoute(c) => Screen::SelectRoute(c),
            Page::ConfirmSelection => Screen::ConfirmSelection,
            Page::Confirmed => Screen::Confirmed,
        }
    }
}

impl Screen {
    /// The animation key of this screen's kind.
    pub fn animation_key(&self) -> (k: u32)
        ensures
            k == spec_animation_key(*self),
    {
        match self {
            Screen::SelectCategory => 0,
            Screen::SelectRoute(_) => 1,
            Screen::ConfirmSelection => 2,
            Screen::Confirmed => 3,
            Screen::Diagnostics(_) => 4,
        }
    }
}

/// The selection and calibration state shared between the menu and the
/// competition lifecycle.
#[derive(Debug, Clone, Copy, PartialEq, Eq, Structural)]
pub struct SelectionStore {
    /// The chosen route's global index.
    pub selected_route: Option<usize>,
    /// A calibration is running.
    pub calibrating: bool,
    /// The integrator offers calibration.
    pub show_calibration_ui: bool,
    /// The integrator offers diagnostics.
    pub show_diagnostics_ui: bool,
}

/// A tap or signal that the screen state machine reacts to.
#[derive(Debug, Clone, Copy, PartialEq, Eq, Structural)]
pub enum UiEvent {
    /// A category card, by category index.
    CategoryTapped(usize),
    BackTapped,
    /// A route card, by its index within the shown category.
    RouteTapped(usize),
    CancelTapped,
    ConfirmTapped,
    ChangeRouteTapped,
    DiagnosticsTapped,
    /// The refresh control of the diagnostics view.
    RefreshTapped,
    CalibrateTapped,
    /// The competition's autonomous phase began.
    AutonomousStarted,
}

/// Work that a transition asks its caller to do.
#[derive(Debug, Clone, Copy, PartialEq, Eq, Structural)]
pub enum Effect {
    Nothing,
    /// Fetch a fresh diagnostics snapshot.
    RefreshDiagnostics,
    /// Start the integrator's calibration procedure.
    StartCalibration,
}

/// An event named a category or route that does not exist.
#[derive(Debug, Clone, Copy, PartialEq, Eq, Structural)]
pub enum NavError {
    UnknownCategory,
    UnknownRoute,
}

/// The state of the machine: the screen and the selection store.
pub struct NavState {
    pub screen: Screen,
    pub store: SelectionStore,
}

/// The outcome of one event: the next state and what the caller must do.
pub struct Transition {
    pub state: NavState,
    pub outcome: Result<Effect, NavError>,
}

/// A transition that leaves `s` as it is and asks for nothing.
pub open spec fn unchanged(s: NavState) -> Transition {
    Transition { state: s, outcome: Ok(Effect::Nothing) }
}

/// A transition to `screen` that keeps the store.
pub open spec fn goto(s: NavState, screen: Screen) -> Transition {
    Transition { state: NavState { screen, store: s.store }, outcome: Ok(Effect::Nothing) }
}

/// How the machine reacts to `e` in state `s`, for routes with category keys
/// `keys` and category list `cats`.
pub open spec fn step(s: NavState, e: UiEvent, keys: Seq<u32>, cats: Seq<u32>) -> Transition {
    match e {
        UiEvent::CategoryTapped(c) => {
            if s.screen is SelectCategory {
                if c < cats.len() {
                    goto(s, Screen::SelectRoute(c))
                } else {
                    Transition { state: s, outcome: Err(NavError::UnknownCategory) }
                }
            } else {
                unchanged(s)
            }
        },
        UiEvent::BackTapped => {
            if s.screen is SelectRoute {
                goto(s, Screen::SelectCategory)
            } else {
                unchanged(s)
            }
        },
        UiEvent::RouteTapped(r) => match s.screen {
            Screen::SelectRoute(c) => match spec_resolve(keys, cats, c as int, r as int) {
                Some(g) => Transition {
                    state: NavState {
                        screen: Screen::ConfirmSelection,
                        store: SelectionStore { selected_route: Some(g), ..s.store },
                    },
                    outcome: Ok(Effect::Nothing),
                },
                None => Transition { state: s, outcome: Err(NavError::UnknownRoute) },
            },
            _ => unchanged(s),
        },
        UiEvent::CancelTapped => {
            if s.screen is ConfirmSelection {
                goto(s, Screen::SelectCategory)
            } else {
                unchanged(s)
            }
        },
        UiEvent::ConfirmTapped => {
            if s.screen is ConfirmSelection && !s.store.calibrating {
                goto(s, Screen::Confirmed)
            } else {
                unchanged(s)
            }
        },
        UiEvent::ChangeRouteTapped => {
            if s.screen is Confirmed {
                goto(s, Screen::SelectCategory)
            } else {
                unchanged(s)
            }
        },
        UiEvent::DiagnosticsTapped => match s.screen {
            Screen::Diagnostics(p) => goto(s, page_screen(p)),
            _ => {
                if s.store.show_diagnostics_ui {
                    Transition {
                        state: NavState {
                            screen: Screen::Diagnostics(screen_page(s.screen)),
                            store: s.store,
                        },
                        outcome: Ok(Effect::RefreshDiagnostics),
                    }
                } else {
                    unchanged(s)
                }
            },
        },
        UiEvent::RefreshTapped => {
            if s.screen is Diagnostics {
                Transition { state: s, outcome: Ok(Effect::RefreshDiagnostics) }
            } else {
                unchanged(s)
            }
        },
        UiEvent::CalibrateTapped => {
            if s.store.show_calibration_ui && !s.store.calibrating {
                Transition {
                    state: NavState {
                        screen: s.screen,
                        store: SelectionStore { calibrating: true, ..s.store },
                    },
                    outcome: Ok(Effect::StartCalibration),
                }
            } else {
                unchanged(s)
            }
        },
        UiEvent::AutonomousStarted => goto(s, Screen::Confirmed),
    }
}

/// The state fits a registry with `n_categories` categories and `n_routes`
/// routes: a route screen names an existing category, a stored selection an
/// existing route, the confirmation screen has a selection to confirm, and
/// the diagnostics view is open only while diagnostics are offered.
pub open spec fn state_wf(s: NavState, n_categories: nat, n_routes: nat) -> bool {
    &&& (s.screen matches Screen::SelectRoute(c) ==> c < n_categories)
    &&& (s.screen matches Screen::Diagnostics(Page::SelectRoute(c)) ==> c < n_categories)
    &&& (s.store.selected_route matches Some(g) ==> g < n_routes)
    &&& (s.screen is ConfirmSelection ==> s.store.selected_route is Some)
    &&& (s.screen matches Screen::Diagnostics(p) ==> (p is ConfirmSelection ==> s.store.selected_route is Some))
    &&& (s.screen is Diagnostics ==> s.store.show_diagnostics_ui)
}

/// The state the menu starts in.
pub open spec fn initial_state() -> NavState {
    NavState {
        screen: Screen::SelectCategory,
        store: SelectionStore {
            selected_route: None,
            calibrating: false,
            show_calibration_ui: false,
            show_diagnostics_ui: false,
        },
    }
}

/// The state after taking over what the integrator offers: the flags are
/// replaced, and the diagnostics view closes when diagnostics are withdrawn.
pub open spec fn synced(s: NavState, calibration_enabled: bool, diagnostics_enabled: bool, calibrating: bool) -> NavState {
    NavState {
        screen: match s.screen {
            Screen::Diagnostics(p) => if diagnostics_enabled {
                s.screen
            } else {
                page_screen(p)
            },
            other => other,
        },
        store: SelectionStore {
            show_calibration_ui: calibration_enabled,
            show_diagnostics_ui: diagnostics_enabled,
            calibrating,
            ..s.store
        },
    }
}

/// The screen state machine: the active screen and the selection store.
pub struct Navigator {
    screen: Screen,
    store: SelectionStore,
}

impl Navigator {
    /// The machine's state.
    pub closed spec fn state(&self) -> NavState {
        NavState { screen: self.screen, store: self.store }
    }

    /// Starts on the category list with nothing selected and no calibration
    /// or diagnostics offered.
    pub fn new() -> (n: Navigator)
        ensures
            n.state() == initial_state(),
    {
        Navigator {
            screen: Screen::SelectCategory,
            store: SelectionStore {
                selected_route: None,
                calibrating: false,
                show_calibration_ui: false,
                show_diagnostics_ui: false,
            },
        }
    }

    /// The active screen.
    pub fn screen(&self) -> (s: Screen)
        ensures
            s == self.state().screen,
    {
        self.screen
    }

    /// The selection store.
    pub fn store(&self) -> (s: SelectionStore)
        ensures
            s == self.state().store,
    {
        self.store
    }

    /// Reacts to one event, as `step` describes.
    pub fn handle<F>(&mut self, reg: &RouteRegistry<F>, e: UiEvent) -> (r: Result<Effect, NavError>)
        requires
            reg.wf(),
        ensures
            final(self).state() == step(old(self).state(), e, reg.spec_keys(), reg.spec_categories()).state,
            r == step(old(self).state(), e, reg.spec_keys(), reg.spec_categories()).outcome,
    {
        match e {
            UiEvent::CategoryTapped(c) => {
                if let Screen::SelectCategory = self.screen {
                    if c < reg.category_count() {
                        self.screen = Screen::SelectRoute(c);
                    } else {
                        return Err(NavError::UnknownCategory);
                    }
                }
                Ok(Effect::Nothing)
            },
            UiEvent::BackTapped => {
                if let Screen::SelectRoute(_) = self.screen {
                    self.screen = Screen::SelectCategory;
                }
                Ok(Effect::Nothing)
            },
            UiEvent::RouteTapped(r) => {
                if let Screen::SelectRoute(c) = self.screen {
                    match reg.resolve(c, r) {
                        Some(g) => {
                            self.store.selected_route = Some(g);
                            self.screen = Screen::ConfirmSelection;
                        },
                        None => {
                            return Err(NavError::UnknownRoute);
                        },
                    }
                }
                Ok(Effect::Nothing)
            },
            UiEvent::CancelTapped => {
                if let Screen::ConfirmSelection = self.screen {
                    self.screen = Screen::SelectCategory;
                }
                Ok(Effect::Nothing)
            },
            UiEvent::ConfirmTapped => {
                if let Screen::ConfirmSelection = self.screen {
                    if !self.store.calibrating {
                        self.screen = Screen::Confirmed;
                    }
                }
                Ok(Effect::Nothing)
            },
            UiEvent::ChangeRouteTapped => {
                if let Screen::Confirmed = self.screen {
                    self.screen = Screen::SelectCategory;
                }
                Ok(Effect::Nothing)
            },
            UiEvent::DiagnosticsTapped => {
                let page = match self.screen {
                    Screen::Diagnostics(p) => {
                        self.screen = p.to_screen();
                        return Ok(Effect::Nothing);
                    },
                    Screen::SelectCategory => Page::SelectCategory,
                    Screen::SelectRoute(c) => Page::SelectRoute(c),
                    Screen::ConfirmSelection => Page::ConfirmSelection,
                    Screen::Confirmed => Page::Confirmed,
                };
                if self.store.show_diagnostics_ui {
                    self.screen = Screen::Diagnostics(page);
                    Ok(Effect::RefreshDiagnostics)
                } else {
                    Ok(Effect::Nothing)
                }
            },
            UiEvent::RefreshTapped => {
                if let Screen::Diagnostics(_) = self.screen {
                    Ok(Effect::RefreshDiagnostics)
                } else {
                    Ok(Effect::Nothing)
                }
            },
            UiEvent::CalibrateTapped => {
                if self.store.show_calibration_ui && !self.store.calibrating {
                    self.store.calibrating = true;
                    Ok(Effect::StartCalibration)
                } else {
                    Ok(Effect::Nothing)
                }
            },
            UiEvent::AutonomousStarted => {
                self.screen = Screen::Confirmed;
                Ok(Effect::Nothing)
            },
        }
    }

    /// Takes over what the integrator currently offers and whether a
    /// calibration runs. Withdrawing diagnostics closes the diagnostics view.
    /// Returns whether the state changed.
    pub fn sync_interface(
        &mut self,
        calibration_enabled: bool,
        diagnostics_enabled: bool,
        calibrating: bool,
    ) -> (changed: bool)
        ensures
            final(self).state() == synced(old(self).state(), calibration_enabled, diagnostics_enabled, calibrating),
            changed == (final(self).state() != old(self).state()),
    {
        let before_screen = self.screen;
        let before_store = self.store;
        self.store.show_calibration_ui = calibration_enabled;
        self.store.show_diagnostics_ui = diagnostics_enabled;
        self.store.calibrating = calibrating;
        if let Screen::Diagnostics(p) = self.screen {
            if !diagnostics_enabled {
                self.screen = p.to_screen();
            }
        }
        let changed = self.screen != before_screen || self.store != before_store;
        proof {
            if !changed {
                assert(self.state() == old(self).state());
            }
        }
        changed
    }

    /// Selects route `g` without going through the menu.
    pub fn select<F>(&mut self, reg: &RouteRegistry<F>, g: usize)
        requires
            g < reg.spec_routes().len(),
        ensures
            final(self).state().screen == old(self).state().screen,
            final(self).state().store == (SelectionStore { selected_route: Some(g), ..old(self).state().store }),
    {
        self.store.selected_route = Some(g);
    }
}

/// What autonomous runs when nothing was ever selected; the integrator must
/// choose one of these explicitly.
#[derive(Debug, Clone, Copy, PartialEq, Eq, Structural)]
pub enum Fallback {
    /// Run no routine.
    Nothing,
    /// Run the route with this global index.
    Route(usize),
}

/// The route to run when the autonomous phase begins: the selection if there
/// is one, else the fallback. `None` means run nothing.
pub fn autonomous_route(store: &SelectionStore, fallback: Fallback) -> (r: Option<usize>)
    ensures
        r == match store.selected_route {
            Some(g) => Some(g),
            None => match fallback {
                Fallback::Nothing => None,
                Fallback::Route(g) => Some(g),
            },
        },
{
    match store.selected_route {
        Some(g) => Some(g),
        None => match fallback {
            Fallback::Nothing => None,
            Fallback::Route(g) => Some(g),
        },
    }
}

/// The start state fits every registry.
pub proof fn lemma_initial_wf(n_categories: nat, n_routes: nat)
    ensures
        state_wf(initial_state(), n_categories, n_routes),
{
}

/// Every event keeps the state fitting the registry: in particular no event
/// ever leads to a route screen for a category that does not exist, and the
/// confirmation screen is reached only with a route selected.
pub proof fn lemma_step_keeps_wf<F>(reg: &RouteRegistry<F>, s: NavState, e: UiEvent)
    requires
        reg.wf(),
        state_wf(s, reg.spec_categories().len(), reg.spec_routes().len()),
    ensures
        state_wf(
            step(s, e, reg.spec_keys(), reg.spec_categories()).state,
            reg.spec_categories().len(),
            reg.spec_routes().len(),
        ),
{
    if let UiEvent::RouteTapped(r) = e {
        if let Screen::SelectRoute(c) = s.screen {
            let keys = reg.spec_keys();
            let cats = reg.spec_categories();
            if 0 <= c < cats.len() && 0 <= r < members(keys, cats[c as int]).len() {
                crate::route::lemma_resolve_locate(reg, c as int, r as int);
            }
        }
    }
}

/// Opening the diagnostics view from any other screen and toggling it again
/// returns exactly to that screen, with the store untouched.
pub proof fn lemma_diagnostics_round_trip(s: NavState, keys: Seq<u32>, cats: Seq<u32>)
    requires
        !(s.screen is Diagnostics),
        s.store.show_diagnostics_ui,
    ensures
        step(s, UiEvent::DiagnosticsTapped, keys, cats).state.screen == Screen::Diagnostics(screen_page(s.screen)),
        step(step(s, UiEvent::DiagnosticsTapped, keys, cats).state, UiEvent::DiagnosticsTapped, keys, cats).state == s,
{
}

/// When the autonomous phase starts the screen becomes the confirmed screen,
/// whatever it was, and the selected route is kept.
pub proof fn lemma_autonomous_start_confirms(s: NavState, keys: Seq<u32>, cats: Seq<u32>)
    requires
        s.store.selected_route is Some,
    ensures
        step(s, UiEvent::AutonomousStarted, keys, cats).state.screen == Screen::Confirmed,
        step(s, UiEvent::AutonomousStarted, keys, cats).state.store == s.store,
        step(s, UiEvent::AutonomousStarted, keys, cats).outcome == Ok::<Effect, NavError>(Effect::Nothing),
{
}

/// While diagnostics are not offered the diagnostics view is not open, no
/// event opens it, and no event starts offering it.
pub proof fn lemma_diagnostics_disabled(s: NavState, e: UiEvent, n_categories: nat, n_routes: nat, keys: Seq<u32>, cats: Seq<u32>)
    requires
        state_wf(s, n_categories, n_routes),
        !s.store.show_diagnostics_ui,
    ensures
        !(s.screen is Diagnostics),
        !(step(s, e, keys, cats).state.screen is Diagnostics),
        !step(s, e, keys, cats).state.store.show_diagnostics_ui,
        step(s, e, keys, cats).outcome != Ok::<Effect, NavError>(Effect::RefreshDiagnostics),
{
}

/// Taking over the integrator's flags keeps the state fitting the registry.
pub proof fn lemma_sync_keeps_wf(s: NavState, calibration_enabled: bool, diagnostics_enabled: bool, calibrating: bool, n_categories: nat, n_routes: nat)
    requires
        state_wf(s, n_categories, n_routes),
    ensures
        state_wf(synced(s, calibration_enabled, diagnostics_enabled, calibrating), n_categories, n_routes),
{
}

} // verus!
