//! What each screen shows, as plain data for a stateless renderer.

use vstd::prelude::*;

use crate::route::{members, RouteRegistry};
use crate::screen::{spec_animation_key, state_wf, Navigator, Screen, SelectionStore};

verus! {

/// Card lists scroll when they hold more items than this.
pub const SELECTOR_VISIBLE_ITEMS: usize = 4;

/// The most diagnostics entries shown at once.
pub const MAX_DIAGNOSTICS: usize = 16;

/// One row of a two-column card list: the items at `left` and, if the list
/// goes on, `left + 1`.
#[derive(Debug, Clone, Copy, PartialEq, Eq, Structural)]
pub struct SelectorRow {
    pub left: usize,
    pub right: Option<usize>,
}

/// Lays out `n` items two to a row, in order.
pub fn selector(n: usize) -> (rows: Vec<SelectorRow>)
    ensures
        rows@.len() == (n as int + 1) / 2,
        forall|i: int| #![trigger rows@[i]] 0 <= i < rows@.len() ==> rows@[i] == (SelectorRow {
            left: (2 * i) as usize,
            right: if 2 * i + 1 < n { Some((2 * i + 1) as usize) } else { None },
        }),
{
    let mut rows: Vec<SelectorRow> = Vec::new();
    let count: usize = n / 2 + n % 2;
    let mut i: usize = 0;
    while i < count
        invariant
            count == (n as int + 1) / 2,
            i <= count,
            rows@.len() == i,
            forall|j: int| #![trigger rows@[j]] 0 <= j < rows@.len() ==> rows@[j] == (SelectorRow {
                left: (2 * j) as usize,
                right: if 2 * j + 1 < n { Some((2 * j + 1) as usize) } else { None },
            }),
        decreases count - i,
    {
        let left = 2 * i;
        let right = if left < n - 1 { Some(left + 1) } else { None };
        rows.push(SelectorRow { left, right });
        i = i + 1;
    }
    rows
}

/// Whether a card list of `n` items shows a scroll bar.
pub fn selector_scroll_bar(n: usize) -> (shown: bool)
    ensures
        shown == (n > SELECTOR_VISIBLE_ITEMS),
{
    n > SELECTOR_VISIBLE_ITEMS
}

/// The label of the diagnostics control.
#[derive(Debug, Clone, Copy, PartialEq, Eq, Structural)]
pub enum DiagnosticsControl {
    Open,
    Exit,
}

/// The controls of the bottom bar.
#[derive(Debug, Clone, Copy, PartialEq, Eq, Structural)]
pub struct BottomBar {
    /// The change-route control; the branding text stands there otherwise.
    pub change_route: bool,
    /// The calibrate control.
    pub calibrate: bool,
    /// The diagnostics control, if diagnostics are offered.
    pub diagnostics: Option<DiagnosticsControl>,
}

/// The bottom bar for a screen and store.
pub open spec fn spec_bottom_bar(screen: Screen, store: SelectionStore) -> BottomBar {
    BottomBar {
        change_route: screen is Confirmed,
        calibrate: store.show_calibration_ui,
        diagnostics: if store.show_diagnostics_ui {
            Some(if screen is Diagnostics { DiagnosticsControl::Exit } else { DiagnosticsControl::Open })
        } else {
            None
        },
    }
}

/// Builds the bottom bar.
pub fn bottom_bar(screen: Screen, store: SelectionStore) -> (b: BottomBar)
    ensures
        b == spec_bottom_bar(screen, store),
{
    let change_route = match screen {
        Screen::Confirmed => true,
        _ => false,
    };
    let diagnostics = if store.show_diagnostics_ui {
        match screen {
            Screen::Diagnostics(_) => Some(DiagnosticsControl::Exit),
            _ => Some(DiagnosticsControl::Open),
        }
    } else {
        None
    };
    BottomBar { change_route, calibrate: store.show_calibration_ui, diagnostics }
}

/// The main area of a screen.
pub enum Content {
    /// The category cards; card `i` is category `i`.
    CategoryList { count: usize },
    /// The route cards of a category; card `i` is the route `routes[i]`.
    RouteList { category: usize, routes: Vec<usize> },
    /// The route awaiting confirmation.
    Confirm { route: usize },
    Confirmed,
    Diagnostics,
}

/// Everything a frame shows.
pub struct ViewModel {
    pub content: Content,
    pub bottom_bar: BottomBar,
    /// The blocking calibration overlay.
    pub calibrating_overlay: bool,
    /// The background that marks a locked-in choice.
    pub confirmed_background: bool,
    /// Changes exactly when the kind of screen changes.
    pub animation_key: u32,
}

/// Copies a list of indices.
fn copy_indices(v: &Vec<usize>) -> (r: Vec<usize>)
    ensures
        r@ == v@,
{
    let mut r: Vec<usize> = Vec::new();
    let mut i: usize = 0;
    while i < v.len()
        invariant
            i <= v@.len(),
            r@ == v@.take(i as int),
        decreases v@.len() - i,
    {
        r.push(v[i]);
        proof {
            assert(v@.take(i + 1) == v@.take(i as int).push(v@[i as int]));
        }
        i = i + 1;
    }
    proof {
        assert(v@.take(v@.len() as int) == v@);
    }
    r
}

/// Builds what the current state shows.
pub fn root_view<F>(reg: &RouteRegistry<F>, nav: &Navigator) -> (v: ViewModel)
    requires
        reg.wf(),
        state_wf(nav.state(), reg.spec_categories().len(), reg.spec_routes().len()),
    ensures
        v.bottom_bar == spec_bottom_bar(nav.state().screen, nav.state().store),
        v.calibrating_overlay == nav.state().store.calibrating,
        v.confirmed_background == (nav.state().screen is Confirmed),
        v.animation_key == spec_animation_key(nav.state().screen),
        match nav.state().screen {
            Screen::SelectCategory => v.content matches Content::CategoryList { count }
                && count == reg.spec_categories().len(),
            Screen::SelectRoute(c) => v.content matches Content::RouteList { category, routes }
                && category == c && routes@ == members(reg.spec_keys(), reg.spec_categories()[c as int]),
            Screen::ConfirmSelection => v.content matches Content::Confirm { route }
                && nav.state().store.selected_route == Some(route),
            Screen::Confirmed => v.content is Confirmed,
            Screen::Diagnostics(_) => v.content is Diagnostics,
        },
{
    let screen = nav.screen();
    let store = nav.store();
    let content = match screen {
        Screen::SelectCategory => Content::CategoryList { count: reg.category_count() },
        Screen::SelectRoute(c) => Content::RouteList { category: c, routes: copy_indices(reg.routes_in(c)) },
        Screen::ConfirmSelection => match store.selected_route {
            Some(g) => Content::Confirm { route: g },
            None => Content::Confirmed,
        },
        Screen::Confirmed => Content::Confirmed,
        Screen::Diagnostics(_) => Content::Diagnostics,
    };
    let confirmed_background = match screen {
        Screen::Confirmed => true,
        _ => false,
    };
    ViewModel {
        content,
        bottom_bar: bottom_bar(screen, store),
        calibrating_overlay: store.calibrating,
        confirmed_background,
        animation_key: screen.animation_key(),
    }
}

/// A cached list of at most `MAX_DIAGNOSTICS` key/value lines.
pub struct DiagnosticsSnapshot {
    entries: Vec<(String, String)>,
}

impl DiagnosticsSnapshot {
    /// The entries, in order.
    pub closed spec fn spec_entries(&self) -> Seq<(String, String)> {
        self.entries@
    }

    /// Takes a fetched list of at most `MAX_DIAGNOSTICS` entries.
    pub fn new(entries: Vec<(String, String)>) -> (s: DiagnosticsSnapshot)
        requires
            entries@.len() <= MAX_DIAGNOSTICS,
        ensures
            s.spec_entries() == entries@,
    {
        DiagnosticsSnapshot { entries }
    }

    /// The number of entries.
    pub fn len(&self) -> (n: usize)
        ensures
            n == self.spec_entries().len(),
    {
        self.entries.len()
    }

    /// The entry at `i`.
    pub fn entry(&self, i: usize) -> (e: &(String, String))
        requires
            i < self.spec_entries().len(),
        ensures
            *e == self.spec_entries()[i as int],
    {
        &self.entries[i]
    }
}

/// Spacing of the diagnostics list.
#[derive(Debug, Clone, Copy, PartialEq, Eq, Structural)]
pub struct DiagnosticsLayout {
    pub padding: u32,
    pub corner_radius: u32,
    pub spacing: u32,
    pub scroll_bar: bool,
}

/// The layout of a diagnostics list of `len` entries, compact or not: the
/// compact one is tighter and scrolls beyond five entries, the other beyond
/// three.
pub fn diagnostics_layout(len: usize, compact: bool) -> (l: DiagnosticsLayout)
    ensures
        l == (if compact {
            DiagnosticsLayout { padding: 4, corner_radius: 8, spacing: 2, scroll_bar: len > 5 }
        } else {
            DiagnosticsLayout { padding: 8, corner_radius: 12, spacing: 4, scroll_bar: len > 3 }
        }),
{
    if compact {
        DiagnosticsLayout { padding: 4, corner_radius: 8, spacing: 2, scroll_bar: len > 5 }
    } else {
        DiagnosticsLayout { padding: 8, corner_radius: 12, spacing: 4, scroll_bar: len > 3 }
    }
}

} // verus!
