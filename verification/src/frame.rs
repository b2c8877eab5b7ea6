//! The frame renderer's core: on every repaint the whole widget tree is
//! rebuilt from the current state. `build_frame` is that rebuild as a pure
//! function from state to a frame description, and `handle_event` is the
//! synchronous state update for the interactions a frame can report.
use crate::charts::{
    demo_box_elem, gaussian_xs, spec_demo_box_elem, spec_prefix_sum, spec_stacked_heights,
    stacked_bar_xs, stacked_series_heights, stacked_tops, BoxElemMilli,
};
use crate::labels::{grid_column_labels, host_label, spec_digits};
use crate::state::{spec_toggle, TemplateApp};
use vstd::prelude::*;

verus! {

/// Transient UI chrome that does not survive a restart: the visual theme,
/// whether the file menu is open, whether the floating windows are shown,
/// and a pending request to move floating regions back to their default
/// positions.
#[derive(Clone, Copy, Debug, PartialEq, Eq, Structural)]
pub struct UiChrome {
    pub dark_mode: bool,
    pub file_menu_open: bool,
    pub areas_reset_pending: bool,
    pub histogram_open: bool,
    pub stacked_open: bool,
}

impl UiChrome {
    /// The chrome a fresh frame loop starts with: light theme, menu
    /// closed, no pending reset, both chart windows shown.
    pub fn start() -> (r: Self)
        ensures
            r == (UiChrome {
                dark_mode: false,
                file_menu_open: false,
                areas_reset_pending: false,
                histogram_open: true,
                stacked_open: true,
            }),
    {
        UiChrome {
            dark_mode: false,
            file_menu_open: false,
            areas_reset_pending: false,
            histogram_open: true,
            stacked_open: true,
        }
    }
}

/// One interaction a frame can report back to the state.
#[derive(Clone, Copy, Debug)]
pub enum FrameEvent {
    /// The toggle row at this position in the host list was clicked.
    HostClicked(usize),
    /// The light/dark switch in the top bar was clicked.
    ThemeSwitched,
    /// The "File" menu was opened or closed.
    FileMenuToggled,
    /// The "Order" action in the "File" menu was activated.
    OrderClicked,
}

impl TemplateApp {
    /// Applies one reported interaction. A host click flips exactly that
    /// toggle; the theme switch flips the theme; "Order" asks for the
    /// floating regions to be reset and closes the menu. Nothing else
    /// changes: in particular, no event touches the label or the value.
    pub fn handle_event(&mut self, chrome: &mut UiChrome, event: FrameEvent)
        requires
            event matches FrameEvent::HostClicked(i) ==> i < old(self).host_toggles@.len(),
        ensures
            final(self).label == old(self).label,
            final(self).value_milli == old(self).value_milli,
            old(self).wf() ==> final(self).wf(),
            match event {
                FrameEvent::HostClicked(i) => {
                    &&& final(self).host_toggles@ == spec_toggle(old(self).host_toggles@, i as int)
                    &&& *final(chrome) == *old(chrome)
                },
                FrameEvent::ThemeSwitched => {
                    &&& final(self).host_toggles@ == old(self).host_toggles@
                    &&& *final(chrome) == (UiChrome { dark_mode: !old(chrome).dark_mode, ..*old(chrome) })
                },
                FrameEvent::FileMenuToggled => {
                    &&& final(self).host_toggles@ == old(self).host_toggles@
                    &&& *final(chrome) == (UiChrome {
                        file_menu_open: !old(chrome).file_menu_open,
                        ..*old(chrome)
                    })
                },
                FrameEvent::OrderClicked => {
                    &&& final(self).host_toggles@ == old(self).host_toggles@
                    &&& *final(chrome) == (UiChrome {
                        file_menu_open: false,
                        areas_reset_pending: true,
                        ..*old(chrome)
                    })
                },
            },
    {
        match event {
            FrameEvent::HostClicked(i) => {
                self.toggle_host(i);
            },
            FrameEvent::ThemeSwitched => {
                chrome.dark_mode = !chrome.dark_mode;
            },
            FrameEvent::FileMenuToggled => {
                chrome.file_menu_open = !chrome.file_menu_open;
            },
            FrameEvent::OrderClicked => {
                chrome.file_menu_open = false;
                chrome.areas_reset_pending = true;
            },
        }
    }
}

/// One row of the side panel: the text shown and whether the toggle is on.
pub struct HostRow {
    pub label: String,
    pub enabled: bool,
}

/// Everything one frame draws, with every plot coordinate in milli-units
/// and every panel dimension in whole points.
pub struct FrameDescription {
    /// Default width of the left host-list panel (200 points).
    pub side_panel_width: u64,
    /// The host list, one row per toggle, in order.
    pub host_rows: Vec<HostRow>,
    /// Default height of the upper strip holding the box plot (300 points).
    pub box_strip_height: u64,
    /// Height of the box plot widget inside that strip (200 points).
    pub box_plot_height: u64,
    /// The box plot's single sample element.
    pub box_elem: BoxElemMilli,
    /// Default height of the lower strip holding the grid (500 points).
    pub grid_strip_height: u64,
    /// The grid's six fixed column headers.
    pub grid_columns: Vec<String>,
    /// The grid repeats its header row this many times (9 rows).
    pub grid_rows: u64,
    /// Default size of each floating chart window (750 by 550 points).
    pub window_default_width: u64,
    pub window_default_height: u64,
    /// Argument grid of the Gaussian histogram, in milli-units.
    pub histogram_xs: Vec<i64>,
    /// Width of each histogram bar (0.095 units).
    pub histogram_bar_width_milli: i64,
    /// Shared bar positions of the stacked chart, in milli-units.
    pub stacked_xs: Vec<i64>,
    /// Heights of the four stacked series, in milli-units.
    pub stacked_heights: Vec<Vec<i64>>,
    /// Running totals of those series: where each stacked bar's top lands.
    pub stacked_tops: Vec<Vec<i64>>,
    /// Width of each stacked bar (0.7 units).
    pub stacked_bar_width_milli: i64,
}

/// What a correctly rebuilt frame looks like for a given state: the side
/// panel mirrors the host toggles row for row, and the chart fixtures and
/// panel dimensions are the fixed demo values.
pub open spec fn frame_matches(fd: FrameDescription, app: TemplateApp) -> bool {
    &&& fd.side_panel_width == 200
    &&& fd.host_rows@.len() == app.host_toggles@.len()
    &&& forall|i: int|
        0 <= i < fd.host_rows@.len() ==> (#[trigger] fd.host_rows@[i]).label@ == "host"@
            + spec_digits(app.host_toggles@[i].id as nat)
    &&& forall|i: int|
        0 <= i < fd.host_rows@.len() ==> (#[trigger] fd.host_rows@[i]).enabled
            == app.host_toggles@[i].enabled
    &&& fd.box_strip_height == 300
    &&& fd.box_plot_height == 200
    &&& fd.box_elem == spec_demo_box_elem()
    &&& fd.grid_strip_height == 500
    &&& fd.grid_columns@.len() == 6
    &&& forall|i: int|
        0 <= i < 6 ==> (#[trigger] fd.grid_columns@[i])@ == spec_digits((i + 1) as nat)
            + " column"@
    &&& fd.grid_rows == 9
    &&& fd.window_default_width == 750
    &&& fd.window_default_height == 550
    &&& fd.histogram_xs@.len() == 80
    &&& forall|i: int| 0 <= i < 80 ==> #[trigger] fd.histogram_xs@[i] == -3950 + 100 * i
    &&& fd.histogram_bar_width_milli == 95
    &&& fd.stacked_xs@ == seq![500i64, 1500i64, 2500i64, 3500i64, 4500i64]
    &&& fd.stacked_heights.deep_view() == spec_stacked_heights()
    &&& fd.stacked_tops@.len() == 4
    &&& forall|k: int| 0 <= k < 4 ==> (#[trigger] fd.stacked_tops@[k])@.len() == 5
    &&& forall|k: int, j: int|
        0 <= k < 4 && 0 <= j < 5 ==> #[trigger] fd.stacked_tops@[k]@[j] == spec_prefix_sum(
            spec_stacked_heights(),
            k,
            j,
        )
}

/// Builds the side panel's rows from the host toggles.
fn build_host_rows(app: &TemplateApp) -> (r: Vec<HostRow>)
    ensures
        r@.len() == app.host_toggles@.len(),
        forall|i: int|
            0 <= i < r@.len() ==> (#[trigger] r@[i]).label@ == "host"@ + spec_digits(
                app.host_toggles@[i].id as nat,
            ),
        forall|i: int| 0 <= i < r@.len() ==> (#[trigger] r@[i]).enabled
            == app.host_toggles@[i].enabled,
{
    let mut rows: Vec<HostRow> = Vec::new();
    let mut i: usize = 0;
    while i < app.host_toggles.len()
        invariant
            i <= app.host_toggles@.len(),
            rows@.len() == i,
            forall|a: int|
                0 <= a < rows@.len() ==> (#[trigger] rows@[a]).label@ == "host"@ + spec_digits(
                    app.host_toggles@[a].id as nat,
                ),
            forall|a: int| 0 <= a < rows@.len() ==> (#[trigger] rows@[a]).enabled
                == app.host_toggles@[a].enabled,
        decreases app.host_toggles@.len() - i,
    {
        let t = app.host_toggles[i];
        rows.push(HostRow { label: host_label(t.id), enabled: t.enabled });
        i = i + 1;
    }
    rows
}

/// Rebuilds the whole frame from the current state, as the immediate-mode
/// loop does once per repaint.
pub fn build_frame(app: &TemplateApp) -> (r: FrameDescription)
    ensures
        frame_matches(r, *app),
{
    let heights = stacked_series_heights();
    proof {
        assert(heights.deep_view().len() == heights@.len());
        assert(forall|k: int|
            0 <= k < heights@.len() ==> (#[trigger] heights.deep_view()[k]) == heights@[k].deep_view());
        assert(heights@.len() == 4);
        assert(forall|k: int|
            0 <= k < 4 ==> (#[trigger] heights@[k])@ == spec_stacked_heights()[k]);
        assert(forall|k: int| 0 <= k < 4 ==> (#[trigger] heights@[k])@.len() == 5);
        assert(forall|k: int, j: int|
            0 <= k < 4 && 0 <= j < 5 ==> -1000000 <= (#[trigger] heights@[k]@[j]) <= 1000000);
    }
    let tops = stacked_tops(&heights);
    FrameDescription {
        side_panel_width: 200,
        host_rows: build_host_rows(app),
        box_strip_height: 300,
        box_plot_height: 200,
        box_elem: demo_box_elem(),
        grid_strip_height: 500,
        grid_columns: grid_column_labels(),
        grid_rows: 9,
        window_default_width: 750,
        window_default_height: 550,
        histogram_xs: gaussian_xs(),
        histogram_bar_width_milli: 95,
        stacked_xs: stacked_bar_xs(),
        stacked_heights: heights,
        stacked_tops: tops,
        stacked_bar_width_milli: 700,
    }
}

} // verus!
