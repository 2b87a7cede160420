//! Per-frame GUI state and the decisions a GUI pass makes.
//!
//! The GUI layer keeps a tab choice for the bottom panel, three editable
//! transform triples (translate, rotate, scale), a frame-timing
//! accumulator with a derived FPS figure, and the viewport rectangle left
//! over for 3D content by the panels.
//!
//! All continuous quantities are stored in fixed point so that the logic
//! is exact: transform components and GUI points in thousandths
//! (milli-units), time in microseconds. The toolkit boundary converts to
//! and from its own floating-point values.

use vstd::prelude::*;

use crate::viewport::Viewport;

verus! {

/// Which bottom-panel tab is selected. Selecting one deselects the
/// other: the choice is a single value, so exactly one tab is ever
/// active.
#[derive(Clone, Copy, PartialEq, Eq, Structural, Debug)]
pub enum Choice {
    /// The console tab.
    First,
    /// The content-browser tab.
    Second,
}

/// One of the three editable transform triples.
#[derive(Clone, Copy, PartialEq, Eq, Structural, Debug)]
pub enum TransformField {
    Translate,
    Rotate,
    Scale,
}

/// One slot of a transform triple. Storage order is (x, y, z); the
/// widgets display z, y, x.
#[derive(Clone, Copy, PartialEq, Eq, Structural, Debug)]
pub enum Axis {
    X,
    Y,
    Z,
}

/// Thousandths per whole unit of the fixed-point encoding.
pub const MILLI: i64 = 1000;

/// The FPS sampling window: 0.1 seconds, in microseconds.
pub const FPS_WINDOW_US: u64 = 100_000;

/// Microseconds per second.
pub const MICROS_PER_SECOND: u64 = 1_000_000;

/// Drag sensitivity of the translate fields: 0.05 units per drag step,
/// in milli-units.
pub const TRANSLATE_SPEED_MILLI: i64 = 50;

/// Drag sensitivity of the rotate fields: 1.0 degree per drag step, in
/// milli-degrees.
pub const ROTATE_SPEED_MILLI: i64 = 1000;

/// Drag sensitivity of the scale fields: 0.01 units per drag step, in
/// milli-units.
pub const SCALE_SPEED_MILLI: i64 = 10;

/// The GUI state carried across frames.
///
/// Transform components are in milli-units (milli-degrees for `rotate`);
/// the timing accumulator is in microseconds. `viewport` stays `None`
/// until the first GUI pass has run; callers must not render 3D content
/// before then.
#[derive(Clone, Copy)]
pub struct GuiExample {
    pub choice: Choice,
    pub translate: (i64, i64, i64),
    pub rotate: (i64, i64, i64),
    pub scale: (i64, i64, i64),
    pub viewport: Option<Viewport>,
    pub frame_count: u32,
    pub accumulator_us: u64,
    pub fps: u32,
}

/// Drag sensitivity of a transform field, in milli-units per drag step.
pub open spec fn spec_drag_speed_milli(field: TransformField) -> int {
    match field {
        TransformField::Translate => TRANSLATE_SPEED_MILLI as int,
        TransformField::Rotate => ROTATE_SPEED_MILLI as int,
        TransformField::Scale => SCALE_SPEED_MILLI as int,
    }
}

/// Executable counterpart of `spec_drag_speed_milli`.
pub fn drag_speed_milli(field: TransformField) -> (s: i64)
    ensures
        s as int == spec_drag_speed_milli(field),
{
    match field {
        TransformField::Translate => TRANSLATE_SPEED_MILLI,
        TransformField::Rotate => ROTATE_SPEED_MILLI,
        TransformField::Scale => SCALE_SPEED_MILLI,
    }
}

/// One drag edit reported by the toolkit for one transform slot:
/// `steps` drag steps applied to one axis of one triple.
#[derive(Clone, Copy, PartialEq, Eq, Structural, Debug)]
pub struct DragEvent {
    pub field: TransformField,
    pub axis: Axis,
    pub steps: i64,
}

/// The change one drag edit makes to its slot, in milli-units: the step
/// count times the field's drag sensitivity.
pub open spec fn spec_drag_delta(d: DragEvent) -> int {
    d.steps * spec_drag_speed_milli(d.field)
}

/// A triple with one axis replaced.
pub open spec fn spec_set_axis(t: (i64, i64, i64), axis: Axis, v: i64) -> (i64, i64, i64) {
    match axis {
        Axis::X => (v, t.1, t.2),
        Axis::Y => (t.0, v, t.2),
        Axis::Z => (t.0, t.1, v),
    }
}

impl GuiExample {
    /// The value stored in one slot of one transform triple.
    pub open spec fn spec_slot(self, field: TransformField, axis: Axis) -> i64 {
        let triple = match field {
            TransformField::Translate => self.translate,
            TransformField::Rotate => self.rotate,
            TransformField::Scale => self.scale,
        };
        match axis {
            Axis::X => triple.0,
            Axis::Y => triple.1,
            Axis::Z => triple.2,
        }
    }

    /// The first (console) tab is the selected one.
    pub open spec fn first_selected(self) -> bool {
        self.choice == Choice::First
    }

    /// The second (content-browser) tab is the selected one.
    pub open spec fn second_selected(self) -> bool {
        self.choice == Choice::Second
    }

    /// Fresh GUI state: console tab selected, translate (0, 0, -5),
    /// zero rotation, unit scale, no viewport yet, timing at zero.
    pub fn new() -> (g: GuiExample)
        ensures
            g.choice == Choice::First,
            g.translate == (0i64, 0i64, -5000i64),
            g.rotate == (0i64, 0i64, 0i64),
            g.scale == (1000i64, 1000i64, 1000i64),
            g.viewport is None,
            g.frame_count == 0,
            g.accumulator_us == 0,
            g.fps == 0,
    {
        GuiExample {
            choice: Choice::First,
            translate: (0, 0, -5 * MILLI),
            rotate: (0, 0, 0),
            scale: (MILLI, MILLI, MILLI),
            viewport: None,
            frame_count: 0,
            accumulator_us: 0,
            fps: 0,
        }
    }

    /// Select a bottom-panel tab. Since the selection is stored as a
    /// single choice, picking one tab deselects the other.
    pub fn select_tab(&mut self, tab: Choice)
        ensures
            *final(self) == (GuiExample { choice: tab, ..*old(self) }),
    {
        self.choice = tab;
    }

    /// Apply one drag edit of `steps` drag steps to one slot of one
    /// transform triple. Only that slot changes; every other slot and
    /// every other piece of GUI state is untouched.
    pub fn drag_field(&mut self, field: TransformField, axis: Axis, steps: i64)
        requires
            i64::MIN <= steps * spec_drag_speed_milli(field) <= i64::MAX,
            i64::MIN <= old(self).spec_slot(field, axis) + steps * spec_drag_speed_milli(field)
                <= i64::MAX,
        ensures
            final(self).spec_slot(field, axis) == old(self).spec_slot(field, axis) + steps
                * spec_drag_speed_milli(field),
            forall|f2: TransformField, a2: Axis|
                !(f2 == field && a2 == axis) ==> #[trigger] final(self).spec_slot(f2, a2) == old(
                    self,
                ).spec_slot(f2, a2),
            final(self).choice == old(self).choice,
            final(self).viewport == old(self).viewport,
            final(self).frame_count == old(self).frame_count,
            final(self).accumulator_us == old(self).accumulator_us,
            final(self).fps == old(self).fps,
            *final(self) == spec_apply_drag(*old(self), (DragEvent { field, axis, steps })),
    {
        let delta: i64 = steps * drag_speed_milli(field);
        match field {
            TransformField::Translate => {
                match axis {
                    Axis::X => self.translate.0 = self.translate.0 + delta,
                    Axis::Y => self.translate.1 = self.translate.1 + delta,
                    Axis::Z => self.translate.2 = self.translate.2 + delta,
                }
            },
            TransformField::Rotate => {
                match axis {
                    Axis::X => self.rotate.0 = self.rotate.0 + delta,
                    Axis::Y => self.rotate.1 = self.rotate.1 + delta,
                    Axis::Z => self.rotate.2 = self.rotate.2 + delta,
                }
            },
            TransformField::Scale => {
                match axis {
                    Axis::X => self.scale.0 = self.scale.0 + delta,
                    Axis::Y => self.scale.1 = self.scale.1 + delta,
                    Axis::Z => self.scale.2 = self.scale.2 + delta,
                }
            },
        }
    }

    /// Read one slot of one transform triple.
    pub fn slot(&self, field: TransformField, axis: Axis) -> (v: i64)
        ensures
            v == self.spec_slot(field, axis),
    {
        let triple = match field {
            TransformField::Translate => self.translate,
            TransformField::Rotate => self.rotate,
            TransformField::Scale => self.scale,
        };
        match axis {
            Axis::X => triple.0,
            Axis::Y => triple.1,
            Axis::Z => triple.2,
        }
    }

    /// Current translate triple, in milli-units.
    pub fn get_translate(&self) -> (t: (i64, i64, i64))
        ensures
            t == self.translate,
    {
        self.translate
    }

    /// Current rotate triple, in milli-degrees.
    pub fn get_rotate(&self) -> (t: (i64, i64, i64))
        ensures
            t == self.rotate,
    {
        self.rotate
    }

    /// Current scale triple, in milli-units.
    pub fn get_scale(&self) -> (t: (i64, i64, i64))
        ensures
            t == self.scale,
    {
        self.scale
    }
}

/// An unbounded count clamped into the `u32` range.
pub open spec fn sat_u32(n: int) -> u32 {
    if n > u32::MAX {
        u32::MAX
    } else if n < 0 {
        0u32
    } else {
        n as u32
    }
}

/// The FPS estimate for `frames` frames over `elapsed_us` microseconds:
/// the nearest integer to `frames / elapsed_seconds`, halves rounding up.
pub open spec fn spec_fps_estimate(frames: int, elapsed_us: int) -> int
    recommends
        elapsed_us > 0,
{
    (frames * (MICROS_PER_SECOND as int) + elapsed_us / 2) / elapsed_us
}

/// The frame-timing step: accumulate one frame's delta time; once the
/// accumulator reaches the 0.1-second sampling window, publish the FPS
/// estimate for the window and reset both counters.
pub open spec fn spec_tick(g: GuiExample, delta_us: u64) -> GuiExample
    recommends
        g.accumulator_us + delta_us <= u64::MAX,
        g.frame_count < u32::MAX,
{
    let acc: int = g.accumulator_us + delta_us;
    let frames: int = g.frame_count + 1;
    if acc >= FPS_WINDOW_US {
        GuiExample {
            fps: sat_u32(spec_fps_estimate(frames, acc)),
            accumulator_us: 0u64,
            frame_count: 0u32,
            ..g
        }
    } else {
        GuiExample { accumulator_us: acc as u64, frame_count: frames as u32, ..g }
    }
}

impl GuiExample {
    /// Account one frame of `delta_us` microseconds to the timing state:
    /// below the sampling window the delta and the frame are accumulated;
    /// at or above it the FPS figure is recomputed for the whole window
    /// and the accumulator and frame count reset to zero.
    pub fn tick(&mut self, delta_us: u64)
        requires
            old(self).accumulator_us + delta_us <= u64::MAX,
            old(self).frame_count < u32::MAX,
        ensures
            *final(self) == spec_tick(*old(self), delta_us),
    {
        self.accumulator_us = self.accumulator_us + delta_us;
        self.frame_count = self.frame_count + 1;
        if self.accumulator_us >= FPS_WINDOW_US {
            let frames_us: u64 = (self.frame_count as u64) * MICROS_PER_SECOND;
            let q: u64 = (frames_us + self.accumulator_us / 2) / self.accumulator_us;
            self.fps = if q > u32::MAX as u64 {
                u32::MAX
            } else {
                q as u32
            };
            self.accumulator_us = 0;
            self.frame_count = 0;
        }
    }
}

/// The total of a delta-time sequence, in microseconds.
pub open spec fn sum_us(ds: Seq<u64>) -> int
    decreases ds.len(),
{
    if ds.len() == 0 {
        0
    } else {
        ds[0] + sum_us(ds.drop_first())
    }
}

/// The GUI timing state after feeding a whole delta-time sequence, one
/// frame per entry.
pub open spec fn spec_run_ticks(g: GuiExample, ds: Seq<u64>) -> GuiExample
    decreases ds.len(),
{
    if ds.len() == 0 {
        g
    } else {
        spec_run_ticks(spec_tick(g, ds[0]), ds.drop_first())
    }
}

/// A delta-time total is never negative.
proof fn lemma_sum_nonneg(ds: Seq<u64>)
    ensures
        sum_us(ds) >= 0,
    decreases ds.len(),
{
    if ds.len() != 0 {
        lemma_sum_nonneg(ds.drop_first());
    }
}

proof fn lemma_sum_take_drop(ds: Seq<u64>, k: int)
    requires
        1 <= k <= ds.len(),
    ensures
        sum_us(ds.take(k)) == ds[0] + sum_us(ds.drop_first().take(k - 1)),
{
    assert(ds.take(k).drop_first() =~= ds.drop_first().take(k - 1));
    assert(ds.take(k)[0] == ds[0]);
}

proof fn lemma_fps_window_general(g: GuiExample, ds: Seq<u64>)
    requires
        ds.len() >= 1,
        g.frame_count + ds.len() <= u32::MAX,
        g.accumulator_us + sum_us(ds) <= u64::MAX,
        g.accumulator_us + sum_us(ds.take(ds.len() - 1)) < FPS_WINDOW_US,
        g.accumulator_us + sum_us(ds) >= FPS_WINDOW_US,
    ensures
        spec_run_ticks(g, ds) == (GuiExample {
            fps: sat_u32(
                spec_fps_estimate(g.frame_count + ds.len(), g.accumulator_us + sum_us(ds)),
            ),
            accumulator_us: 0u64,
            frame_count: 0u32,
            ..g
        }),
    decreases ds.len(),
{
    let g1 = spec_tick(g, ds[0]);
    let rest = ds.drop_first();
    if ds.len() == 1 {
        assert(rest.len() == 0);
        assert(sum_us(ds) == ds[0]);
    } else {
        lemma_sum_take_drop(ds, ds.len() - 1);
        lemma_sum_nonneg(rest.take(ds.len() - 2));
        lemma_sum_nonneg(rest);
        assert(g.accumulator_us + ds[0] < FPS_WINDOW_US);
        lemma_fps_window_general(g1, rest);
    }
}

/// FPS recomputation over one sampling window: starting with a zeroed
/// accumulator and frame count, feed a delta-time sequence whose total
/// first reaches the 0.1-second window at its last entry. The reported
/// FPS is then the nearest integer to `frames / elapsed_seconds` for the
/// whole window, and the accumulator and frame count are reset to zero.
pub proof fn lemma_fps_window(g: GuiExample, ds: Seq<u64>)
    requires
        g.accumulator_us == 0,
        g.frame_count == 0,
        ds.len() >= 1,
        ds.len() <= u32::MAX,
        sum_us(ds) <= u64::MAX,
        sum_us(ds.take(ds.len() - 1)) < FPS_WINDOW_US,
        sum_us(ds) >= FPS_WINDOW_US,
    ensures
        spec_run_ticks(g, ds).fps == sat_u32(spec_fps_estimate(ds.len() as int, sum_us(ds))),
        spec_run_ticks(g, ds).accumulator_us == 0,
        spec_run_ticks(g, ds).frame_count == 0,
{
    lemma_fps_window_general(g, ds);
}

/// An unbounded pixel count clamped into the `i32` range.
pub open spec fn sat_i32(n: int) -> i32 {
    if n > i32::MAX {
        i32::MAX
    } else if n < i32::MIN {
        i32::MIN
    } else {
        n as i32
    }
}

/// A length in milli-points scaled by a pixels-per-point factor in
/// milli-units gives physical pixels, truncated to whole pixels.
pub open spec fn spec_points_to_pixels(mpt: int, ppp_milli: int) -> int
    recommends
        mpt >= 0,
        ppp_milli >= 0,
{
    (mpt * ppp_milli) / (MILLI as int * MILLI as int)
}

/// Convert a non-negative coordinate or extent from milli-points to
/// physical pixels using the display's pixels-per-point factor (in
/// milli-units), truncating to whole pixels and clamping into `i32`.
pub fn points_to_pixels(mpt: i64, ppp_milli: i64) -> (px: i32)
    requires
        0 <= mpt,
        0 <= ppp_milli,
        mpt * ppp_milli <= i64::MAX,
    ensures
        px == sat_i32(spec_points_to_pixels(mpt as int, ppp_milli as int)),
{
    proof {
        assert(0 <= mpt * ppp_milli) by (nonlinear_arith)
            requires
                0 <= mpt,
                0 <= ppp_milli,
        ;
    }
    let product: i64 = mpt * ppp_milli;
    let q: i64 = product / (MILLI * MILLI);
    if q > i32::MAX as i64 {
        i32::MAX
    } else {
        q as i32
    }
}

/// The central-content rectangle a GUI pass leaves over for 3D content,
/// in UI points scaled by a thousand (milli-points), with a top-left
/// origin.
#[derive(Clone, Copy, PartialEq, Eq, Structural, Debug)]
pub struct CentralRect {
    pub min_x_mpt: i64,
    pub min_y_mpt: i64,
    pub max_x_mpt: i64,
    pub max_y_mpt: i64,
}

impl CentralRect {
    /// Horizontal extent in milli-points, clamped at zero when the
    /// panels collapse the central region past its minimum edge.
    pub open spec fn spec_width_mpt(self) -> int {
        if self.max_x_mpt >= self.min_x_mpt {
            self.max_x_mpt - self.min_x_mpt
        } else {
            0
        }
    }

    /// Vertical extent in milli-points, clamped at zero.
    pub open spec fn spec_height_mpt(self) -> int {
        if self.max_y_mpt >= self.min_y_mpt {
            self.max_y_mpt - self.min_y_mpt
        } else {
            0
        }
    }
}

/// The viewport a central rectangle yields: each coordinate converted
/// from milli-points to physical pixels.
pub open spec fn spec_viewport_from_rect(rect: CentralRect, ppp_milli: int) -> Viewport {
    Viewport {
        x: sat_i32(spec_points_to_pixels(rect.min_x_mpt as int, ppp_milli)),
        y: sat_i32(spec_points_to_pixels(rect.min_y_mpt as int, ppp_milli)),
        width: sat_i32(spec_points_to_pixels(rect.spec_width_mpt(), ppp_milli)),
        height: sat_i32(spec_points_to_pixels(rect.spec_height_mpt(), ppp_milli)),
    }
}

/// The machine limits under which a central rectangle can be converted
/// to pixels: non-negative position and scale, and products that fit.
pub open spec fn rect_convertible(rect: CentralRect, ppp_milli: int) -> bool {
    &&& 0 <= rect.min_x_mpt
    &&& 0 <= rect.min_y_mpt
    &&& 0 <= ppp_milli
    &&& rect.min_x_mpt * ppp_milli <= i64::MAX
    &&& rect.min_y_mpt * ppp_milli <= i64::MAX
    &&& rect.spec_width_mpt() * ppp_milli <= i64::MAX
    &&& rect.spec_height_mpt() * ppp_milli <= i64::MAX
}

impl GuiExample {
    /// Derive the viewport for the next render from the central-content
    /// rectangle of a GUI pass: position and extent are converted from
    /// UI points to physical pixels with the display's pixels-per-point
    /// factor, and the result is stored for `get_viewport`.
    pub fn set_viewport_from_rect(&mut self, rect: CentralRect, ppp_milli: i64)
        requires
            rect_convertible(rect, ppp_milli as int),
        ensures
            *final(self) == (GuiExample {
                viewport: Some(spec_viewport_from_rect(rect, ppp_milli as int)),
                ..*old(self)
            }),
    {
        let width_mpt: i64 = if rect.max_x_mpt >= rect.min_x_mpt {
            rect.max_x_mpt - rect.min_x_mpt
        } else {
            0
        };
        let height_mpt: i64 = if rect.max_y_mpt >= rect.min_y_mpt {
            rect.max_y_mpt - rect.min_y_mpt
        } else {
            0
        };
        self.viewport = Some(
            Viewport::new(
                points_to_pixels(rect.min_x_mpt, ppp_milli),
                points_to_pixels(rect.min_y_mpt, ppp_milli),
                points_to_pixels(width_mpt, ppp_milli),
                points_to_pixels(height_mpt, ppp_milli),
            ),
        );
    }

    /// The current viewport converted to OpenGL's bottom-left origin for
    /// a window of pixel height `window_height`, or `None` when no GUI
    /// pass has produced a viewport yet (callers must not render 3D
    /// content in that case).
    pub fn get_viewport(&self, window_height: i32) -> (r: Option<Viewport>)
        requires
            self.viewport matches Some(v) ==> i32::MIN <= window_height - v.y - v.height
                <= i32::MAX,
        ensures
            r is Some <==> self.viewport is Some,
            self.viewport matches Some(v) ==> r matches Some(f) && f@ == crate::viewport::flip_rect(
                v@,
                window_height as int,
            ),
    {
        match &self.viewport {
            Some(v) => Some(v.flipped(window_height)),
            None => None,
        }
    }
}

/// In every GUI state exactly one bottom-panel tab is active: the first
/// tab is selected exactly when the second one is not.
pub proof fn lemma_tabs_mutually_exclusive(g: GuiExample)
    ensures
        g.first_selected() <==> !g.second_selected(),
{
}

/// A triple in display order: the widgets show z, y, x while storage
/// keeps x, y, z. The storage order is the single source of truth;
/// this mapping is applied only at the display boundary.
pub open spec fn spec_display_order(t: (i64, i64, i64)) -> (i64, i64, i64) {
    (t.2, t.1, t.0)
}

/// Executable counterpart of `spec_display_order`.
pub fn display_order(t: (i64, i64, i64)) -> (r: (i64, i64, i64))
    ensures
        r == spec_display_order(t),
{
    (t.2, t.1, t.0)
}

/// The effect of one drag edit: the slot it names moves by its delta,
/// everything else is kept.
pub open spec fn spec_apply_drag(g: GuiExample, d: DragEvent) -> GuiExample
    recommends
        i64::MIN <= g.spec_slot(d.field, d.axis) + spec_drag_delta(d) <= i64::MAX,
{
    let v = (g.spec_slot(d.field, d.axis) + spec_drag_delta(d)) as i64;
    match d.field {
        TransformField::Translate => GuiExample {
            translate: spec_set_axis(g.translate, d.axis, v),
            ..g
        },
        TransformField::Rotate => GuiExample { rotate: spec_set_axis(g.rotate, d.axis, v), ..g },
        TransformField::Scale => GuiExample { scale: spec_set_axis(g.scale, d.axis, v), ..g },
    }
}

/// The effect of a sequence of drag edits, applied in order.
pub open spec fn spec_apply_drags(g: GuiExample, ds: Seq<DragEvent>) -> GuiExample
    decreases ds.len(),
{
    if ds.len() == 0 {
        g
    } else {
        spec_apply_drags(spec_apply_drag(g, ds[0]), ds.drop_first())
    }
}

/// The effect of a tab click, if the frame had one.
pub open spec fn spec_select(g: GuiExample, tab_click: Option<Choice>) -> GuiExample {
    match tab_click {
        Some(tab) => GuiExample { choice: tab, ..g },
        None => g,
    }
}

/// No two drag edits of one frame touch the same slot: the toolkit shows
/// each drag widget once per frame, so a frame reports at most one edit
/// per slot.
pub open spec fn distinct_slots(ds: Seq<DragEvent>) -> bool {
    forall|i: int, j: int|
        #![trigger ds[i], ds[j]]
        0 <= i < j < ds.len() ==> !(ds[i].field == ds[j].field && ds[i].axis == ds[j].axis)
}

/// One drag edit stays within the machine limits when applied to `g`.
pub open spec fn drag_ok(g: GuiExample, d: DragEvent) -> bool {
    &&& i64::MIN <= spec_drag_delta(d) <= i64::MAX
    &&& i64::MIN <= g.spec_slot(d.field, d.axis) + spec_drag_delta(d) <= i64::MAX
}

/// Every drag edit of a frame stays within the machine limits relative
/// to the state the frame starts from (enough under `distinct_slots`,
/// since each slot is edited at most once).
pub open spec fn drags_in_bounds(g: GuiExample, ds: Seq<DragEvent>) -> bool {
    forall|i: int| 0 <= i < ds.len() ==> drag_ok(g, #[trigger] ds[i])
}

/// Everything one GUI pass decides, gathered at the toolkit boundary:
/// an optional bottom-panel tab click, the drag edits of the transform
/// widgets, the central-content rectangle left over by the panels, and
/// the display's pixels-per-point factor in milli-units.
pub struct FrameInput {
    pub tab_click: Option<Choice>,
    pub drags: Vec<DragEvent>,
    pub central_rect: CentralRect,
    pub ppp_milli: i64,
}

/// The whole effect of one GUI pass on the GUI state: account the
/// frame's delta time, apply the tab click, apply the drag edits, then
/// derive the viewport from the central rectangle.
pub open spec fn spec_update(
    g: GuiExample,
    delta_us: u64,
    tab_click: Option<Choice>,
    drags: Seq<DragEvent>,
    rect: CentralRect,
    ppp_milli: int,
) -> GuiExample {
    let g3 = spec_apply_drags(spec_select(spec_tick(g, delta_us), tab_click), drags);
    GuiExample { viewport: Some(spec_viewport_from_rect(rect, ppp_milli)), ..g3 }
}

impl GuiExample {
    /// Run the state effects of one GUI pass: frame timing first, then
    /// the bottom-panel tab click, then the transform drag edits, and
    /// finally the viewport derived from the central-content rectangle.
    /// The result is exactly `spec_update` of the old state.
    pub fn update(&mut self, delta_us: u64, input: &FrameInput)
        requires
            old(self).accumulator_us + delta_us <= u64::MAX,
            old(self).frame_count < u32::MAX,
            distinct_slots(input.drags@),
            drags_in_bounds(*old(self), input.drags@),
            rect_convertible(input.central_rect, input.ppp_milli as int),
        ensures
            *final(self) == spec_update(
                *old(self),
                delta_us,
                input.tab_click,
                input.drags@,
                input.central_rect,
                input.ppp_milli as int,
            ),
    {
        self.tick(delta_us);
        if let Some(tab) = input.tab_click {
            self.select_tab(tab);
        }
        let mut g: GuiExample = *self;
        let ghost g2: GuiExample = g;
        let ghost ds: Seq<DragEvent> = input.drags@;
        proof {
            assert(ds.skip(0) =~= ds);
        }
        let mut i: usize = 0;
        while i < input.drags.len()
            invariant
                i as int <= ds.len(),
                ds == input.drags@,
                distinct_slots(ds),
                drags_in_bounds(g2, ds),
                spec_apply_drags(g, ds.skip(i as int)) == spec_apply_drags(g2, ds),
                forall|j: int|
                    #![trigger ds[j]]
                    i as int <= j < ds.len() ==> g.spec_slot(ds[j].field, ds[j].axis)
                        == g2.spec_slot(ds[j].field, ds[j].axis),
                g.choice == g2.choice,
                g.viewport == g2.viewport,
                g.frame_count == g2.frame_count,
                g.accumulator_us == g2.accumulator_us,
                g.fps == g2.fps,
            decreases ds.len() - i,
        {
            let d = input.drags[i];
            proof {
                assert(drag_ok(g2, ds[i as int]));
                assert(ds.skip(i as int)[0] == ds[i as int]);
                assert(ds.skip(i as int).drop_first() =~= ds.skip(i as int + 1));
            }
            g.drag_field(d.field, d.axis, d.steps);
            i = i + 1;
        }
        proof {
            assert(ds.skip(ds.len() as int) =~= Seq::<DragEvent>::empty());
        }
        *self = g;
        self.set_viewport_from_rect(input.central_rect, input.ppp_milli);
    }
}

} // verus!
