//! The drag gesture: pointer and keyboard events in, normalized values out.
//!
//! A control is either idle or being dragged. While it is dragged, every
//! vertical pointer movement is scaled into steps and taken off a running
//! total, which is free to leave the range; the value shown to the caller
//! is that total clamped into the range. [`react`] is the whole transition
//! function, and [`ModRangeInput::on_event`] computes it.

use vstd::prelude::*;
use crate::input::{
    held_matches, Bounds, Button, ClickKind, ClickRecord, Event, Length, ModifierSet, Point, Status,
};
use crate::normal::{clamp_steps, NormalParam, NormalizedValue, FULL_SCALE};

verus! {

/// The size of a control, in length units, unless another is set.
pub const DEFAULT_SIZE: u16 = 10;

/// Steps per position unit of pointer travel, unless another rate is set:
/// 0.001925 of the range.
pub const DEFAULT_SCALAR: i32 = 1_925_000;

/// The fine-adjustment factor, in steps of `1 / FULL_SCALE`, unless another
/// is set: 0.02.
pub const DEFAULT_MODIFIER_SCALAR: i32 = 20_000_000;

/// The part of a control's configuration that decides how far a drag
/// moves the value.
pub struct DragSettings {
    /// Steps per position unit of pointer travel.
    pub scalar: int,
    /// The factor applied in fine-adjustment mode, in steps of
    /// `1 / FULL_SCALE`.
    pub modifier_scalar: int,
    /// The keys that, while all of them are held, switch on
    /// fine-adjustment mode.
    pub modifier_keys: ModifierSet,
}

/// What a control's [`State`] holds, as mathematical values.
pub struct GestureModel {
    /// A drag is in progress.
    pub dragging: bool,
    /// The pointer's vertical position at the last step of the drag.
    pub drag_start_y: int,
    /// The running total of the drag, in steps; it may lie outside the
    /// range.
    pub accumulated: int,
    /// The value shown to the caller, in steps.
    pub committed: int,
    /// The value that a multiple click restores, in steps.
    pub default: int,
    /// The modifier keys held, as of the latest key event.
    pub modifiers: ModifierSet,
    /// The latest click that the control took.
    pub last_click: Option<ClickRecord>,
}

impl GestureModel {
    /// The committed value is the running total clamped into the range,
    /// the two agree while no drag is in progress, and the default lies in
    /// the range.
    pub open spec fn wf(self) -> bool {
        &&& 0 <= self.default <= FULL_SCALE
        &&& self.committed == clamp_steps(self.accumulated)
        &&& !self.dragging ==> self.accumulated == self.committed
    }
}

/// A product is no larger than the product of the bounds of its factors.
proof fn lemma_product_bound(a: int, b: int, ma: int, mb: int)
    by (nonlinear_arith)
    requires
        -ma <= a <= ma,
        -mb <= b <= mb,
    ensures
        -(ma * mb) <= a * b <= ma * mb,
{
}

/// `a / b` rounded toward zero, for a positive `b`.
pub open spec fn trunc_div(a: int, b: int) -> int {
    if a >= 0 {
        a / b
    } else {
        -((-a) / b)
    }
}

/// `x` where a 64-bit signed integer can hold it, else the nearest value
/// that one can hold.
pub open spec fn saturate(x: int) -> int {
    if x > i64::MAX {
        i64::MAX as int
    } else if x < i64::MIN {
        i64::MIN as int
    } else {
        x
    }
}

/// The steps that a pointer travel of `dy` position units is worth while
/// the keys `held` are down: `dy * scalar`, and in fine-adjustment mode that
/// product times `modifier_scalar / FULL_SCALE`, rounded toward zero.
pub open spec fn drag_delta(cfg: DragSettings, held: ModifierSet, dy: int) -> int {
    let coarse = dy * cfg.scalar;
    if held.covers(cfg.modifier_keys) {
        trunc_div(coarse * cfg.modifier_scalar, FULL_SCALE as int)
    } else {
        coarse
    }
}

/// The state after the pointer of a dragged control moved to height `y`:
/// the movement is taken off the running total, so that moving up (to a
/// smaller `y`) at a positive rate raises it. The running total is held in
/// 64 bits and stops at the limits of that type.
pub open spec fn moved(cfg: DragSettings, s: GestureModel, y: int) -> GestureModel {
    let total = saturate(s.accumulated - drag_delta(cfg, s.modifiers, y - s.drag_start_y));
    GestureModel { accumulated: total, committed: clamp_steps(total), drag_start_y: y, ..s }
}

/// The state after a single click started a drag.
pub open spec fn drag_started(s: GestureModel, click: ClickRecord) -> GestureModel {
    GestureModel {
        dragging: true,
        drag_start_y: click.position.y as int,
        last_click: Some(click),
        ..s
    }
}

/// The state after a multiple click put the value back to its default.
pub open spec fn reset(s: GestureModel, click: ClickRecord) -> GestureModel {
    GestureModel {
        dragging: false,
        accumulated: s.default,
        committed: s.default,
        last_click: Some(click),
        ..s
    }
}

/// The state after the primary button was let go: idle, with the running
/// total brought back to the committed value.
pub open spec fn released(s: GestureModel) -> GestureModel {
    GestureModel { dragging: false, accumulated: s.committed, ..s }
}

/// What a control does with one event.
pub struct Reaction {
    /// The state after the event.
    pub state: GestureModel,
    /// Whether the control consumed the event.
    pub status: Status,
    /// The value, in steps, to hand to the change callback, if any.
    pub emitted: Option<int>,
}

/// The reaction to an event that the control leaves alone.
pub open spec fn ignored(s: GestureModel) -> Reaction {
    Reaction { state: s, status: Status::Ignored, emitted: None }
}

/// The reaction to an event that the control handles without a new value.
pub open spec fn handled(s: GestureModel) -> Reaction {
    Reaction { state: s, status: Status::Captured, emitted: None }
}

/// The transition function of a control with settings `cfg` and bounds
/// `bounds`, in state `s`, on `event`.
pub open spec fn react(cfg: DragSettings, s: GestureModel, event: Event, bounds: Bounds) -> Reaction {
    match event {
        Event::CursorMoved { position } => {
            if s.dragging && position is Some && position->0.y != s.drag_start_y {
                let t = moved(cfg, s, position->0.y as int);
                Reaction { state: t, status: Status::Captured, emitted: Some(t.committed) }
            } else {
                ignored(s)
            }
        },
        Event::ButtonPressed { button, click } => {
            if button is Left && bounds.contains(click.position) {
                if click.kind is Single {
                    handled(drag_started(s, click))
                } else {
                    Reaction {
                        state: reset(s, click),
                        status: Status::Captured,
                        emitted: Some(s.default),
                    }
                }
            } else {
                ignored(s)
            }
        },
        Event::ButtonReleased { button } => {
            if button is Left {
                handled(released(s))
            } else {
                ignored(s)
            }
        },
        Event::KeyPressed { modifiers } => handled(GestureModel { modifiers, ..s }),
        Event::KeyReleased { modifiers } => handled(GestureModel { modifiers, ..s }),
        Event::Other => ignored(s),
    }
}

/// The local state of a control.
#[derive(Clone, Copy, Debug)]
pub struct State {
    normal_param: NormalParam,
    is_dragging: bool,
    prev_drag_y: i32,
    continuous_normal: i64,
    pressed_modifiers: ModifierSet,
    last_click: Option<ClickRecord>,
}

impl View for State {
    type V = GestureModel;

    closed spec fn view(&self) -> GestureModel {
        GestureModel {
            dragging: self.is_dragging,
            drag_start_y: self.prev_drag_y as int,
            accumulated: self.continuous_normal as int,
            committed: self.normal_param.value@,
            default: self.normal_param.default@,
            modifiers: self.pressed_modifiers,
            last_click: self.last_click,
        }
    }
}

impl State {
    /// The state's invariant: that of its model. Every state meets it.
    #[verifier::type_invariant]
    pub open spec fn wf(&self) -> bool {
        self@.wf()
    }

    /// The state of an idle control that shows `normal_param.value`.
    pub fn new(normal_param: NormalParam) -> (r: Self)
        ensures
            r.wf(),
            r@ == (GestureModel {
                dragging: false,
                drag_start_y: 0,
                accumulated: normal_param.value@,
                committed: normal_param.value@,
                default: normal_param.default@,
                modifiers: ModifierSet { shift: false, control: false, alt: false, logo: false },
                last_click: None,
            }),
    {
        proof {
            use_type_invariant(&normal_param.value);
            use_type_invariant(&normal_param.default);
        }
        State {
            normal_param,
            is_dragging: false,
            prev_drag_y: 0,
            continuous_normal: normal_param.value.steps() as i64,
            pressed_modifiers: ModifierSet::none(),
            last_click: None,
        }
    }

    /// Shows `normal` from now on, and brings the running total to it.
    pub fn set(&mut self, normal: NormalizedValue)
        ensures
            final(self).wf(),
            final(self)@ == (GestureModel {
                accumulated: normal@,
                committed: normal@,
                ..old(self)@
            }),
    {
        proof {
            use_type_invariant(&*self);
        }
        *self = State {
            normal_param: NormalParam { value: normal, default: self.normal_param.default },
            continuous_normal: normal.steps() as i64,
            ..*self
        };
    }

    /// Whether a drag is in progress.
    pub fn is_dragging(&self) -> (r: bool)
        ensures
            r == self@.dragging,
    {
        self.is_dragging
    }

    /// The value shown to the caller.
    pub fn value(&self) -> (r: NormalizedValue)
        ensures
            r@ == self@.committed,
            r.wf(),
    {
        proof {
            use_type_invariant(self);
        }
        self.normal_param.value
    }

    /// The committed value together with the default.
    pub fn normal_param(&self) -> (r: NormalParam)
        ensures
            r.value@ == self@.committed,
            r.default@ == self@.default,
            r.wf(),
    {
        proof {
            use_type_invariant(self);
        }
        self.normal_param
    }

    /// The running total of the drag, in steps.
    pub fn continuous_normal(&self) -> (r: i64)
        ensures
            r == self@.accumulated,
    {
        self.continuous_normal
    }

    /// The modifier keys held, as of the latest key event.
    pub fn pressed_modifiers(&self) -> (r: ModifierSet)
        ensures
            r == self@.modifiers,
    {
        self.pressed_modifiers
    }

    /// The latest click that the control took.
    pub fn last_click(&self) -> (r: Option<ClickRecord>)
        ensures
            r == self@.last_click,
    {
        self.last_click
    }
}

/// What [`ModRangeInput::on_event`] hands back.
#[derive(Clone, Copy, Debug)]
pub struct Outcome {
    /// Whether the control consumed the event.
    pub status: Status,
    /// The newly committed value, to be handed to the change callback once.
    pub emitted: Option<NormalizedValue>,
}

impl Outcome {
    /// The emitted value in steps.
    pub open spec fn emitted_steps(&self) -> Option<int> {
        match self.emitted {
            Some(v) => Some(v@),
            None => None,
        }
    }
}

/// A control that is dragged up and down to move a normalized value.
#[derive(Clone, Copy, Debug)]
pub struct ModRangeInput {
    size: Length,
    scalar: i32,
    modifier_scalar: i32,
    modifier_keys: ModifierSet,
}

impl View for ModRangeInput {
    type V = DragSettings;

    closed spec fn view(&self) -> DragSettings {
        DragSettings {
            scalar: self.scalar as int,
            modifier_scalar: self.modifier_scalar as int,
            modifier_keys: self.modifier_keys,
        }
    }
}

impl ModRangeInput {
    /// The diameter that the control asks for.
    pub closed spec fn spec_size(&self) -> Length {
        self.size
    }

    /// A control with the default size, rate, fine-adjustment factor and
    /// modifier key (control).
    pub fn new() -> (r: Self)
        ensures
            r.spec_size() == Length::Units(DEFAULT_SIZE),
            r@ == (DragSettings {
                scalar: DEFAULT_SCALAR as int,
                modifier_scalar: DEFAULT_MODIFIER_SCALAR as int,
                modifier_keys: ModifierSet {
                    shift: false,
                    control: true,
                    alt: false,
                    logo: false,
                },
            }),
    {
        ModRangeInput {
            size: Length::Units(DEFAULT_SIZE),
            scalar: DEFAULT_SCALAR,
            modifier_scalar: DEFAULT_MODIFIER_SCALAR,
            modifier_keys: ModifierSet::control_only(),
        }
    }

    /// The steps that a pointer travel from height `from_y` to height
    /// `to_y` is worth while the keys `held` are down.
    pub fn movement(&self, held: ModifierSet, from_y: i32, to_y: i32) -> (r: i128)
        ensures
            r == drag_delta(self@, held, to_y - from_y),
            -0x4000_0000_0000_0000_0000_0000 <= r <= 0x4000_0000_0000_0000_0000_0000,
    {
        let dy: i128 = to_y as i128 - from_y as i128;
        proof {
            lemma_product_bound(dy as int, self.scalar as int, 0x1_0000_0000, 0x8000_0000);
        }
        let coarse: i128 = dy * (self.scalar as i128);
        if held_matches(held, self.modifier_keys) {
            proof {
                lemma_product_bound(
                    coarse as int,
                    self.modifier_scalar as int,
                    0x8000_0000_0000_0000,
                    0x8000_0000,
                );
            }
            let product: i128 = coarse * (self.modifier_scalar as i128);
            let unit: i128 = FULL_SCALE as i128;
            if product >= 0 {
                product / unit
            } else {
                -((-product) / unit)
            }
        } else {
            coarse
        }
    }

    /// Sets the diameter that the control asks for.
    pub fn size(self, size: Length) -> (r: Self)
        ensures
            r.spec_size() == size,
            r@ == self@,
    {
        ModRangeInput { size, ..self }
    }

    /// Sets how many steps the value moves per position unit of vertical
    /// pointer travel.
    pub fn scalar(self, scalar: i32) -> (r: Self)
        ensures
            r.spec_size() == self.spec_size(),
            r@ == (DragSettings { scalar: scalar as int, ..self@ }),
    {
        ModRangeInput { scalar, ..self }
    }

    /// Sets the keys that, while all of them are held, switch on
    /// fine-adjustment mode.
    pub fn modifier_keys(self, modifier_keys: ModifierSet) -> (r: Self)
        ensures
            r.spec_size() == self.spec_size(),
            r@ == (DragSettings { modifier_keys, ..self@ }),
    {
        ModRangeInput { modifier_keys, ..self }
    }

    /// Sets the factor by which a drag is slowed in fine-adjustment mode,
    /// in steps of `1 / FULL_SCALE`.
    pub fn modifier_scalar(self, scalar: i32) -> (r: Self)
        ensures
            r.spec_size() == self.spec_size(),
            r@ == (DragSettings { modifier_scalar: scalar as int, ..self@ }),
    {
        ModRangeInput { modifier_scalar: scalar, ..self }
    }

    /// The width that the control asks for: its diameter.
    pub fn width(&self) -> (r: Length)
        ensures
            r == self.spec_size(),
    {
        self.size
    }

    /// The height that the control asks for: its diameter.
    pub fn height(&self) -> (r: Length)
        ensures
            r == self.spec_size(),
    {
        self.size
    }

    /// Takes one event for the control that occupies `bounds` and whose
    /// state is `state`: moves the state on as [`react`] says, and reports
    /// whether the event was consumed and which value, if any, the caller
    /// now owes to the change callback.
    pub fn on_event(&self, state: &mut State, event: Event, bounds: Bounds) -> (out: Outcome)
        ensures
            final(state).wf(),
            final(state)@ == react(self@, old(state)@, event, bounds).state,
            out.status == react(self@, old(state)@, event, bounds).status,
            out.emitted_steps() == react(self@, old(state)@, event, bounds).emitted,
            out.emitted is Some ==> out.emitted->0.wf(),
            out.emitted is Some ==> out.emitted->0@ == final(state)@.committed,
    {
        proof {
            use_type_invariant(&*state);
        }
        match event {
            Event::CursorMoved { position: Some(p) } => {
                if state.is_dragging && p.y != state.prev_drag_y {
                    let delta: i128 = self.movement(
                        state.pressed_modifiers,
                        state.prev_drag_y,
                        p.y,
                    );
                    let wide: i128 = state.continuous_normal as i128 - delta;
                    let total: i64 = if wide > i64::MAX as i128 {
                        i64::MAX
                    } else if wide < i64::MIN as i128 {
                        i64::MIN
                    } else {
                        wide as i64
                    };
                    let normal = NormalizedValue::new(total);
                    *state = State {
                        normal_param: NormalParam {
                            value: normal,
                            default: state.normal_param.default,
                        },
                        continuous_normal: total,
                        prev_drag_y: p.y,
                        ..*state
                    };
                    return Outcome { status: Status::Captured, emitted: Some(normal) };
                }
            },
            Event::ButtonPressed { button: Button::Left, click } => {
                if bounds.contains(click.position) {
                    match click.kind {
                        ClickKind::Single => {
                            *state = State {
                                is_dragging: true,
                                prev_drag_y: click.position.y,
                                last_click: Some(click),
                                ..*state
                            };
                            return Outcome { status: Status::Captured, emitted: None };
                        },
                        _ => {
                            let normal = state.normal_param.default;
                            *state = State {
                                normal_param: NormalParam { value: normal, default: normal },
                                is_dragging: false,
                                continuous_normal: normal.steps() as i64,
                                last_click: Some(click),
                                ..*state
                            };
                            return Outcome { status: Status::Captured, emitted: Some(normal) };
                        },
                    }
                }
            },
            Event::ButtonReleased { button: Button::Left } => {
                *state = State {
                    is_dragging: false,
                    continuous_normal: state.normal_param.value.steps() as i64,
                    ..*state
                };
                return Outcome { status: Status::Captured, emitted: None };
            },
            Event::KeyPressed { modifiers } => {
                *state = State { pressed_modifiers: modifiers, ..*state };
                return Outcome { status: Status::Captured, emitted: None };
            },
            Event::KeyReleased { modifiers } => {
                *state = State { pressed_modifiers: modifiers, ..*state };
                return Outcome { status: Status::Captured, emitted: None };
            },
            _ => {},
        }
        Outcome { status: Status::Ignored, emitted: None }
    }
}

/// Every reaction keeps the invariant: after any event the committed value
/// is the running total clamped into the range, and an idle control's
/// running total is its committed value.
pub proof fn lemma_react_keeps_wf(cfg: DragSettings, s: GestureModel, event: Event, bounds: Bounds)
    requires
        s.wf(),
    ensures
        react(cfg, s, event, bounds).state.wf(),
        0 <= react(cfg, s, event, bounds).state.committed <= FULL_SCALE,
        react(cfg, s, event, bounds).state.default == s.default,
{
}

/// The committed value changes only together with a call of the change
/// callback, and what is emitted is the committed value.
pub proof fn lemma_emitted_is_committed(
    cfg: DragSettings,
    s: GestureModel,
    event: Event,
    bounds: Bounds,
)
    ensures
        react(cfg, s, event, bounds).emitted is Some ==> react(cfg, s, event, bounds).emitted
            == Some(react(cfg, s, event, bounds).state.committed),
        react(cfg, s, event, bounds).emitted is None ==> react(cfg, s, event, bounds).state.committed
            == s.committed,
        react(cfg, s, event, bounds).emitted is Some ==> react(cfg, s, event, bounds).status
            == Status::Captured,
{
}

/// Only a handled event changes the state.
pub proof fn lemma_ignored_changes_nothing(
    cfg: DragSettings,
    s: GestureModel,
    event: Event,
    bounds: Bounds,
)
    requires
        react(cfg, s, event, bounds).status == Status::Ignored,
    ensures
        react(cfg, s, event, bounds) == ignored(s),
{
}

/// Letting go of the primary button while the control is idle changes
/// nothing and emits nothing.
pub proof fn lemma_release_while_idle(cfg: DragSettings, s: GestureModel, bounds: Bounds)
    requires
        s.wf(),
        !s.dragging,
    ensures
        react(cfg, s, Event::ButtonReleased { button: Button::Left }, bounds).state == s,
        react(cfg, s, Event::ButtonReleased { button: Button::Left }, bounds).emitted is None,
{
}

/// Letting go of the primary button ends the drag and leaves the running
/// total at the committed value, inside the range, however far the drag
/// had run past a bound.
pub proof fn lemma_release_recovers(cfg: DragSettings, s: GestureModel, bounds: Bounds)
    requires
        s.wf(),
    ensures
        ({
            let t = react(cfg, s, Event::ButtonReleased { button: Button::Left }, bounds).state;
            &&& !t.dragging
            &&& t.committed == s.committed
            &&& t.accumulated == s.committed
            &&& 0 <= t.accumulated <= FULL_SCALE
        }),
{
}

/// A move that is not part of a drag, that has no pointer position, or that
/// leaves the pointer at the height of the last step is ignored.
pub proof fn lemma_idle_move_ignored(
    cfg: DragSettings,
    s: GestureModel,
    position: Option<Point>,
    bounds: Bounds,
)
    requires
        !s.dragging || position is None || position->0.y == s.drag_start_y,
    ensures
        react(cfg, s, Event::CursorMoved { position }, bounds) == ignored(s),
{
}

/// A move during a drag commits the old running total less the movement,
/// clamped into the range: that the running total is held in 64 bits never
/// shows in the committed value.
pub proof fn lemma_move_commits_clamped(cfg: DragSettings, s: GestureModel, y: int)
    ensures
        moved(cfg, s, y).committed == clamp_steps(
            s.accumulated - drag_delta(cfg, s.modifiers, y - s.drag_start_y),
        ),
        moved(cfg, s, y).drag_start_y == y,
        moved(cfg, s, y).dragging == s.dragging,
{
}

/// A drag that starts on an idle control moves the committed value with its
/// first step: the step commits the value from before the drag less the
/// movement, clamped, however far an earlier drag had run past a bound.
pub proof fn lemma_first_step_moves_value(
    cfg: DragSettings,
    s: GestureModel,
    click: ClickRecord,
    to: Point,
    bounds: Bounds,
)
    requires
        s.wf(),
        !s.dragging,
        bounds.contains(click.position),
        click.kind is Single,
        to.y != click.position.y,
    ensures
        ({
            let pressed = react(
                cfg,
                s,
                Event::ButtonPressed { button: Button::Left, click },
                bounds,
            ).state;
            let r = react(cfg, pressed, Event::CursorMoved { position: Some(to) }, bounds);
            let delta = drag_delta(cfg, s.modifiers, to.y - click.position.y);
            &&& pressed.dragging
            &&& r.state.committed == clamp_steps(s.committed - delta)
            &&& r.emitted == Some(clamp_steps(s.committed - delta))
            &&& delta > 0 && s.committed > 0 ==> r.state.committed < s.committed
            &&& delta < 0 && s.committed < FULL_SCALE ==> r.state.committed > s.committed
        }),
{
}

/// With a rate and a fine-adjustment factor that are not negative, moving
/// the pointer up never lowers the committed value and moving it down never
/// raises it.
pub proof fn lemma_up_raises_down_lowers(cfg: DragSettings, s: GestureModel, y: int)
    requires
        s.wf(),
        cfg.scalar >= 0,
        cfg.modifier_scalar >= 0,
    ensures
        y <= s.drag_start_y ==> moved(cfg, s, y).committed >= s.committed,
        y >= s.drag_start_y ==> moved(cfg, s, y).committed <= s.committed,
{
    let dy = y - s.drag_start_y;
    let coarse = dy * cfg.scalar;
    let fine = coarse * cfg.modifier_scalar;
    let delta = drag_delta(cfg, s.modifiers, dy);
    assert(dy <= 0 ==> coarse <= 0) by (nonlinear_arith)
        requires
            coarse == dy * cfg.scalar,
            cfg.scalar >= 0,
    ;
    assert(dy >= 0 ==> coarse >= 0) by (nonlinear_arith)
        requires
            coarse == dy * cfg.scalar,
            cfg.scalar >= 0,
    ;
    assert(coarse <= 0 ==> fine <= 0) by (nonlinear_arith)
        requires
            fine == coarse * cfg.modifier_scalar,
            cfg.modifier_scalar >= 0,
    ;
    assert(coarse >= 0 ==> fine >= 0) by (nonlinear_arith)
        requires
            fine == coarse * cfg.modifier_scalar,
            cfg.modifier_scalar >= 0,
    ;
    assert(dy <= 0 ==> delta <= 0);
    assert(dy >= 0 ==> delta >= 0);
    lemma_move_commits_clamped(cfg, s, y);
    if dy <= 0 {
        crate::normal::lemma_clamp_steps_monotone(s.accumulated, s.accumulated - delta);
    }
    if dy >= 0 {
        crate::normal::lemma_clamp_steps_monotone(s.accumulated - delta, s.accumulated);
    }
}

/// A multiple click of the primary button inside the bounds, in any state,
/// leaves the control idle at its default value and emits that value.
pub proof fn lemma_multi_click_resets(
    cfg: DragSettings,
    s: GestureModel,
    click: ClickRecord,
    bounds: Bounds,
)
    requires
        bounds.contains(click.position),
        click.kind.is_multi(),
    ensures
        ({
            let r = react(cfg, s, Event::ButtonPressed { button: Button::Left, click }, bounds);
            &&& !r.state.dragging
            &&& r.state.committed == s.default
            &&& r.state.accumulated == s.default
            &&& r.emitted == Some(s.default)
            &&& r.status == Status::Captured
        }),
{
}

/// A key event is always handled, records the modifier keys it reports and
/// touches nothing else.
pub proof fn lemma_key_sets_modifiers(
    cfg: DragSettings,
    s: GestureModel,
    modifiers: ModifierSet,
    bounds: Bounds,
)
    ensures
        react(cfg, s, Event::KeyPressed { modifiers }, bounds) == handled(
            GestureModel { modifiers, ..s },
        ),
        react(cfg, s, Event::KeyReleased { modifiers }, bounds) == handled(
            GestureModel { modifiers, ..s },
        ),
{
}

/// In fine-adjustment mode a movement is never longer than the same
/// movement outside it, as long as the factor is at most one.
pub proof fn lemma_fine_is_finer(cfg: DragSettings, held: ModifierSet, dy: int)
    requires
        0 <= cfg.modifier_scalar <= FULL_SCALE,
    ensures
        dy * cfg.scalar >= 0 ==> 0 <= drag_delta(cfg, held, dy) <= dy * cfg.scalar,
        dy * cfg.scalar <= 0 ==> dy * cfg.scalar <= drag_delta(cfg, held, dy) <= 0,
{
    let coarse = dy * cfg.scalar;
    let unit = FULL_SCALE as int;
    if held.covers(cfg.modifier_keys) {
        if coarse >= 0 {
            assert(0 <= coarse * cfg.modifier_scalar <= coarse * unit) by (nonlinear_arith)
                requires
                    coarse >= 0,
                    0 <= cfg.modifier_scalar <= unit,
            ;
            vstd::arithmetic::div_mod::lemma_div_is_ordered(
                coarse * cfg.modifier_scalar,
                coarse * unit,
                unit,
            );
            vstd::arithmetic::div_mod::lemma_div_multiples_vanish(coarse, unit);
            vstd::arithmetic::div_mod::lemma_div_pos_is_pos(coarse * cfg.modifier_scalar, unit);
        } else {
            let pos = -coarse;
            assert(-(coarse * cfg.modifier_scalar) == pos * cfg.modifier_scalar)
                by (nonlinear_arith)
                requires
                    pos == -coarse,
            ;
            assert(0 <= pos * cfg.modifier_scalar <= pos * unit) by (nonlinear_arith)
                requires
                    pos >= 0,
                    0 <= cfg.modifier_scalar <= unit,
            ;
            vstd::arithmetic::div_mod::lemma_div_is_ordered(
                pos * cfg.modifier_scalar,
                pos * unit,
                unit,
            );
            vstd::arithmetic::div_mod::lemma_div_multiples_vanish(pos, unit);
            vstd::arithmetic::div_mod::lemma_div_pos_is_pos(pos * cfg.modifier_scalar, unit);
            if coarse * cfg.modifier_scalar >= 0 {
                assert(pos * cfg.modifier_scalar == 0);
                assert(coarse * cfg.modifier_scalar == 0);
            }
        }
    }
}

} // verus!
