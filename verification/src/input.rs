//! What the host's input layer hands to a control: positions, the control's
//! bounds, held modifier keys, classified clicks and events.

use vstd::prelude::*;

verus! {

/// A position on the screen, in the host's position units.
#[derive(Clone, Copy, Debug, PartialEq, Eq, Structural)]
pub struct Point {
    pub x: i32,
    pub y: i32,
}

/// The rectangle that a control occupies, in the host's position units.
#[derive(Clone, Copy, Debug, PartialEq, Eq, Structural)]
pub struct Bounds {
    pub x: i32,
    pub y: i32,
    pub width: u32,
    pub height: u32,
}

impl Bounds {
    /// `p` lies in the rectangle, its four edges included.
    pub open spec fn spec_contains(&self, p: Point) -> bool {
        &&& self.x <= p.x <= self.x + self.width
        &&& self.y <= p.y <= self.y + self.height
    }

    /// Whether `p` lies in the rectangle, its four edges included.
    #[verifier::when_used_as_spec(spec_contains)]
    pub fn contains(&self, p: Point) -> (r: bool)
        ensures
            r == self.spec_contains(p),
    {
        let px: i64 = p.x as i64;
        let py: i64 = p.y as i64;
        let left: i64 = self.x as i64;
        let top: i64 = self.y as i64;
        left <= px && px <= left + self.width as i64 && top <= py && py <= top
            + self.height as i64
    }
}

/// The modifier keys that are held down.
#[derive(Clone, Copy, Debug, PartialEq, Eq, Structural)]
pub struct ModifierSet {
    pub shift: bool,
    pub control: bool,
    pub alt: bool,
    pub logo: bool,
}

impl ModifierSet {
    /// Every key of `wanted` is held in `self`; further keys may be held
    /// too.
    pub open spec fn covers(&self, wanted: ModifierSet) -> bool {
        &&& wanted.shift ==> self.shift
        &&& wanted.control ==> self.control
        &&& wanted.alt ==> self.alt
        &&& wanted.logo ==> self.logo
    }

    /// No key held.
    pub fn none() -> (r: Self)
        ensures
            r == (ModifierSet { shift: false, control: false, alt: false, logo: false }),
    {
        ModifierSet { shift: false, control: false, alt: false, logo: false }
    }

    /// The control key alone.
    pub fn control_only() -> (r: Self)
        ensures
            r == (ModifierSet { shift: false, control: true, alt: false, logo: false }),
    {
        ModifierSet { shift: false, control: true, alt: false, logo: false }
    }

}

/// Asks `iced_native::keyboard::Modifiers::matches` whether `held` matches
/// `wanted`, each set written as a `Modifiers` value of that crate.
///
/// Trusted, not proved: `matches` answers `true` exactly when each of the
/// four keys (shift, control, alt, logo) that `wanted` holds is held in
/// `held` as well; keys that only `held` holds do not count.
#[verifier::external_body]
pub(crate) fn held_matches(held: ModifierSet, wanted: ModifierSet) -> (r: bool)
    ensures
        r == held.covers(wanted),
{
    let held = iced_native::keyboard::Modifiers {
        shift: held.shift,
        control: held.control,
        alt: held.alt,
        logo: held.logo,
    };
    let wanted = iced_native::keyboard::Modifiers {
        shift: wanted.shift,
        control: wanted.control,
        alt: wanted.alt,
        logo: wanted.logo,
    };
    held.matches(wanted)
}

/// A button of the pointing device.
#[derive(Clone, Copy, Debug, PartialEq, Eq, Structural)]
pub enum Button {
    /// The primary button.
    Left,
    Right,
    Middle,
    Other(u8),
}

/// How the host's input layer classified a click against the one before it.
#[derive(Clone, Copy, Debug, PartialEq, Eq, Structural)]
pub enum ClickKind {
    Single,
    Double,
    Triple,
}

impl ClickKind {
    /// The click is a double click or higher.
    pub open spec fn is_multi(&self) -> bool {
        !(*self is Single)
    }
}

/// A click as the host's input layer reports it.
#[derive(Clone, Copy, Debug, PartialEq, Eq, Structural)]
pub struct ClickRecord {
    pub position: Point,
    /// When the click happened, in milliseconds on the host's clock.
    pub time_ms: u64,
    pub kind: ClickKind,
}

/// An input event delivered to a control.
#[derive(Clone, Copy, Debug, PartialEq, Eq, Structural)]
pub enum Event {
    /// The pointer moved; `None` where the host has no pointer position.
    CursorMoved { position: Option<Point> },
    /// A button went down at `click.position`.
    ButtonPressed { button: Button, click: ClickRecord },
    ButtonReleased { button: Button },
    /// A key went down; `modifiers` are the modifier keys held after it.
    KeyPressed { modifiers: ModifierSet },
    /// A key went up; `modifiers` are the modifier keys held after it.
    KeyReleased { modifiers: ModifierSet },
    /// Anything else.
    Other,
}

/// Whether a control consumed an event.
#[derive(Clone, Copy, Debug, PartialEq, Eq, Structural)]
pub enum Status {
    /// The control did nothing with the event; the host may route it on.
    Ignored,
    /// The control handled the event.
    Captured,
}

/// How much room a control asks for along one axis.
#[derive(Clone, Copy, Debug, PartialEq, Eq, Structural)]
pub enum Length {
    Fill,
    FillPortion(u16),
    Shrink,
    Units(u16),
}

} // verus!
