//! How a slide looks: the axis, the distance and the displacement of the
//! drawn page for an eased animation value.
//!
//! Eased values and displacements are fixed-point numbers with 16 fractional
//! bits: `EASED_ONE` stands for `1.0`.
use vstd::prelude::*;

use crate::progress::Progress;

verus! {

/// The fixed-point unit: an eased value of `EASED_ONE` is the end of the slide.
pub const EASED_ONE: i64 = 65536;

/// Half of `EASED_ONE`: the point where the drawn page switches.
pub const EASED_HALF: i64 = 32768;

/// How far, in whole units, a page moves out before the next one moves in.
pub const DEFAULT_DISTANCE: u16 = 16;

/// The axis along which pages move.
#[derive(Clone, Copy, Debug, PartialEq, Eq, Hash, Structural)]
pub enum TransitionType {
    HorizontalMove,
    VerticalMove,
}

impl Default for TransitionType {
    /// Pages move horizontally unless asked otherwise.
    fn default() -> (r: Self)
        ensures
            r == TransitionType::HorizontalMove,
    {
        TransitionType::HorizontalMove
    }
}

/// A translation of the drawn page, in fixed-point units of `1 / EASED_ONE`.
#[derive(Clone, Copy, Debug, PartialEq, Eq, Hash, Structural)]
pub struct Translation {
    pub dx: i64,
    pub dy: i64,
}

impl TransitionType {
    /// The translation that moves a page by `amount` along this axis.
    pub open spec fn translation_spec(self, amount: int) -> Translation {
        match self {
            TransitionType::HorizontalMove => Translation { dx: amount as i64, dy: 0 },
            TransitionType::VerticalMove => Translation { dx: 0, dy: amount as i64 },
        }
    }

    pub fn generate_tstransform(&self, amount: i64) -> (r: Translation)
        ensures
            r == self.translation_spec(amount as int),
    {
        match self {
            TransitionType::HorizontalMove => Translation { dx: amount, dy: 0 },
            TransitionType::VerticalMove => Translation { dx: 0, dy: amount },
        }
    }
}


/// Where the page stands for the eased value `eased`: the signed
/// displacement, in units of `1 / EASED_ONE`. Up to the half, the first page
/// moves out by up to `distance`; after it, the second page moves in from
/// `distance` back to rest. `invert` flips the sign.
pub open spec fn slide_offset_spec(eased: int, invert: bool, distance: int) -> int {
    let magnitude = if eased <= EASED_HALF {
        -2 * distance * eased
    } else {
        distance * (2 * EASED_ONE - 2 * eased)
    };
    if invert {
        magnitude
    } else {
        -magnitude
    }
}

/// Whether the second page is the one drawn for the eased value `eased`.
pub open spec fn shows_second_page(eased: int) -> bool {
    eased > EASED_HALF
}

/// The displacement of the drawn page and whether it is the second page.
pub fn slide_offset(eased: i32, invert: bool, distance: u16) -> (r: (i64, bool))
    ensures
        r.0 == slide_offset_spec(eased as int, invert, distance as int),
        r.1 == shows_second_page(eased as int),
{
    let d = distance as i64;
    let e = eased as i64;
    let second = e > EASED_HALF;
    assert(-65536 * 2147483648 <= d * e <= 65536 * 2147483648) by (nonlinear_arith)
        requires
            0 <= d <= 65535,
            -2147483648 <= e <= 2147483647,
    ;
    let magnitude = if !second {
        -2 * (d * e)
    } else {
        let rest = 2 * EASED_ONE - 2 * e;
        assert(-65536 * 4294967296 <= d * rest <= 65536 * 4294967296) by (nonlinear_arith)
            requires
                0 <= d <= 65535,
                -4294967296 <= rest <= 4294967296,
        ;
        assert(d * rest == d * (2 * EASED_ONE - 2 * e));
        d * rest
    };
    assert(-2 * (d * e) == -2 * d * e) by (nonlinear_arith);
    let amount = if invert {
        magnitude
    } else {
        -magnitude
    };
    (amount, second)
}

/// The slide switches pages exactly at the half of the eased range, where both
/// halves of the formula give the same distance from rest, with opposite signs:
/// the first page has just left by `distance`, the second stands `distance`
/// away on the other side. At the start and the end of the range the page
/// stands at rest.
pub proof fn lemma_switch_at_half(eased: int, invert: bool, distance: int)
    ensures
        shows_second_page(eased) <==> eased > EASED_HALF,
        !shows_second_page(EASED_HALF as int),
        shows_second_page(EASED_HALF + 1),
        slide_offset_spec(EASED_HALF as int, invert, distance) == (if invert {
            -distance * EASED_ONE
        } else {
            distance * EASED_ONE
        }),
        distance * (2 * EASED_ONE - 2 * EASED_HALF) == distance * EASED_ONE,
        slide_offset_spec(0, invert, distance) == 0,
        slide_offset_spec(EASED_ONE as int, invert, distance) == 0,
{
    assert(-2 * distance * EASED_HALF == -distance * EASED_ONE) by (nonlinear_arith);
    assert(distance * (2 * EASED_ONE - 2 * EASED_ONE) == 0) by (nonlinear_arith);
}

/// The look of a slide between two pages. The easing curve is handed to the
/// pager as a function of its own.
#[derive(Clone, Copy, Debug, PartialEq, Eq, Hash, Structural)]
pub struct TransitionStyle {
    /// The length of a slide, in nanoseconds.
    pub duration: u64,
    pub t_type: TransitionType,
    /// How far a page moves, in whole units.
    pub distance: u16,
}

impl TransitionStyle {
    /// A style moving along `t_type`, lasting `duration` nanoseconds, over
    /// the default distance.
    pub fn new_with_type(duration: u64, t_type: TransitionType) -> (r: Self)
        ensures
            r == (TransitionStyle { duration, t_type, distance: DEFAULT_DISTANCE }),
    {
        TransitionStyle { duration, t_type, distance: DEFAULT_DISTANCE }
    }

    /// A horizontal slide lasting `duration` nanoseconds.
    pub fn horizontal(duration: u64) -> (r: Self)
        ensures
            r == (TransitionStyle {
                duration,
                t_type: TransitionType::HorizontalMove,
                distance: DEFAULT_DISTANCE,
            }),
    {
        Self::new_with_type(duration, TransitionType::HorizontalMove)
    }

    /// A vertical slide lasting `duration` nanoseconds.
    pub fn vertical(duration: u64) -> (r: Self)
        ensures
            r == (TransitionStyle {
                duration,
                t_type: TransitionType::VerticalMove,
                distance: DEFAULT_DISTANCE,
            }),
    {
        Self::new_with_type(duration, TransitionType::VerticalMove)
    }

    /// A slide along the default axis lasting `duration` nanoseconds.
    pub fn new(duration: u64) -> (r: Self)
        ensures
            r == (TransitionStyle {
                duration,
                t_type: TransitionType::HorizontalMove,
                distance: DEFAULT_DISTANCE,
            }),
    {
        Self::new_with_type(duration, TransitionType::default())
    }

    /// The translation of the drawn page for the eased value `eased`.
    pub open spec fn placement(self, eased: int, invert: bool) -> Translation {
        self.t_type.translation_spec(slide_offset_spec(eased, invert, self.distance as int))
    }
}

/// Draws one of the two pages of a slide at progress `t`: eases `t`, then hands
/// `add_contents` the translation of the drawn page and whether it is the
/// second page, and returns what `add_contents` returned.
pub fn page_transition<Ret>(
    t: Progress,
    style: &TransitionStyle,
    invert_direction: bool,
    easing: impl FnOnce(Progress) -> i32,
    add_contents: impl FnOnce(Translation, bool) -> Ret,
) -> (r: Ret)
    requires
        easing.requires((t,)),
        forall|tr: Translation, second: bool| add_contents.requires((tr, second)),
    ensures
        exists|eased: i32|
            #[trigger] easing.ensures((t,), eased) && add_contents.ensures(
                (style.placement(eased as int, invert_direction), shows_second_page(eased as int)),
                r,
            ),
{
    let eased = easing(t);
    let (amount, second) = slide_offset(eased, invert_direction, style.distance);
    let tr = style.t_type.generate_tstransform(amount);
    add_contents(tr, second)
}

} // verus!
