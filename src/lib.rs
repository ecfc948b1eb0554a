//! An animated page switcher: remembers which page was last fully shown,
//! notices when the wanted page changes, and plays a timed slide between the
//! two pages, drawing exactly one page on every frame.

pub mod pager;
pub mod progress;
pub mod transition;

pub use pager::{
    animated_pager, animated_pager_backward, animated_pager_forward, animated_pager_with_direction,
    ordered_direction, pager_step, PagerMemory, PagerRet, PagerStep, SlideState,
};
pub use progress::{progress, Progress};
pub use transition::{
    page_transition, slide_offset, Translation, TransitionStyle, TransitionType, DEFAULT_DISTANCE,
    EASED_HALF, EASED_ONE,
};
