//! The pager: a state machine over two remembered values, the page last fully
//! shown and the running slide, evaluated afresh on every frame.
use vstd::prelude::*;
use vstd::std_specs::cmp::{PartialEqSpec, PartialOrdSpec};

use core::cmp::Ordering;

use crate::progress::{progress, progress_at, Progress};
use crate::transition::{page_transition, shows_second_page, Translation, TransitionStyle};

verus! {

/// A running slide: the page it goes to and when it ends. It slides from the
/// page last fully shown.
#[derive(Clone, Copy, Debug, PartialEq, Eq)]
pub struct SlideState<Page> {
    pub to: Page,
    pub deadline: u64,
}

/// What the pager remembers between frames. The host keeps it, under keys of
/// its own, and hands it back on the next frame.
#[derive(Clone, Copy, Debug, PartialEq, Eq)]
pub struct PagerMemory<Page> {
    /// The page last fully shown; absent before the first frame.
    pub settled: Option<Page>,
    /// The running slide; absent while no slide runs.
    pub slide: Option<SlideState<Page>>,
}

impl<Page> PagerMemory<Page> {
    /// Memory before the first frame.
    pub fn empty() -> (r: Self)
        ensures
            r == (PagerMemory::<Page> { settled: None, slide: None }),
    {
        PagerMemory { settled: None, slide: None }
    }
}

/// What one frame of the pager does.
#[derive(Clone, Copy, Debug)]
pub enum PagerStep<Page> {
    /// No slide runs and the wanted page is shown: draw it.
    Still { page: Page },
    /// The wanted page changed: a slide to it starts, and `page`, the page
    /// shown so far, is drawn once more at rest.
    Start { page: Page },
    /// The slide is over: its page becomes the shown one and is drawn.
    Finish { page: Page },
    /// The slide runs: one of `from` and `to` is drawn, moved for `progress`.
    Slide { from: Page, to: Page, progress: Progress },
}

impl<Page> PagerStep<Page> {
    /// Whether a slide is under way after this frame, so that another frame
    /// is wanted soon.
    pub open spec fn is_running(self) -> bool {
        self is Start || self is Slide
    }
}

/// The page last fully shown, or `target` before the first frame.
pub open spec fn settled_or<Page>(mem: PagerMemory<Page>, target: Page) -> Page {
    match mem.settled {
        Some(p) => p,
        None => target,
    }
}

/// Whether the slide that ends at `deadline` is over at `now`. A slide of no
/// length is over at once.
pub open spec fn slide_is_over(deadline: u64, now: u64, duration: u64) -> bool {
    duration == 0 || progress_at(deadline, now, duration).is_complete()
}

/// The decision of one frame, from the memory, the wanted page and the clock.
/// A running slide keeps its own page: a wanted page that changes meanwhile
/// is taken up only after the slide is over.
pub open spec fn step_spec<Page: PartialEq>(
    mem: PagerMemory<Page>,
    target: Page,
    now: u64,
    duration: u64,
) -> PagerStep<Page> {
    let prev = settled_or(mem, target);
    match mem.slide {
        None => if prev.eq_spec(&target) {
            PagerStep::Still { page: target }
        } else {
            PagerStep::Start { page: prev }
        },
        Some(slide) => if slide_is_over(slide.deadline, now, duration) {
            PagerStep::Finish { page: slide.to }
        } else {
            PagerStep::Slide {
                from: prev,
                to: slide.to,
                progress: progress_at(slide.deadline, now, duration),
            }
        },
    }
}

/// The memory after one frame.
pub open spec fn memory_after<Page: PartialEq>(
    mem: PagerMemory<Page>,
    target: Page,
    now: u64,
    duration: u64,
) -> PagerMemory<Page> {
    let prev = settled_or(mem, target);
    match step_spec(mem, target, now, duration) {
        PagerStep::Still { .. } => PagerMemory { settled: Some(prev), slide: None },
        PagerStep::Start { .. } => PagerMemory {
            settled: Some(prev),
            slide: Some(SlideState { to: target, deadline: (now + duration) as u64 }),
        },
        PagerStep::Finish { page } => PagerMemory { settled: Some(page), slide: None },
        PagerStep::Slide { .. } => PagerMemory { settled: Some(prev), slide: mem.slide },
    }
}

/// Decides one frame and updates the memory to match.
pub fn pager_step<Page: Copy + PartialEq>(
    mem: &mut PagerMemory<Page>,
    target: Page,
    now: u64,
    duration: u64,
) -> (r: PagerStep<Page>)
    requires
        Page::obeys_eq_spec(),
        now + duration <= u64::MAX,
    ensures
        r == step_spec(*old(mem), target, now, duration),
        *final(mem) == memory_after(*old(mem), target, now, duration),
{
    let prev = match mem.settled {
        Some(p) => p,
        None => target,
    };
    mem.settled = Some(prev);
    match mem.slide {
        Some(slide) => {
            let t = progress(slide.deadline, now, duration);
            if duration == 0 || t.remaining == 0 {
                mem.settled = Some(slide.to);
                mem.slide = None;
                PagerStep::Finish { page: slide.to }
            } else {
                PagerStep::Slide { from: prev, to: slide.to, progress: t }
            }
        },
        None => {
            if prev == target {
                PagerStep::Still { page: target }
            } else {
                mem.slide = Some(SlideState { to: target, deadline: now + duration });
                PagerStep::Start { page: prev }
            }
        },
    }
}

/// What a frame of the pager hands back.
pub struct PagerRet<Page, Ret> {
    /// The page drawn on this frame; during a slide it may still be the old one.
    pub real_page: Page,
    /// What the drawing callback returned.
    pub ui_ret: Ret,
    /// Whether a slide is under way; the host should then draw another frame soon.
    pub animation_running: bool,
}

/// What one frame of the pager draws and returns, given the decision `step`.
/// During a slide, `direction(from, to, invert)` holds of the direction used,
/// and the eased value is one that `easing` gave for the slide's progress.
pub open spec fn frame_matches<Page, Ret>(
    step: PagerStep<Page>,
    target: Page,
    style: TransitionStyle,
    direction: spec_fn(Page, Page, bool) -> bool,
    easing: impl FnOnce(Progress) -> i32,
    add_contents: impl FnOnce(Page, Option<Translation>) -> Ret,
    r: PagerRet<Page, Ret>,
) -> bool {
    &&& r.animation_running == step.is_running()
    &&& match step {
        PagerStep::Still { page } => r.real_page == page && add_contents.ensures(
            (page, None),
            r.ui_ret,
        ),
        PagerStep::Start { page } => r.real_page == page && add_contents.ensures(
            (page, None),
            r.ui_ret,
        ),
        PagerStep::Finish { page } => r.real_page == page && add_contents.ensures(
            (page, None),
            r.ui_ret,
        ),
        PagerStep::Slide { from, to, progress } => exists|invert: bool, eased: i32|
            #![trigger direction(from, to, invert), easing.ensures((progress,), eased)]
            {
                &&& direction(from, to, invert)
                &&& easing.ensures((progress,), eased)
                &&& r.real_page == (if shows_second_page(eased as int) {
                    to
                } else {
                    from
                })
                &&& add_contents.ensures(
                    (r.real_page, Some(style.placement(eased as int, invert))),
                    r.ui_ret,
                )
            },
    }
}

/// Shows one of several pages, sliding between them when `target_page`
/// changes. `invert_direction(old, new)` tells whether the slide goes forward;
/// `easing` maps progress to an eased value in units of `1 / EASED_ONE`;
/// `add_contents` draws a page, moved by the translation it is given if any,
/// and is called exactly once.
pub fn animated_pager_with_direction<Page: Copy + PartialEq, Ret>(
    mem: &mut PagerMemory<Page>,
    now: u64,
    target_page: Page,
    style: &TransitionStyle,
    invert_direction: impl FnOnce(&Page, &Page) -> bool,
    easing: impl FnOnce(Progress) -> i32,
    add_contents: impl FnOnce(Page, Option<Translation>) -> Ret,
) -> (r: PagerRet<Page, Ret>)
    requires
        Page::obeys_eq_spec(),
        now + style.duration <= u64::MAX,
        forall|a: &Page, b: &Page| invert_direction.requires((a, b)),
        forall|t: Progress| easing.requires((t,)),
        forall|p: Page, tr: Option<Translation>| add_contents.requires((p, tr)),
    ensures
        *final(mem) == memory_after(*old(mem), target_page, now, style.duration),
        frame_matches(
            step_spec(*old(mem), target_page, now, style.duration),
            target_page,
            *style,
            |a: Page, b: Page, invert: bool| invert_direction.ensures((&a, &b), invert),
            easing,
            add_contents,
            r,
        ),
{
    let step = pager_step(mem, target_page, now, style.duration);
    match step {
        PagerStep::Still { page } => {
            let ui_ret = add_contents(page, None);
            PagerRet { real_page: page, ui_ret, animation_running: false }
        },
        PagerStep::Start { page } => {
            let ui_ret = add_contents(page, None);
            PagerRet { real_page: page, ui_ret, animation_running: true }
        },
        PagerStep::Finish { page } => {
            let ui_ret = add_contents(page, None);
            PagerRet { real_page: page, ui_ret, animation_running: false }
        },
        PagerStep::Slide { from, to, progress } => {
            let invert = invert_direction(&from, &to);
            let draw = move |tr: Translation, second: bool| -> (out: (Page, Ret))
                requires
                    forall|p: Page, t: Option<Translation>| add_contents.requires((p, t)),
                ensures
                    out.0 == (if second {
                        to
                    } else {
                        from
                    }),
                    add_contents.ensures((out.0, Some(tr)), out.1),
                {
                    let page = if second {
                        to
                    } else {
                        from
                    };
                    (page, add_contents(page, Some(tr)))
                };
            let (real_page, ui_ret) = page_transition(progress, style, invert, easing, draw);
            let r = PagerRet { real_page, ui_ret, animation_running: true };
            proof {
                let eased = choose|eased: i32|
                    #[trigger] easing.ensures((progress,), eased) && draw.ensures(
                        (style.placement(eased as int, invert), shows_second_page(eased as int)),
                        (real_page, ui_ret),
                    );
                let direction = |a: Page, b: Page, i: bool| invert_direction.ensures((&a, &b), i);
                assert(direction(from, to, invert));
                assert(easing.ensures((progress,), eased));
            }
            r
        },
    }
}

/// A frame that meets `frame_matches` under one direction relation meets it
/// under any weaker one.
proof fn lemma_frame_weaken<Page, Ret>(
    step: PagerStep<Page>,
    target: Page,
    style: TransitionStyle,
    strong: spec_fn(Page, Page, bool) -> bool,
    weak: spec_fn(Page, Page, bool) -> bool,
    easing: impl FnOnce(Progress) -> i32,
    add_contents: impl FnOnce(Page, Option<Translation>) -> Ret,
    r: PagerRet<Page, Ret>,
)
    requires
        frame_matches(step, target, style, strong, easing, add_contents, r),
        forall|a: Page, b: Page, i: bool| #[trigger] strong(a, b, i) ==> weak(a, b, i),
    ensures
        frame_matches(step, target, style, weak, easing, add_contents, r),
{
    if let PagerStep::Slide { from, to, progress } = step {
        let (invert, eased) = choose|invert: bool, eased: i32|
            #![trigger strong(from, to, invert), easing.ensures((progress,), eased)]
            {
                &&& strong(from, to, invert)
                &&& easing.ensures((progress,), eased)
                &&& r.real_page == (if shows_second_page(eased as int) {
                    to
                } else {
                    from
                })
                &&& add_contents.ensures(
                    (r.real_page, Some(style.placement(eased as int, invert))),
                    r.ui_ret,
                )
            };
        assert(weak(from, to, invert));
    }
}

/// Every slide goes forward.
pub open spec fn always_forward<Page>(from: Page, to: Page, invert: bool) -> bool {
    invert
}

/// Every slide goes backward.
pub open spec fn always_backward<Page>(from: Page, to: Page, invert: bool) -> bool {
    !invert
}

/// Whether `to` comes after `from` in the pages' order.
pub open spec fn comes_after<Page: PartialOrd>(from: Page, to: Page) -> bool {
    from.partial_cmp_spec(&to) == Some(Ordering::Less)
}

/// A slide goes forward exactly when the new page comes after the old one.
pub open spec fn forward_by_order<Page: PartialOrd>(from: Page, to: Page, invert: bool) -> bool {
    invert == comes_after(from, to)
}

/// The direction of a slide by the pages' order: forward when `new_page`
/// comes after `old_page`.
pub fn ordered_direction<Page: PartialOrd>(old_page: &Page, new_page: &Page) -> (r: bool)
    requires
        Page::obeys_partial_cmp_spec(),
    ensures
        r == comes_after(*old_page, *new_page),
{
    old_page < new_page
}

/// Like `animated_pager_with_direction`, with every slide going forward.
pub fn animated_pager_forward<Page: Copy + PartialEq, Ret>(
    mem: &mut PagerMemory<Page>,
    now: u64,
    target_page: Page,
    style: &TransitionStyle,
    easing: impl FnOnce(Progress) -> i32,
    add_contents: impl FnOnce(Page, Option<Translation>) -> Ret,
) -> (r: PagerRet<Page, Ret>)
    requires
        Page::obeys_eq_spec(),
        now + style.duration <= u64::MAX,
        forall|t: Progress| easing.requires((t,)),
        forall|p: Page, tr: Option<Translation>| add_contents.requires((p, tr)),
    ensures
        *final(mem) == memory_after(*old(mem), target_page, now, style.duration),
        frame_matches(
            step_spec(*old(mem), target_page, now, style.duration),
            target_page,
            *style,
            |a: Page, b: Page, invert: bool| always_forward(a, b, invert),
            easing,
            add_contents,
            r,
        ),
{
    let forward = |_a: &Page, _b: &Page| -> (r: bool)
        ensures
            r,
        { true };
    let ghost step = step_spec(*mem, target_page, now, style.duration);
    let r = animated_pager_with_direction(mem, now, target_page, style, forward, easing, add_contents);
    proof {
        lemma_frame_weaken(
            step,
            target_page,
            *style,
            |a: Page, b: Page, invert: bool| forward.ensures((&a, &b), invert),
            |a: Page, b: Page, invert: bool| always_forward(a, b, invert),
            easing,
            add_contents,
            r,
        );
    }
    r
}

/// Like `animated_pager_with_direction`, with every slide going backward.
pub fn animated_pager_backward<Page: Copy + PartialEq, Ret>(
    mem: &mut PagerMemory<Page>,
    now: u64,
    target_page: Page,
    style: &TransitionStyle,
    easing: impl FnOnce(Progress) -> i32,
    add_contents: impl FnOnce(Page, Option<Translation>) -> Ret,
) -> (r: PagerRet<Page, Ret>)
    requires
        Page::obeys_eq_spec(),
        now + style.duration <= u64::MAX,
        forall|t: Progress| easing.requires((t,)),
        forall|p: Page, tr: Option<Translation>| add_contents.requires((p, tr)),
    ensures
        *final(mem) == memory_after(*old(mem), target_page, now, style.duration),
        frame_matches(
            step_spec(*old(mem), target_page, now, style.duration),
            target_page,
            *style,
            |a: Page, b: Page, invert: bool| always_backward(a, b, invert),
            easing,
            add_contents,
            r,
        ),
{
    let backward = |_a: &Page, _b: &Page| -> (r: bool)
        ensures
            !r,
        { false };
    let ghost step = step_spec(*mem, target_page, now, style.duration);
    let r = animated_pager_with_direction(mem, now, target_page, style, backward, easing, add_contents);
    proof {
        lemma_frame_weaken(
            step,
            target_page,
            *style,
            |a: Page, b: Page, invert: bool| backward.ensures((&a, &b), invert),
            |a: Page, b: Page, invert: bool| always_backward(a, b, invert),
            easing,
            add_contents,
            r,
        );
    }
    r
}

/// Like `animated_pager_with_direction`, with the direction taken from the
/// pages' order: moving to a later page slides forward, to an earlier one
/// backward.
pub fn animated_pager<Page: Copy + PartialEq + PartialOrd, Ret>(
    mem: &mut PagerMemory<Page>,
    now: u64,
    target_page: Page,
    style: &TransitionStyle,
    easing: impl FnOnce(Progress) -> i32,
    add_contents: impl FnOnce(Page, Option<Translation>) -> Ret,
) -> (r: PagerRet<Page, Ret>)
    requires
        Page::obeys_eq_spec(),
        Page::obeys_partial_cmp_spec(),
        now + style.duration <= u64::MAX,
        forall|t: Progress| easing.requires((t,)),
        forall|p: Page, tr: Option<Translation>| add_contents.requires((p, tr)),
    ensures
        *final(mem) == memory_after(*old(mem), target_page, now, style.duration),
        frame_matches(
            step_spec(*old(mem), target_page, now, style.duration),
            target_page,
            *style,
            |a: Page, b: Page, invert: bool| forward_by_order(a, b, invert),
            easing,
            add_contents,
            r,
        ),
{
    let by_order = |old_page: &Page, new_page: &Page| -> (r: bool)
        requires
            Page::obeys_partial_cmp_spec(),
        ensures
            r == comes_after(*old_page, *new_page),
        { ordered_direction(old_page, new_page) };
    let ghost step = step_spec(*mem, target_page, now, style.duration);
    let r = animated_pager_with_direction(mem, now, target_page, style, by_order, easing, add_contents);
    proof {
        lemma_frame_weaken(
            step,
            target_page,
            *style,
            |a: Page, b: Page, invert: bool| by_order.ensures((&a, &b), invert),
            |a: Page, b: Page, invert: bool| forward_by_order(a, b, invert),
            easing,
            add_contents,
            r,
        );
    }
    r
}

/// Memory holding `page` as shown, with no slide running.
pub open spec fn settled_on<Page>(page: Page) -> PagerMemory<Page> {
    PagerMemory { settled: Some(page), slide: None }
}

/// A pager called with the same page from its first frame on draws that page
/// at rest on the first frame and on every frame after it, whatever the clock
/// says: its memory settles on that page and stays there.
pub proof fn lemma_idle_stable<Page: PartialEq>(
    page: Page,
    now: u64,
    later: u64,
    duration: u64,
)
    requires
        page.eq_spec(&page),
    ensures
        step_spec(PagerMemory { settled: None, slide: None }, page, now, duration)
            == (PagerStep::Still { page }),
        memory_after(PagerMemory { settled: None, slide: None }, page, now, duration)
            == settled_on(page),
        step_spec(settled_on(page), page, later, duration) == (PagerStep::Still { page }),
        memory_after(settled_on(page), page, later, duration) == settled_on(page),
        !(PagerStep::Still { page }).is_running(),
{
}

/// Once a frame finds the slide over, that frame draws the slide's page at
/// rest, the slide is dropped and its page becomes the shown one; a later
/// frame wanting that same page runs no slide either.
pub proof fn lemma_completion_settles<Page: PartialEq>(
    mem: PagerMemory<Page>,
    target: Page,
    now: u64,
    later: u64,
    duration: u64,
)
    requires
        mem.slide is Some,
        slide_is_over(mem.slide->0.deadline, now, duration),
        mem.slide->0.to.eq_spec(&mem.slide->0.to),
    ensures
        step_spec(mem, target, now, duration) == (PagerStep::Finish { page: mem.slide->0.to }),
        !step_spec(mem, target, now, duration).is_running(),
        memory_after(mem, target, now, duration) == settled_on(mem.slide->0.to),
        step_spec(settled_on(mem.slide->0.to), mem.slide->0.to, later, duration)
            == (PagerStep::Still { page: mem.slide->0.to }),
        memory_after(settled_on(mem.slide->0.to), mem.slide->0.to, later, duration)
            == settled_on(mem.slide->0.to),
{
}

/// A slide is not turned aside by a wanted page that changes while it runs:
/// from `page` towards `first`, it keeps drawing `page` and `first`, settles
/// on `first` when over, and only the frame after that starts a new slide,
/// from `first` towards `second`.
pub proof fn lemma_slide_keeps_its_page<Page: PartialEq>(
    page: Page,
    first: Page,
    second: Page,
    start: u64,
    mid: u64,
    end: u64,
    next: u64,
    duration: u64,
)
    requires
        !page.eq_spec(&first),
        !first.eq_spec(&second),
        start + duration <= u64::MAX,
        next + duration <= u64::MAX,
        duration > 0,
        start <= mid < start + duration <= end,
    ensures
        ({
            let m0 = settled_on(page);
            let m1 = memory_after(m0, first, start, duration);
            let m2 = memory_after(m1, second, mid, duration);
            let m3 = memory_after(m2, second, end, duration);
            &&& step_spec(m0, first, start, duration) == (PagerStep::Start { page })
            &&& m1 == (PagerMemory {
                settled: Some(page),
                slide: Some(SlideState { to: first, deadline: (start + duration) as u64 }),
            })
            &&& step_spec(m1, second, mid, duration) == (PagerStep::Slide {
                from: page,
                to: first,
                progress: progress_at((start + duration) as u64, mid, duration),
            })
            &&& m2 == m1
            &&& step_spec(m2, second, end, duration) == (PagerStep::Finish { page: first })
            &&& m3 == settled_on(first)
            &&& step_spec(m3, second, next, duration) == (PagerStep::Start { page: first })
            &&& memory_after(m3, second, next, duration) == (PagerMemory {
                settled: Some(first),
                slide: Some(SlideState { to: second, deadline: (next + duration) as u64 }),
            })
        }),
{
}

/// With pages ordered `a < b < c` by a lawful order, a slide from `a` to `c`
/// goes forward and one from `c` back to `a` goes backward.
pub proof fn lemma_ordered_direction<Page: PartialOrd>(a: Page, b: Page, c: Page)
    requires
        comes_after(a, b),
        comes_after(b, c),
        forall|x: Page, y: Page, z: Page|
            #[trigger] comes_after(x, y) && #[trigger] comes_after(y, z) ==> comes_after(x, z),
        forall|x: Page, y: Page|
            #[trigger] comes_after(x, y) ==> y.partial_cmp_spec(&x) == Some(Ordering::Greater),
    ensures
        forward_by_order(a, c, true),
        !forward_by_order(a, c, false),
        forward_by_order(c, a, false),
        !forward_by_order(c, a, true),
{
    assert(comes_after(a, c));
}

/// Every frame draws exactly once: the callback is taken by value and called
/// once, and what the frame returns is what that call gave.
pub proof fn lemma_one_draw_per_frame<Page, Ret>(
    step: PagerStep<Page>,
    target: Page,
    style: TransitionStyle,
    direction: spec_fn(Page, Page, bool) -> bool,
    easing: impl FnOnce(Progress) -> i32,
    add_contents: impl FnOnce(Page, Option<Translation>) -> Ret,
    r: PagerRet<Page, Ret>,
)
    requires
        frame_matches(step, target, style, direction, easing, add_contents, r),
    ensures
        exists|page: Page, tr: Option<Translation>| #[trigger]
            add_contents.ensures((page, tr), r.ui_ret),
{
    match step {
        PagerStep::Still { page } => {
            assert(add_contents.ensures((page, None), r.ui_ret));
        },
        PagerStep::Start { page } => {
            assert(add_contents.ensures((page, None), r.ui_ret));
        },
        PagerStep::Finish { page } => {
            assert(add_contents.ensures((page, None), r.ui_ret));
        },
        PagerStep::Slide { from, to, progress } => {
            let (invert, eased) = choose|invert: bool, eased: i32|
                #![trigger direction(from, to, invert), easing.ensures((progress,), eased)]
                {
                    &&& direction(from, to, invert)
                    &&& easing.ensures((progress,), eased)
                    &&& r.real_page == (if shows_second_page(eased as int) {
                        to
                    } else {
                        from
                    })
                    &&& add_contents.ensures(
                        (r.real_page, Some(style.placement(eased as int, invert))),
                        r.ui_ret,
                    )
                };
            assert(add_contents.ensures(
                (r.real_page, Some(style.placement(eased as int, invert))),
                r.ui_ret,
            ));
        },
    }
}

} // verus!
