//! The face: a registry of elements dispatched by a closed variant type,
//! and the engine that updates and renders them once per frame.
//!
//! The variant set is known at compile time, so dispatch is a sealed sum
//! type rather than open dynamic dispatch. Only one Eyes-category element
//! is active at a time; inactive eyes are neither updated (their timers
//! freeze) nor rendered.

use vstd::prelude::*;
use crate::canvas::{Canvas, PixelDrawer, PixelWrite};
use crate::eyes::circle::CircleEyes;
use crate::eyes::cross::CrossEyes;
use crate::eyes::default::DefaultEyes;
use crate::eyes::{BlinkConfig, EyePosition};
use crate::eyes::heart::HeartEyes;
use crate::gamepad::{CycleEyes, GamepadButton, MaskState};
use crate::mouth::DefaultMouth;
use crate::nose::{DefaultNose, NosePosition};
use crate::state::{RenderContext, SharedFaceState, TIME_COUNTER_LIMIT};

verus! {

/// The categories elements belong to. Rendering walks them in the fixed
/// draw order mouth, nose, eyes, accessories.
#[derive(Debug, Clone, Copy, PartialEq, Eq, Hash, Structural)]
pub enum ElementCategory {
    Eyes,
    Mouth,
    Nose,
    Accessory,
}

/// The plain inputs one update step consumes: the clock's whole-second
/// reading, the microphone level in centi-units of [0, 1], and the seconds
/// since the last above-threshold audio sample.
#[derive(Debug, Clone, Copy, PartialEq, Eq, Structural)]
pub struct UpdateInputs {
    pub now_secs: u64,
    pub audio_level: i64,
    pub seconds_idle: u64,
}

/// A face element: one of the closed set of eye, mouth and nose variants.
#[derive(Debug, Clone, Copy, PartialEq, Eq, Structural)]
pub enum FaceElement {
    DefaultEyes(DefaultEyes),
    HeartEyes(HeartEyes),
    CircleEyes(CircleEyes),
    CrossEyes(CrossEyes),
    DefaultMouth(DefaultMouth),
    DefaultNose(DefaultNose),
}

impl FaceElement {
    /// The category the variant belongs to.
    pub open spec fn spec_category(self) -> ElementCategory {
        match self {
            FaceElement::DefaultEyes(_) => ElementCategory::Eyes,
            FaceElement::HeartEyes(_) => ElementCategory::Eyes,
            FaceElement::CircleEyes(_) => ElementCategory::Eyes,
            FaceElement::CrossEyes(_) => ElementCategory::Eyes,
            FaceElement::DefaultMouth(_) => ElementCategory::Mouth,
            FaceElement::DefaultNose(_) => ElementCategory::Nose,
        }
    }

    /// The category the variant belongs to.
    pub fn category(&self) -> (c: ElementCategory)
        ensures
            c == self.spec_category(),
    {
        match self {
            FaceElement::DefaultEyes(_) => ElementCategory::Eyes,
            FaceElement::HeartEyes(_) => ElementCategory::Eyes,
            FaceElement::CircleEyes(_) => ElementCategory::Eyes,
            FaceElement::CrossEyes(_) => ElementCategory::Eyes,
            FaceElement::DefaultMouth(_) => ElementCategory::Mouth,
            FaceElement::DefaultNose(_) => ElementCategory::Nose,
        }
    }

    /// The variant's display name.
    pub open spec fn spec_name(self) -> Seq<char> {
        match self {
            FaceElement::DefaultEyes(_) => "Default Eyes"@,
            FaceElement::HeartEyes(_) => "Heart Eyes"@,
            FaceElement::CircleEyes(_) => "O Eyes"@,
            FaceElement::CrossEyes(_) => "X Eyes"@,
            FaceElement::DefaultMouth(_) => "Default Mouth"@,
            FaceElement::DefaultNose(_) => "Default Nose"@,
        }
    }

    /// The variant's display name.
    pub fn name(&self) -> (r: &'static str)
        ensures
            r@ == self.spec_name(),
    {
        match self {
            FaceElement::DefaultEyes(e) => e.name(),
            FaceElement::HeartEyes(e) => e.name(),
            FaceElement::CircleEyes(e) => e.name(),
            FaceElement::CrossEyes(e) => e.name(),
            FaceElement::DefaultMouth(e) => e.name(),
            FaceElement::DefaultNose(e) => e.name(),
        }
    }

    /// Ranges every variant's machines rely on.
    pub open spec fn inv(self) -> bool {
        match self {
            FaceElement::DefaultEyes(e) => e.inv_state(),
            FaceElement::HeartEyes(e) => e.position.wf(),
            FaceElement::CircleEyes(e) => e.position.wf(),
            FaceElement::CrossEyes(e) => e.position.wf(),
            FaceElement::DefaultMouth(e) => e.inv_state(),
            FaceElement::DefaultNose(e) => e.position.wf(),
        }
    }

    /// One update step of the variant's own machine: the new element and
    /// the new shared state.
    pub open spec fn spec_update(self, ss: SharedFaceState, inputs: UpdateInputs) -> (
        FaceElement,
        SharedFaceState,
    ) {
        match self {
            FaceElement::DefaultEyes(e) => {
                let r = e.spec_step(ss, inputs.now_secs);
                (FaceElement::DefaultEyes(r.0), r.1)
            },
            FaceElement::HeartEyes(_) => (self, ss),
            FaceElement::CircleEyes(_) => {
                (self, SharedFaceState { eye_top: 900, eye_bottom: 145, ..ss })
            },
            FaceElement::CrossEyes(_) => {
                (self, SharedFaceState { eye_top: 900, eye_bottom: 145, ..ss })
            },
            FaceElement::DefaultMouth(e) => {
                let r = e.spec_step(ss, inputs.audio_level as int, inputs.seconds_idle);
                (FaceElement::DefaultMouth(r.0), r.1)
            },
            FaceElement::DefaultNose(_) => (self, ss),
        }
    }

    /// Advance the element's animation state by one frame.
    pub fn update(&mut self, shared_state: &mut SharedFaceState, inputs: &UpdateInputs)
        requires
            old(self).inv(),
            old(shared_state).wf(),
        ensures
            *final(self) == old(self).spec_update(*old(shared_state), *inputs).0,
            *final(shared_state) == old(self).spec_update(*old(shared_state), *inputs).1,
            final(self).inv(),
            final(shared_state).wf(),
            final(self).spec_category() == old(self).spec_category(),
            final(shared_state).blink_enabled == old(shared_state).blink_enabled,
            final(shared_state).manual_mouth_active == old(shared_state).manual_mouth_active,
    {
        match self {
            FaceElement::DefaultEyes(e) => e.update(shared_state, inputs.now_secs),
            FaceElement::HeartEyes(e) => e.update(shared_state),
            FaceElement::CircleEyes(e) => e.update(shared_state),
            FaceElement::CrossEyes(e) => e.update(shared_state),
            FaceElement::DefaultMouth(e) => e.update(
                shared_state,
                inputs.audio_level,
                inputs.seconds_idle,
            ),
            FaceElement::DefaultNose(e) => e.update(shared_state),
        }
    }

    /// Everything the element draws in one frame, in its own scan order.
    pub open spec fn spec_writes(self, ctx: RenderContext, ss: SharedFaceState) -> Seq<PixelWrite> {
        match self {
            FaceElement::DefaultEyes(e) => e.spec_render_writes(ctx, ss),
            FaceElement::HeartEyes(e) => e.spec_render_writes(ctx, ss),
            FaceElement::CircleEyes(e) => e.spec_render_writes(ctx, ss),
            FaceElement::CrossEyes(e) => e.spec_render_writes(ctx, ss),
            FaceElement::DefaultMouth(e) => e.spec_render_writes(ctx, ss),
            FaceElement::DefaultNose(e) => e.spec_render_writes(ctx, ss),
        }
    }

    /// Draw the element.
    pub fn render(
        &self,
        canvas: &mut Canvas,
        context: &RenderContext,
        shared_state: &SharedFaceState,
        draw_pixel_fn: &PixelDrawer,
    )
        requires
            self.inv(),
            context.wf(),
            shared_state.wf(),
        ensures
            final(canvas)@ == old(canvas)@ + self.spec_writes(*context, *shared_state),
    {
        match self {
            FaceElement::DefaultEyes(e) => e.render(canvas, context, shared_state, draw_pixel_fn),
            FaceElement::HeartEyes(e) => e.render(canvas, context, shared_state, draw_pixel_fn),
            FaceElement::CircleEyes(e) => e.render(canvas, context, shared_state, draw_pixel_fn),
            FaceElement::CrossEyes(e) => e.render(canvas, context, shared_state, draw_pixel_fn),
            FaceElement::DefaultMouth(e) => e.render(canvas, context, shared_state, draw_pixel_fn),
            FaceElement::DefaultNose(e) => e.render(canvas, context, shared_state, draw_pixel_fn),
        }
    }

    /// The element's answer to a button press: the new shared state and
    /// whether it claimed the event. Only the mouth claims anything.
    pub open spec fn spec_button(self, ss: SharedFaceState, b: GamepadButton) -> (
        SharedFaceState,
        bool,
    ) {
        match self {
            FaceElement::DefaultMouth(_) => {
                if b == GamepadButton::LeftTrigger {
                    (SharedFaceState { mouth_opening: 600, ..ss }, true)
                } else if b == GamepadButton::RightTrigger {
                    (SharedFaceState { mouth_opening: 0, ..ss }, true)
                } else {
                    (ss, false)
                }
            },
            _ => (ss, false),
        }
    }

    /// Offer a button press to the element.
    pub fn handle_button(&mut self, button: GamepadButton, shared_state: &mut SharedFaceState) -> (handled: bool)
        ensures
            *final(self) == *old(self),
            *final(shared_state) == old(self).spec_button(*old(shared_state), button).0,
            handled == old(self).spec_button(*old(shared_state), button).1,
    {
        match self {
            FaceElement::DefaultMouth(e) => e.handle_button(button, shared_state),
            _ => false,
        }
    }
}

/// An element together with its eye-variant ordinal: `Some(k)` for the
/// `k`-th registered Eyes-category element, `None` for every other
/// category.
#[derive(Debug, Clone, Copy, PartialEq, Eq, Structural)]
pub struct RegisteredElement {
    pub element: FaceElement,
    pub eye_index: Option<usize>,
}

/// Whether the update and render passes skip this element: an inactive
/// eye variant is frozen, everything else always runs.
pub open spec fn spec_skips(e: RegisteredElement, active: int) -> bool {
    match e.eye_index {
        Option::Some(k) => k != active,
        Option::None => false,
    }
}

/// The registered elements and shared state after the first `n` elements
/// have taken their update step, in registration order, each seeing the
/// shared state its predecessors left.
pub open spec fn spec_update_fold(
    elems: Seq<RegisteredElement>,
    ss: SharedFaceState,
    active: int,
    inputs: UpdateInputs,
    n: int,
) -> (Seq<RegisteredElement>, SharedFaceState)
    decreases n,
{
    if n <= 0 {
        (elems, ss)
    } else {
        let prev = spec_update_fold(elems, ss, active, inputs, n - 1);
        let e = prev.0[n - 1];
        if spec_skips(e, active) {
            prev
        } else {
            let stepped = e.element.spec_update(prev.1, inputs);
            (
                prev.0.update(n - 1, RegisteredElement { element: stepped.0, ..e }),
                stepped.1,
            )
        }
    }
}

/// The writes of one category pass over the first `n` elements: elements
/// of other categories and inactive eyes contribute nothing.
pub open spec fn spec_category_writes(
    elems: Seq<RegisteredElement>,
    active: int,
    ctx: RenderContext,
    ss: SharedFaceState,
    cat: ElementCategory,
    n: int,
) -> Seq<PixelWrite>
    decreases n,
{
    if n <= 0 {
        Seq::empty()
    } else {
        spec_category_writes(elems, active, ctx, ss, cat, n - 1) + (
        if elems[n - 1].element.spec_category() == cat && !spec_skips(elems[n - 1], active) {
            elems[n - 1].element.spec_writes(ctx, ss)
        } else {
            Seq::empty()
        })
    }
}

/// The full frame's writes: every category pass in the fixed draw order.
pub open spec fn spec_render_all_writes(
    elems: Seq<RegisteredElement>,
    active: int,
    ctx: RenderContext,
    ss: SharedFaceState,
) -> Seq<PixelWrite> {
    let n = elems.len() as int;
    spec_category_writes(elems, active, ctx, ss, ElementCategory::Mouth, n)
        + spec_category_writes(elems, active, ctx, ss, ElementCategory::Nose, n)
        + spec_category_writes(elems, active, ctx, ss, ElementCategory::Eyes, n)
        + spec_category_writes(elems, active, ctx, ss, ElementCategory::Accessory, n)
}

/// The shared state and claim flag after offering a button press to the
/// first `n` elements in order, stopping at the first claim.
pub open spec fn spec_button_fold(
    elems: Seq<RegisteredElement>,
    ss: SharedFaceState,
    b: GamepadButton,
    n: int,
) -> (SharedFaceState, bool)
    decreases n,
{
    if n <= 0 {
        (ss, false)
    } else {
        let prev = spec_button_fold(elems, ss, b, n - 1);
        if prev.1 {
            prev
        } else {
            elems[n - 1].element.spec_button(prev.0, b)
        }
    }
}

/// The ordered collection of face elements, the eye-variant names in
/// registration order, and which eye variant is active.
pub struct FaceElementRegistry {
    pub elements: Vec<RegisteredElement>,
    pub active_eyes_index: usize,
    pub eyes_variants: Vec<&'static str>,
}

impl FaceElementRegistry {
    /// Every element is sound, eye ordinals mirror registration order and
    /// stay within the variant list, and the active index is in range
    /// whenever any eye variant exists.
    pub open spec fn inv(self) -> bool {
        &&& forall|i: int|
            0 <= i < self.elements@.len() ==> (#[trigger] self.elements@[i]).element.inv()
        &&& forall|i: int|
            0 <= i < self.elements@.len() ==> ((#[trigger] self.elements@[i]).eye_index is Some
                <==> self.elements@[i].element.spec_category() == ElementCategory::Eyes)
        &&& forall|i: int|
            0 <= i < self.elements@.len() ==> ((#[trigger] self.elements@[i]).eye_index is Some
                ==> self.elements@[i].eye_index->0 < self.eyes_variants@.len())
        &&& (self.eyes_variants@.len() > 0 ==> self.active_eyes_index < self.eyes_variants@.len())
        &&& (self.eyes_variants@.len() == 0 ==> self.active_eyes_index == 0)
    }

    /// An empty registry.
    pub fn new() -> (r: Self)
        ensures
            r.elements@ == Seq::<RegisteredElement>::empty(),
            r.eyes_variants@ == Seq::<&'static str>::empty(),
            r.active_eyes_index == 0,
            r.inv(),
    {
        FaceElementRegistry {
            elements: Vec::new(),
            active_eyes_index: 0,
            eyes_variants: Vec::new(),
        }
    }

    /// Append an element; an Eyes-category element also appends its name
    /// to the variant list and takes the next eye ordinal.
    pub fn register(&mut self, element: FaceElement)
        requires
            old(self).inv(),
            element.inv(),
        ensures
            final(self).inv(),
            final(self).active_eyes_index == old(self).active_eyes_index,
            element.spec_category() == ElementCategory::Eyes ==> {
                &&& final(self).elements@ == old(self).elements@.push(
                    RegisteredElement {
                        element,
                        eye_index: Option::Some(old(self).eyes_variants@.len() as usize),
                    },
                )
                &&& final(self).eyes_variants@.len() == old(self).eyes_variants@.len() + 1
                &&& final(self).eyes_variants@.subrange(0, old(self).eyes_variants@.len() as int)
                    == old(self).eyes_variants@
                &&& final(self).eyes_variants@.last()@ == element.spec_name()
            },
            element.spec_category() != ElementCategory::Eyes ==> {
                &&& final(self).elements@ == old(self).elements@.push(
                    RegisteredElement { element, eye_index: Option::None },
                )
                &&& final(self).eyes_variants@ == old(self).eyes_variants@
            },
    {
        let is_eyes = element.category() == ElementCategory::Eyes;
        if is_eyes {
            let k = self.eyes_variants.len();
            self.eyes_variants.push(element.name());
            self.elements.push(RegisteredElement { element, eye_index: Option::Some(k) });
        } else {
            self.elements.push(RegisteredElement { element, eye_index: Option::None });
        }
    }

    /// Update every element that is not a frozen eye variant, in
    /// registration order.
    #[verifier::loop_isolation(false)]
    pub fn update_all(&mut self, shared_state: &mut SharedFaceState, inputs: &UpdateInputs)
        requires
            old(self).inv(),
            old(shared_state).wf(),
        ensures
            final(self).elements@ == spec_update_fold(
                old(self).elements@,
                *old(shared_state),
                old(self).active_eyes_index as int,
                *inputs,
                old(self).elements@.len() as int,
            ).0,
            *final(shared_state) == spec_update_fold(
                old(self).elements@,
                *old(shared_state),
                old(self).active_eyes_index as int,
                *inputs,
                old(self).elements@.len() as int,
            ).1,
            final(self).active_eyes_index == old(self).active_eyes_index,
            final(self).eyes_variants@ == old(self).eyes_variants@,
            final(self).inv(),
            final(shared_state).wf(),
            final(shared_state).blink_enabled == old(shared_state).blink_enabled,
            final(shared_state).manual_mouth_active == old(shared_state).manual_mouth_active,
    {
        let ghost orig = self.elements@;
        let ghost ss0 = *shared_state;
        let ghost active = self.active_eyes_index as int;
        let ghost ev0 = self.eyes_variants@;
        let n = self.elements.len();
        let mut i: usize = 0;
        while i < n
            invariant
                0 <= i <= n,
                self.active_eyes_index as int == active,
                self.eyes_variants@ == ev0,
                self.elements@ == spec_update_fold(orig, ss0, active, *inputs, i as int).0,
                *shared_state == spec_update_fold(orig, ss0, active, *inputs, i as int).1,
                self.elements@.len() == n,
                forall|k: int|
                    0 <= k < n ==> (#[trigger] self.elements@[k]).element.inv(),
                forall|k: int|
                    0 <= k < n ==> (#[trigger] self.elements@[k]).eye_index == orig[k].eye_index,
                forall|k: int|
                    0 <= k < n ==> (#[trigger] self.elements@[k]).element.spec_category()
                        == orig[k].element.spec_category(),
                shared_state.wf(),
                shared_state.blink_enabled == ss0.blink_enabled,
                shared_state.manual_mouth_active == ss0.manual_mouth_active,
            decreases n - i,
        {
            let mut re = self.elements[i];
            let skip = match re.eye_index {
                Option::Some(k) => k != self.active_eyes_index,
                Option::None => false,
            };
            if !skip {
                re.element.update(shared_state, inputs);
                self.elements[i] = re;
            }
            proof {
                assert(self.elements@ =~= spec_update_fold(orig, ss0, active, *inputs, i as int + 1).0);
            }
            i += 1;
        }
    }

    /// Render one category pass in registration order.
    #[verifier::loop_isolation(false)]
    fn render_category(
        &self,
        canvas: &mut Canvas,
        context: &RenderContext,
        shared_state: &SharedFaceState,
        draw_pixel_fn: &PixelDrawer,
        category: ElementCategory,
    )
        requires
            self.inv(),
            context.wf(),
            shared_state.wf(),
        ensures
            final(canvas)@ == old(canvas)@ + spec_category_writes(
                self.elements@,
                self.active_eyes_index as int,
                *context,
                *shared_state,
                category,
                self.elements@.len() as int,
            ),
    {
        let ghost active = self.active_eyes_index as int;
        let n = self.elements.len();
        let mut i: usize = 0;
        while i < n
            invariant
                0 <= i <= n,
                canvas@ == old(canvas)@ + spec_category_writes(
                    self.elements@,
                    active,
                    *context,
                    *shared_state,
                    category,
                    i as int,
                ),
            decreases n - i,
        {
            let re = &self.elements[i];
            let matches_cat = re.element.category() == category;
            let skip = match re.eye_index {
                Option::Some(k) => k != self.active_eyes_index,
                Option::None => false,
            };
            if matches_cat && !skip {
                re.element.render(canvas, context, shared_state, draw_pixel_fn);
            }
            proof {
                assert(canvas@ =~= old(canvas)@ + spec_category_writes(
                    self.elements@,
                    active,
                    *context,
                    *shared_state,
                    category,
                    i as int + 1,
                ));
            }
            i += 1;
        }
    }

    /// Render every active element, category by category in the fixed
    /// draw order: mouth, nose, eyes, accessories.
    pub fn render_all(
        &self,
        canvas: &mut Canvas,
        context: &RenderContext,
        shared_state: &SharedFaceState,
        draw_pixel_fn: &PixelDrawer,
    )
        requires
            self.inv(),
            context.wf(),
            shared_state.wf(),
        ensures
            final(canvas)@ == old(canvas)@ + spec_render_all_writes(
                self.elements@,
                self.active_eyes_index as int,
                *context,
                *shared_state,
            ),
    {
        self.render_category(canvas, context, shared_state, draw_pixel_fn, ElementCategory::Mouth);
        self.render_category(canvas, context, shared_state, draw_pixel_fn, ElementCategory::Nose);
        self.render_category(canvas, context, shared_state, draw_pixel_fn, ElementCategory::Eyes);
        self.render_category(
            canvas,
            context,
            shared_state,
            draw_pixel_fn,
            ElementCategory::Accessory,
        );
        assert(canvas@ =~= old(canvas)@ + spec_render_all_writes(
            self.elements@,
            self.active_eyes_index as int,
            *context,
            *shared_state,
        ));
    }

    /// Offer a button press to each element in registration order, stopping
    /// at the first that claims it.
    #[verifier::loop_isolation(false)]
    pub fn handle_button(
        &mut self,
        button: GamepadButton,
        shared_state: &mut SharedFaceState,
    ) -> (handled: bool)
        requires
            old(self).inv(),
        ensures
            final(self).elements@ == old(self).elements@,
            final(self).active_eyes_index == old(self).active_eyes_index,
            final(self).eyes_variants@ == old(self).eyes_variants@,
            final(self).inv(),
            *final(shared_state) == spec_button_fold(
                old(self).elements@,
                *old(shared_state),
                button,
                old(self).elements@.len() as int,
            ).0,
            handled == spec_button_fold(
                old(self).elements@,
                *old(shared_state),
                button,
                old(self).elements@.len() as int,
            ).1,
            old(shared_state).wf() ==> final(shared_state).wf(),
    {
        let ghost orig = self.elements@;
        let ghost ss0 = *shared_state;
        let ghost active0 = self.active_eyes_index;
        let ghost ev0 = self.eyes_variants@;
        let n = self.elements.len();
        let mut i: usize = 0;
        let mut handled = false;
        while i < n
            invariant
                0 <= i <= n,
                self.active_eyes_index == active0,
                self.eyes_variants@ == ev0,
                self.elements@ == orig,
                *shared_state == spec_button_fold(orig, ss0, button, i as int).0,
                handled == spec_button_fold(orig, ss0, button, i as int).1,
                ss0.wf() ==> shared_state.wf(),
            decreases n - i,
        {
            if !handled {
                let mut re = self.elements[i];
                handled = re.element.handle_button(button, shared_state);
                self.elements[i] = re;
                proof {
                    assert(self.elements@ =~= orig);
                }
            }
            i += 1;
        }
        handled
    }

    /// Select the next eye variant, wrapping past the end; with no eye
    /// variants registered this is a no-op. An out-of-range index (which
    /// the registry's own operations never produce) is silently brought
    /// back in range, never a crash.
    pub fn cycle_eyes_forward(&mut self)
        ensures
            final(self).elements@ == old(self).elements@,
            final(self).eyes_variants@ == old(self).eyes_variants@,
            old(self).inv() ==> final(self).inv(),
            old(self).eyes_variants@.len() == 0 ==> final(self).active_eyes_index == old(
                self,
            ).active_eyes_index,
            old(self).eyes_variants@.len() > 0 && old(self).active_eyes_index < old(
                self,
            ).eyes_variants@.len() ==> final(self).active_eyes_index as int == (old(
                self,
            ).active_eyes_index + 1) % (old(self).eyes_variants@.len() as int),
            old(self).eyes_variants@.len() > 0 && old(self).active_eyes_index >= old(
                self,
            ).eyes_variants@.len() ==> final(self).active_eyes_index == 0,
    {
        let len = self.eyes_variants.len();
        if len > 0 {
            if self.active_eyes_index < len {
                self.active_eyes_index = (self.active_eyes_index + 1) % len;
            } else {
                self.active_eyes_index = 0;
            }
        }
    }

    /// Select the previous eye variant, wrapping past the start; with no
    /// eye variants registered this is a no-op. An out-of-range index
    /// (which the registry's own operations never produce) is silently
    /// brought back in range, never a crash.
    pub fn cycle_eyes_backward(&mut self)
        ensures
            final(self).elements@ == old(self).elements@,
            final(self).eyes_variants@ == old(self).eyes_variants@,
            old(self).inv() ==> final(self).inv(),
            old(self).eyes_variants@.len() == 0 ==> final(self).active_eyes_index == old(
                self,
            ).active_eyes_index,
            old(self).eyes_variants@.len() > 0 && old(self).active_eyes_index < old(
                self,
            ).eyes_variants@.len() ==> final(self).active_eyes_index as int == (
            if old(self).active_eyes_index == 0 {
                old(self).eyes_variants@.len() - 1
            } else {
                old(self).active_eyes_index - 1
            }),
            old(self).eyes_variants@.len() > 0 && old(self).active_eyes_index >= old(
                self,
            ).eyes_variants@.len() ==> final(self).active_eyes_index as int == old(
                self,
            ).eyes_variants@.len() - 1,
    {
        let len = self.eyes_variants.len();
        if len > 0 {
            if self.active_eyes_index == 0 || self.active_eyes_index >= len {
                self.active_eyes_index = len - 1;
            } else {
                self.active_eyes_index = self.active_eyes_index - 1;
            }
        }
    }

    /// The active eye variant's name, or "None" when no eye variant is
    /// registered.
    pub fn get_active_eyes_name(&self) -> (r: &'static str)
        ensures
            self.active_eyes_index >= self.eyes_variants@.len() ==> r@ == "None"@,
            self.active_eyes_index < self.eyes_variants@.len() ==> r@ == self.eyes_variants@[self.active_eyes_index as int]@,
    {
        if self.active_eyes_index < self.eyes_variants.len() {
            self.eyes_variants[self.active_eyes_index]
        } else {
            "None"
        }
    }
}

/// The initial value of each element variant, as its constructor builds it.
pub open spec fn spec_initial_default_eyes() -> DefaultEyes {
    DefaultEyes {
        blink_sec: 0,
        blink_frame: 0,
        blink_flag: true,
        last_second: 0,
        config: BlinkConfig { enabled: true, interval_secs: 10, frames: 6 },
    }
}

/// The initial heart eyes: stock position.
pub open spec fn spec_initial_heart_eyes() -> HeartEyes {
    HeartEyes { position: EyePosition { center_x: 1300, center_y: 2200 } }
}

/// The initial circle eyes: stock position.
pub open spec fn spec_initial_circle_eyes() -> CircleEyes {
    CircleEyes { position: EyePosition { center_x: 1300, center_y: 2200 } }
}

/// The initial cross eyes: stock position.
pub open spec fn spec_initial_cross_eyes() -> CrossEyes {
    CrossEyes { position: EyePosition { center_x: 1300, center_y: 2200 } }
}

/// The initial mouth: closed, phase zero.
pub open spec fn spec_initial_mouth() -> DefaultMouth {
    DefaultMouth { mouth_opening: 0, breathing_phase: 0 }
}

/// The initial nose: stock position.
pub open spec fn spec_initial_nose() -> DefaultNose {
    DefaultNose { position: NosePosition { center_x: 5600, center_y: 2700 } }
}

/// Every eye variant, in registration order: the blinking default, then
/// heart, circle and cross.
pub fn get_all_eye_types() -> (r: Vec<FaceElement>)
    ensures
        r@.len() == 4,
        r@[0] == FaceElement::DefaultEyes(spec_initial_default_eyes()),
        r@[1] == FaceElement::HeartEyes(spec_initial_heart_eyes()),
        r@[2] == FaceElement::CircleEyes(spec_initial_circle_eyes()),
        r@[3] == FaceElement::CrossEyes(spec_initial_cross_eyes()),
        forall|i: int| 0 <= i < 4 ==> (#[trigger] r@[i]).inv(),
        forall|i: int| 0 <= i < 4 ==> (#[trigger] r@[i]).spec_category() == ElementCategory::Eyes,
{
    let mut v: Vec<FaceElement> = Vec::new();
    v.push(FaceElement::DefaultEyes(DefaultEyes::new()));
    v.push(FaceElement::HeartEyes(HeartEyes::new()));
    v.push(FaceElement::CircleEyes(CircleEyes::new()));
    v.push(FaceElement::CrossEyes(CrossEyes::new()));
    v
}

/// Every mouth variant: just the audio-reactive default.
pub fn get_all_mouth_types() -> (r: Vec<FaceElement>)
    ensures
        r@.len() == 1,
        r@[0] == FaceElement::DefaultMouth(spec_initial_mouth()),
        forall|i: int| 0 <= i < 1 ==> (#[trigger] r@[i]).inv(),
        forall|i: int| 0 <= i < 1 ==> (#[trigger] r@[i]).spec_category() == ElementCategory::Mouth,
{
    let mut v: Vec<FaceElement> = Vec::new();
    v.push(FaceElement::DefaultMouth(DefaultMouth::new()));
    v
}

/// Every nose variant: just the static default.
pub fn get_all_nose_types() -> (r: Vec<FaceElement>)
    ensures
        r@.len() == 1,
        r@[0] == FaceElement::DefaultNose(spec_initial_nose()),
        forall|i: int| 0 <= i < 1 ==> (#[trigger] r@[i]).inv(),
        forall|i: int| 0 <= i < 1 ==> (#[trigger] r@[i]).spec_category() == ElementCategory::Nose,
{
    let mut v: Vec<FaceElement> = Vec::new();
    v.push(FaceElement::DefaultNose(DefaultNose::new()));
    v
}

/// Everything one frame consumes: the mask configuration snapshot, the
/// clock's whole-second reading, the microphone level in centi-units of
/// [0, 1], and the seconds since the last above-threshold audio sample.
#[derive(Debug, Clone, Copy, PartialEq, Eq, Structural)]
pub struct FrameInputs {
    pub mask: MaskState,
    pub now_secs: u64,
    pub audio_level: i64,
    pub seconds_idle: u64,
}


/// The render context one frame uses, at frame counter `t` (centi-units).
pub open spec fn spec_frame_ctx(t: int, mask: MaskState) -> RenderContext {
    RenderContext {
        offset_x: 0,
        offset_y: 0,
        time_counter: t as i64,
        brightness: mask.brightness,
        palette: mask.color_palette,
    }
}

/// The whole animated face: frame counter, element registry, shared state
/// and the pixel drawer elements render through.
pub struct ProtogenFace {
    /// Shimmer phase seed in centi-units: one whole unit per frame,
    /// monotonically increasing, bounded by `TIME_COUNTER_LIMIT`.
    pub time_counter: i64,
    pub registry: FaceElementRegistry,
    pub shared_state: SharedFaceState,
    pub pixel_drawer: PixelDrawer,
}

impl ProtogenFace {
    /// The engine's invariant: a sound registry, a well-formed shared
    /// state, a wrapped frame counter.
    pub open spec fn inv(self) -> bool {
        &&& self.registry.inv()
        &&& self.shared_state.wf()
        &&& 0 <= self.time_counter <= TIME_COUNTER_LIMIT
    }

    /// A face with every element variant registered: the four eye variants
    /// first, in order, followed by the mouth and the nose. Eyes open,
    /// mouth closed, the default eye variant active.
    pub fn new() -> (r: ProtogenFace)
        ensures
            r.inv(),
            r.time_counter == 0,
            r.shared_state == (SharedFaceState {
                mouth_opening: 0,
                eye_top: 900,
                eye_bottom: 145,
                blink_enabled: true,
                manual_mouth_active: false,
            }),
            r.registry.active_eyes_index == 0,
            r.registry.eyes_variants@.len() == 4,
            r.registry.eyes_variants@[0]@ == "Default Eyes"@,
            r.registry.eyes_variants@[1]@ == "Heart Eyes"@,
            r.registry.eyes_variants@[2]@ == "O Eyes"@,
            r.registry.eyes_variants@[3]@ == "X Eyes"@,
            r.registry.elements@.len() == 6,
            r.registry.elements@[0] == (RegisteredElement {
                element: FaceElement::DefaultEyes(spec_initial_default_eyes()),
                eye_index: Option::Some(0usize),
            }),
            r.registry.elements@[1] == (RegisteredElement {
                element: FaceElement::HeartEyes(spec_initial_heart_eyes()),
                eye_index: Option::Some(1usize),
            }),
            r.registry.elements@[2] == (RegisteredElement {
                element: FaceElement::CircleEyes(spec_initial_circle_eyes()),
                eye_index: Option::Some(2usize),
            }),
            r.registry.elements@[3] == (RegisteredElement {
                element: FaceElement::CrossEyes(spec_initial_cross_eyes()),
                eye_index: Option::Some(3usize),
            }),
            r.registry.elements@[4] == (RegisteredElement {
                element: FaceElement::DefaultMouth(spec_initial_mouth()),
                eye_index: Option::None,
            }),
            r.registry.elements@[5] == (RegisteredElement {
                element: FaceElement::DefaultNose(spec_initial_nose()),
                eye_index: Option::None,
            }),
    {
        let mut registry = FaceElementRegistry::new();
        registry.register(FaceElement::DefaultEyes(DefaultEyes::new()));
        registry.register(FaceElement::HeartEyes(HeartEyes::new()));
        registry.register(FaceElement::CircleEyes(CircleEyes::new()));
        registry.register(FaceElement::CrossEyes(CrossEyes::new()));
        registry.register(FaceElement::DefaultMouth(DefaultMouth::new()));
        registry.register(FaceElement::DefaultNose(DefaultNose::new()));
        ProtogenFace {
            time_counter: 0,
            registry,
            shared_state: SharedFaceState::new(),
            pixel_drawer: PixelDrawer,
        }
    }

    /// Advance one frame and render it.
    ///
    /// The frame counter steps by one whole unit, monotonically; the mask's
    /// blink and manual-mouth switches are copied into the shared state;
    /// every active element updates in registration order; a manual
    /// override then drives the mouth directly from the analog value; and
    /// the cleared canvas receives every active element's writes in the
    /// fixed category order.
    pub fn render(&mut self, canvas: &mut Canvas, inputs: &FrameInputs)
        requires
            old(self).inv(),
            old(self).time_counter + 100 <= TIME_COUNTER_LIMIT,
            inputs.mask.wf(),
        ensures
            final(self).inv(),
            final(self).time_counter == old(self).time_counter + 100,
            final(self).registry.active_eyes_index == old(self).registry.active_eyes_index,
            final(self).registry.eyes_variants@ == old(self).registry.eyes_variants@,
            ({
                let ss0 = SharedFaceState {
                    blink_enabled: inputs.mask.blink_enabled,
                    manual_mouth_active: inputs.mask.manual_mouth_mode,
                    ..old(self).shared_state
                };
                let ui = UpdateInputs {
                    now_secs: inputs.now_secs,
                    audio_level: inputs.audio_level,
                    seconds_idle: inputs.seconds_idle,
                };
                let upd = spec_update_fold(
                    old(self).registry.elements@,
                    ss0,
                    old(self).registry.active_eyes_index as int,
                    ui,
                    old(self).registry.elements@.len() as int,
                );
                let ss2 = if inputs.mask.manual_mouth_mode {
                    SharedFaceState {
                        mouth_opening: (inputs.mask.mouth_analog_value * 6) as i64,
                        ..upd.1
                    }
                } else {
                    upd.1
                };
                &&& final(self).registry.elements@ == upd.0
                &&& final(self).shared_state == ss2
                &&& final(canvas)@ == spec_render_all_writes(
                    upd.0,
                    old(self).registry.active_eyes_index as int,
                    spec_frame_ctx(final(self).time_counter as int, inputs.mask),
                    ss2,
                )
            }),
    {
        self.time_counter = self.time_counter + 100;
        self.shared_state.blink_enabled = inputs.mask.blink_enabled;
        self.shared_state.manual_mouth_active = inputs.mask.manual_mouth_mode;
        let ui = UpdateInputs {
            now_secs: inputs.now_secs,
            audio_level: inputs.audio_level,
            seconds_idle: inputs.seconds_idle,
        };
        self.registry.update_all(&mut self.shared_state, &ui);
        if inputs.mask.manual_mouth_mode {
            self.shared_state.mouth_opening = inputs.mask.mouth_analog_value * 6;
        }
        canvas.clear();
        let context = RenderContext {
            offset_x: 0,
            offset_y: 0,
            time_counter: self.time_counter,
            brightness: inputs.mask.brightness,
            palette: inputs.mask.color_palette,
        };
        self.registry.render_all(canvas, &context, &self.shared_state, &self.pixel_drawer);
    }

    /// Offer a button press to the elements, first registered first.
    pub fn handle_element_button(&mut self, button: GamepadButton) -> (handled: bool)
        requires
            old(self).inv(),
        ensures
            final(self).inv(),
            final(self).registry.elements@ == old(self).registry.elements@,
            final(self).registry.active_eyes_index == old(self).registry.active_eyes_index,
            final(self).registry.eyes_variants@ == old(self).registry.eyes_variants@,
            final(self).time_counter == old(self).time_counter,
            final(self).shared_state == spec_button_fold(
                old(self).registry.elements@,
                old(self).shared_state,
                button,
                old(self).registry.elements@.len() as int,
            ).0,
            handled == spec_button_fold(
                old(self).registry.elements@,
                old(self).shared_state,
                button,
                old(self).registry.elements@.len() as int,
            ).1,
    {
        self.registry.handle_button(button, &mut self.shared_state)
    }

    /// The active eye variant's name, or "None" with no eyes registered.
    pub fn get_active_eyes_name(&self) -> (r: &'static str)
        ensures
            self.registry.active_eyes_index >= self.registry.eyes_variants@.len() ==> r@
                == "None"@,
            self.registry.active_eyes_index < self.registry.eyes_variants@.len() ==> r@
                == self.registry.eyes_variants@[self.registry.active_eyes_index as int]@,
    {
        self.registry.get_active_eyes_name()
    }

    /// The current mouth aperture in centi-units, for status displays.
    pub fn get_mouth_opening(&self) -> (r: i64)
        ensures
            r == self.shared_state.mouth_opening,
    {
        self.shared_state.mouth_opening
    }

    /// Select the next eye variant, wrapping; a no-op with no eyes.
    pub fn cycle_eyes_forward(&mut self)
        ensures
            final(self).registry.elements@ == old(self).registry.elements@,
            final(self).registry.eyes_variants@ == old(self).registry.eyes_variants@,
            final(self).shared_state == old(self).shared_state,
            final(self).time_counter == old(self).time_counter,
            old(self).inv() ==> final(self).inv(),
            old(self).registry.eyes_variants@.len() == 0 ==> final(self).registry.active_eyes_index
                == old(self).registry.active_eyes_index,
            old(self).inv() && old(self).registry.eyes_variants@.len() > 0
                ==> final(self).registry.active_eyes_index as int == (old(
                self,
            ).registry.active_eyes_index + 1) % (old(self).registry.eyes_variants@.len() as int),
    {
        self.registry.cycle_eyes_forward();
    }

    /// Select the previous eye variant, wrapping; a no-op with no eyes.
    pub fn cycle_eyes_backward(&mut self)
        ensures
            final(self).registry.elements@ == old(self).registry.elements@,
            final(self).registry.eyes_variants@ == old(self).registry.eyes_variants@,
            final(self).shared_state == old(self).shared_state,
            final(self).time_counter == old(self).time_counter,
            old(self).inv() ==> final(self).inv(),
            old(self).registry.eyes_variants@.len() == 0 ==> final(self).registry.active_eyes_index
                == old(self).registry.active_eyes_index,
            old(self).inv() && old(self).registry.eyes_variants@.len() > 0
                ==> final(self).registry.active_eyes_index as int == (
            if old(self).registry.active_eyes_index == 0 {
                old(self).registry.eyes_variants@.len() - 1
            } else {
                old(self).registry.active_eyes_index - 1
            }),
    {
        self.registry.cycle_eyes_backward();
    }
}

/// The active index after `n` forward cycles over `len` eye variants:
/// one application per `cycle_eyes_forward` call, as its contract states.
pub open spec fn spec_cycle_forward_n(active: int, len: int, n: nat) -> int
    decreases n,
{
    if n == 0 {
        active
    } else {
        let p = spec_cycle_forward_n(active, len, (n - 1) as nat);
        if len > 0 {
            (p + 1) % len
        } else {
            p
        }
    }
}

/// After `n` forward cycles the active index is `(active + n) % len`.
proof fn lemma_cycle_forward_n_mod(active: int, len: int, n: nat)
    requires
        0 < len,
        0 <= active < len,
    ensures
        spec_cycle_forward_n(active, len, n) == (active + n) % len,
    decreases n,
{
    if n == 0 {
        vstd::arithmetic::div_mod::lemma_small_mod(active as nat, len as nat);
    } else {
        lemma_cycle_forward_n_mod(active, len, (n - 1) as nat);
        let a = active + n - 1;
        vstd::arithmetic::div_mod::lemma_fundamental_div_mod(a, len);
        vstd::arithmetic::div_mod::lemma_mod_bound(a, len);
        let q = a / len;
        vstd::arithmetic::div_mod::lemma_mod_multiples_vanish(q, a % len + 1, len);
    }
}

/// Cycling forward once per registered eye variant returns the active
/// index, and with it the active eye's name, to its starting value.
pub proof fn lemma_eye_cycle_round_trip(active: int, len: int)
    requires
        0 < len,
        0 <= active < len,
    ensures
        spec_cycle_forward_n(active, len, len as nat) == active,
{
    lemma_cycle_forward_n_mod(active, len, len as nat);
    vstd::arithmetic::div_mod::lemma_mod_add_multiples_vanish(active, len);
    vstd::arithmetic::div_mod::lemma_small_mod(active as nat, len as nat);
}

impl CycleEyes for ProtogenFace {
    open spec fn eye_variant_count(&self) -> int {
        self.registry.eyes_variants@.len() as int
    }

    open spec fn active_eye_index(&self) -> int {
        self.registry.active_eyes_index as int
    }

    fn cycle_eyes_forward(&mut self) {
        self.registry.cycle_eyes_forward();
    }

    fn cycle_eyes_backward(&mut self) {
        self.registry.cycle_eyes_backward();
    }
}

} // verus!
