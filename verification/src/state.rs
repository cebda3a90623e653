use vstd::prelude::*;
use crate::event::WindowEvent;
use crate::frame::{frame_plan, spec_frame_plan, FramePlan};
use crate::resources::Resources;
use crate::surface::{Size, SurfaceConfig};

verus! {

/// What the renderer remembers between frames: the window's size, the surface
/// configuration that follows it, and how many frames have begun.
pub struct State {
    size: Size,
    config: SurfaceConfig,
    current_frame: u32,
}

/// The mathematical content of a [`State`].
pub struct StateView {
    pub size: Size,
    pub config: SurfaceConfig,
    pub current_frame: nat,
}

impl StateView {
    /// The surface is configured at the stored size, and that size has no
    /// zero side.
    pub open spec fn wf(self) -> bool {
        &&& self.size.is_presentable()
        &&& self.config == SurfaceConfig::for_size(self.size)
        &&& self.current_frame <= u32::MAX
    }

    /// The state right after initialization at `size`.
    pub open spec fn initial(size: Size) -> StateView {
        StateView { size, config: SurfaceConfig::for_size(size), current_frame: 0 }
    }

    /// The state after a resize to `new_size`: a size with a zero side is
    /// ignored, any other replaces the stored size and configuration.
    pub open spec fn resized(self, new_size: Size) -> StateView {
        if new_size.is_presentable() {
            StateView {
                size: new_size,
                config: SurfaceConfig::for_size(new_size),
                current_frame: self.current_frame,
            }
        } else {
            self
        }
    }

    /// The plan of the frame that begins next: it carries the counter as it
    /// will be once that frame has begun.
    pub open spec fn next_plan(self) -> FramePlan {
        spec_frame_plan((self.current_frame + 1) as u32)
    }

    /// The state after one more frame has begun.
    pub open spec fn rendered(self) -> StateView {
        StateView { current_frame: self.current_frame + 1, ..self }
    }

    /// The state after `n` more frames have begun.
    pub open spec fn rendered_times(self, n: nat) -> StateView
        decreases n,
    {
        if n == 0 {
            self
        } else {
            self.rendered_times((n - 1) as nat).rendered()
        }
    }
}

impl View for State {
    type V = StateView;

    closed spec fn view(&self) -> StateView {
        StateView {
            size: self.size,
            config: self.config,
            current_frame: self.current_frame as nat,
        }
    }
}

impl State {
    /// Holds of every state that exists at run time.
    #[verifier::type_invariant]
    pub open spec fn inv(&self) -> bool {
        self@.wf()
    }

    /// Initializes the renderer for a window of size `size`: the state starts
    /// at frame zero with the surface configured at that size, and with it
    /// come the resources to allocate.
    pub fn new(size: Size) -> (created: (State, Resources))
        requires
            size.is_presentable(),
        ensures
            created.0@ == StateView::initial(size),
            created.0@.wf(),
            created.1.planned_for(size),
            created.1.config == created.0@.config,
    {
        let resources = Resources::plan(size);
        (State { size, config: resources.config, current_frame: 0 }, resources)
    }

    /// The stored window size.
    pub fn size(&self) -> (size: Size)
        ensures
            size == self@.size,
            self@.wf(),
    {
        proof {
            use_type_invariant(self);
        }
        self.size
    }

    /// The stored surface configuration.
    pub fn config(&self) -> (config: SurfaceConfig)
        ensures
            config == self@.config,
            self@.wf(),
    {
        proof {
            use_type_invariant(self);
        }
        self.config
    }

    /// How many frames have begun.
    pub fn current_frame(&self) -> (frame: u32)
        ensures
            frame == self@.current_frame,
            self@.wf(),
    {
        proof {
            use_type_invariant(self);
        }
        self.current_frame
    }

    /// Takes a new window size. Returns the configuration to apply to the
    /// surface, or `None` where the size has a zero side and nothing changes.
    pub fn resize(&mut self, new_size: Size) -> (reconfigure: Option<SurfaceConfig>)
        ensures
            final(self)@ == old(self)@.resized(new_size),
            final(self)@.wf(),
            new_size.is_presentable() ==> reconfigure == Some(SurfaceConfig::for_size(new_size)),
            !new_size.is_presentable() ==> reconfigure.is_none() && final(self)@ == old(self)@,
    {
        proof {
            use_type_invariant(&*self);
        }
        if new_size.width > 0 && new_size.height > 0 {
            let config = SurfaceConfig::for_size(new_size);
            *self = State { size: new_size, config, current_frame: self.current_frame };
            Some(config)
        } else {
            None
        }
    }

    /// Offers a window event to the renderer, which consumes none.
    pub fn input(&mut self, event: &WindowEvent) -> (consumed: bool)
        ensures
            !consumed,
            final(self)@ == old(self)@,
    {
        false
    }

    /// Advances the scene between frames; the scene has nothing to advance.
    pub fn update(&mut self)
        ensures
            final(self)@ == old(self)@,
    {
    }

    /// Begins the next frame: counts it and says what to record for it.
    pub fn render(&mut self) -> (plan: FramePlan)
        requires
            old(self)@.current_frame < u32::MAX,
        ensures
            final(self)@ == old(self)@.rendered(),
            final(self)@.wf(),
            plan == old(self)@.next_plan(),
            plan.frame == final(self)@.current_frame,
    {
        proof {
            use_type_invariant(&*self);
        }
        let frame: u32 = self.current_frame + 1;
        *self = State { size: self.size, config: self.config, current_frame: frame };
        frame_plan(frame)
    }
}

/// Resizing twice to the same size leaves the state that resizing once
/// leaves, whether or not the size is accepted.
pub proof fn lemma_resize_idempotent(state: StateView, size: Size)
    ensures
        state.resized(size).resized(size) == state.resized(size),
{
}

/// A resize keeps a well-formed state well-formed and never touches the frame
/// counter.
pub proof fn lemma_resize_preserves(state: StateView, size: Size)
    requires
        state.wf(),
    ensures
        state.resized(size).wf(),
        state.resized(size).current_frame == state.current_frame,
{
}

/// After `n` more frames the counter has grown by exactly `n`, and nothing
/// else has changed.
pub proof fn lemma_rendered_times(state: StateView, n: nat)
    ensures
        state.rendered_times(n).current_frame == state.current_frame + n,
        state.rendered_times(n).size == state.size,
        state.rendered_times(n).config == state.config,
    decreases n,
{
    if n > 0 {
        lemma_rendered_times(state, (n - 1) as nat);
    }
}

/// Counting from initialization, the `n`-th frame is planned with the value
/// `n`, and after it the counter stands at `n`: the first frame carries 1,
/// and each later one the next number.
pub proof fn lemma_frame_counter(size: Size, n: nat)
    requires
        1 <= n <= u32::MAX,
    ensures
        StateView::initial(size).rendered_times((n - 1) as nat).next_plan().frame == n,
        StateView::initial(size).rendered_times(n).current_frame == n,
{
    lemma_rendered_times(StateView::initial(size), n);
    lemma_rendered_times(StateView::initial(size), (n - 1) as nat);
}

} // verus!
