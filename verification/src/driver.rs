use vstd::prelude::*;
use crate::event::{Event, WindowEvent};
use crate::frame::FramePlan;
use crate::resources::Resources;
use crate::state::{State, StateView};
use crate::surface::{Size, SurfaceConfig, SurfaceError};

verus! {

/// What the driver asks of the code that owns the window and the device.
#[derive(Clone, Copy, Debug, PartialEq, Eq, Structural)]
pub enum Action {
    /// Nothing to do.
    Idle,
    /// Record and present one frame by this plan, then report how acquiring
    /// the surface image went.
    Render(FramePlan),
    /// Ask the window for another redraw.
    RequestRedraw,
    /// Configure the surface anew with this configuration.
    Configure(SurfaceConfig),
    /// End the event loop.
    Exit,
    /// Report the error and go on; the frame is dropped.
    Report(SurfaceError),
}

/// What the driver is told: an event of the loop, or how the frame that it
/// asked for ended.
#[derive(Clone, Copy, Debug, PartialEq, Eq)]
pub enum Input {
    Event(Event),
    Frame(Result<(), SurfaceError>),
}

/// The renderer's state together with the decision to end the loop.
pub struct Driver {
    state: State,
    exiting: bool,
}

/// The mathematical content of a [`Driver`].
pub struct DriverView {
    pub state: StateView,
    pub exiting: bool,
}

impl DriverView {
    /// The renderer's state is well-formed.
    pub open spec fn wf(self) -> bool {
        self.state.wf()
    }

    /// The driver right after initialization at `size`.
    pub open spec fn initial(size: Size) -> DriverView {
        DriverView { state: StateView::initial(size), exiting: false }
    }

    /// The driver after a resize to `size`, and the action that goes with it.
    pub open spec fn after_resize(self, size: Size) -> (DriverView, Action) {
        (
            DriverView { state: self.state.resized(size), ..self },
            if size.is_presentable() {
                Action::Configure(SurfaceConfig::for_size(size))
            } else {
                Action::Idle
            },
        )
    }

    /// The driver after an event of its own window.
    pub open spec fn after_window_event(self, event: WindowEvent) -> (DriverView, Action) {
        if event.asks_to_exit() {
            (DriverView { exiting: true, ..self }, Action::Exit)
        } else {
            match event.new_size() {
                Some(size) => self.after_resize(size),
                None => (self, Action::Idle),
            }
        }
    }

    /// The driver after an event of the loop. Once it is exiting, it ignores
    /// every event.
    pub open spec fn after_event(self, event: Event) -> (DriverView, Action) {
        if self.exiting {
            (self, Action::Idle)
        } else {
            match event {
                Event::RedrawRequested { own_window: true } => (
                    DriverView { state: self.state.rendered(), ..self },
                    Action::Render(self.state.next_plan()),
                ),
                Event::MainEventsCleared => (self, Action::RequestRedraw),
                Event::Window { own_window: true, event } => self.after_window_event(event),
                _ => (self, Action::Idle),
            }
        }
    }

    /// The driver after a frame ended with `outcome`.
    pub open spec fn after_frame(self, outcome: Result<(), SurfaceError>) -> (DriverView, Action) {
        if self.exiting {
            (self, Action::Idle)
        } else {
            match outcome {
                Ok(_) => (self, Action::Idle),
                Err(SurfaceError::Lost) => self.after_resize(self.state.size),
                Err(SurfaceError::OutOfMemory) => (
                    DriverView { exiting: true, ..self },
                    Action::Exit,
                ),
                Err(error) => (self, Action::Report(error)),
            }
        }
    }

    /// The driver after one input.
    pub open spec fn step(self, input: Input) -> (DriverView, Action) {
        match input {
            Input::Event(event) => self.after_event(event),
            Input::Frame(outcome) => self.after_frame(outcome),
        }
    }

    /// Whether `input` may be handed to the driver: a redraw of its own window
    /// needs room in the frame counter.
    pub open spec fn accepts(self, input: Input) -> bool {
        (!self.exiting && input == Input::Event(Event::RedrawRequested { own_window: true }))
            ==> self.state.current_frame < u32::MAX
    }

    /// The driver after all of `inputs`, in order.
    pub open spec fn run(self, inputs: Seq<Input>) -> DriverView
        decreases inputs.len(),
    {
        if inputs.len() == 0 {
            self
        } else {
            self.run(inputs.drop_last()).step(inputs.last()).0
        }
    }

    /// The actions that `inputs` draw from the driver, one for each input.
    pub open spec fn actions(self, inputs: Seq<Input>) -> Seq<Action> {
        Seq::new(inputs.len(), |i: int| self.run(inputs.take(i)).step(inputs[i]).1)
    }
}

impl View for Driver {
    type V = DriverView;

    closed spec fn view(&self) -> DriverView {
        DriverView { state: self.state@, exiting: self.exiting }
    }
}

impl Driver {
    /// A driver for a window of size `size`, at frame zero and not exiting,
    /// and the resources to allocate for it.
    pub fn new(size: Size) -> (created: (Driver, Resources))
        requires
            size.is_presentable(),
        ensures
            created.0@ == DriverView::initial(size),
            created.0@.wf(),
            created.1.planned_for(size),
    {
        let (state, resources) = State::new(size);
        (Driver { state, exiting: false }, resources)
    }

    /// The renderer's state.
    pub fn state(&self) -> (state: &State)
        ensures
            state@ == self@.state,
            self@.wf(),
    {
        proof {
            use_type_invariant(&self.state);
        }
        &self.state
    }

    /// Whether the driver has decided to end the loop.
    pub fn is_exiting(&self) -> (exiting: bool)
        ensures
            exiting == self@.exiting,
    {
        self.exiting
    }

    /// Handles one event of the loop.
    pub fn handle_event(&mut self, event: Event) -> (action: Action)
        requires
            old(self)@.accepts(Input::Event(event)),
        ensures
            (final(self)@, action) == old(self)@.after_event(event),
            final(self)@.wf(),
    {
        proof {
            use_type_invariant(&self.state);
        }
        if self.exiting {
            return Action::Idle;
        }
        match event {
            Event::RedrawRequested { own_window: true } => {
                self.state.update();
                let plan = self.state.render();
                Action::Render(plan)
            },
            Event::MainEventsCleared => Action::RequestRedraw,
            Event::Window { own_window: true, event } => {
                if self.state.input(&event) {
                    Action::Idle
                } else if event.asks_to_exit() {
                    self.exiting = true;
                    Action::Exit
                } else {
                    match event.new_size() {
                        Some(size) => self.resize(size),
                        None => Action::Idle,
                    }
                }
            },
            _ => Action::Idle,
        }
    }

    /// Handles the end of the frame that the last `Render` action asked for.
    /// A lost surface is configured anew at the stored size, without ending
    /// the loop; running out of memory ends it; any other error is reported.
    pub fn handle_frame(&mut self, outcome: Result<(), SurfaceError>) -> (action: Action)
        ensures
            (final(self)@, action) == old(self)@.after_frame(outcome),
            final(self)@.wf(),
            !old(self)@.exiting && outcome == Err::<(), SurfaceError>(SurfaceError::Lost) ==> {
                &&& action == Action::Configure(old(self)@.state.config)
                &&& final(self)@ == old(self)@
            },
            !old(self)@.exiting && outcome == Err::<(), SurfaceError>(SurfaceError::OutOfMemory)
                ==> {
                &&& action == Action::Exit
                &&& final(self)@.exiting
                &&& final(self)@.state == old(self)@.state
            },
    {
        proof {
            use_type_invariant(&self.state);
        }
        if self.exiting {
            return Action::Idle;
        }
        match outcome {
            Ok(_) => Action::Idle,
            Err(SurfaceError::Lost) => {
                let size = self.state.size();
                self.resize(size)
            },
            Err(SurfaceError::OutOfMemory) => {
                self.exiting = true;
                Action::Exit
            },
            Err(error) => Action::Report(error),
        }
    }

    /// Handles one input, whichever kind it is.
    pub fn step(&mut self, input: Input) -> (action: Action)
        requires
            old(self)@.accepts(input),
        ensures
            (final(self)@, action) == old(self)@.step(input),
            final(self)@.wf(),
    {
        match input {
            Input::Event(event) => self.handle_event(event),
            Input::Frame(outcome) => self.handle_frame(outcome),
        }
    }

    fn resize(&mut self, size: Size) -> (action: Action)
        ensures
            (final(self)@, action) == old(self)@.after_resize(size),
            final(self)@.wf(),
    {
        match self.state.resize(size) {
            Some(config) => Action::Configure(config),
            None => Action::Idle,
        }
    }
}

/// Every action that the driver takes leaves it well-formed.
pub proof fn lemma_step_preserves_wf(driver: DriverView, input: Input)
    requires
        driver.wf(),
        driver.accepts(input),
    ensures
        driver.step(input).0.wf(),
{
}

/// When the surface is lost, the driver configures it anew exactly once, at
/// the size it has stored, keeps its state and does not end the loop.
pub proof fn lemma_surface_lost_reconfigures(driver: DriverView)
    requires
        driver.wf(),
        !driver.exiting,
    ensures
        driver.after_frame(Err(SurfaceError::Lost)) == driver.after_resize(driver.state.size),
        driver.after_frame(Err(SurfaceError::Lost)).1 == Action::Configure(
            SurfaceConfig::for_size(driver.state.size),
        ),
        driver.after_frame(Err(SurfaceError::Lost)).0 == driver,
        !driver.after_frame(Err(SurfaceError::Lost)).0.exiting,
{
}

/// Once the driver is exiting it stays so, takes no further action and
/// changes nothing, whatever it is told.
pub proof fn lemma_exit_is_final(driver: DriverView, inputs: Seq<Input>)
    requires
        driver.exiting,
    ensures
        driver.run(inputs) == driver,
        forall|i: int| 0 <= i < inputs.len() ==> driver.actions(inputs)[i] == Action::Idle,
    decreases inputs.len(),
{
    if inputs.len() > 0 {
        lemma_exit_is_final(driver, inputs.drop_last());
    }
    assert forall|i: int| 0 <= i < inputs.len() implies driver.actions(inputs)[i]
        == Action::Idle by {
        lemma_exit_is_final(driver, inputs.take(i));
    }
}

/// When a frame fails for want of memory, the driver asks for the loop to
/// end, and whatever it is told afterwards it asks for no frame, and for
/// nothing else.
pub proof fn lemma_out_of_memory_ends(driver: DriverView, later: Seq<Input>)
    requires
        !driver.exiting,
    ensures
        driver.after_frame(Err(SurfaceError::OutOfMemory)).1 == Action::Exit,
        driver.after_frame(Err(SurfaceError::OutOfMemory)).0.exiting,
        driver.after_frame(Err(SurfaceError::OutOfMemory)).0.state == driver.state,
        forall|i: int|
            0 <= i < later.len() ==> driver.after_frame(Err(SurfaceError::OutOfMemory)).0.actions(
                later,
            )[i] == Action::Idle,
{
    lemma_exit_is_final(driver.after_frame(Err(SurfaceError::OutOfMemory)).0, later);
}

} // verus!
