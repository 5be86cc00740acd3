use vstd::prelude::*;

use crate::fit::{fit, fitted, FitMode};
use crate::raster::{background_color, build_frame, Frame, Picture, RawImage};
use crate::window::{Input, Window};

verus! {

/// The two states of the render loop; `Stopped` is final.
#[derive(Clone, Copy, Debug, PartialEq, Eq, Structural)]
pub enum LoopState {
    Running,
    Stopped,
}

/// The state after a tick that began in `state` and polled `polled`.
pub open spec fn successor(state: LoopState, polled: Option<Input>) -> LoopState {
    if state is Running && !(polled is Some) {
        LoopState::Running
    } else {
        LoopState::Stopped
    }
}

/// Decides the loop's next state from what the backend's poll returned.
pub fn next_state(state: LoopState, polled: Option<Input>) -> (r: LoopState)
    ensures
        r == successor(state, polled),
{
    match state {
        LoopState::Stopped => LoopState::Stopped,
        LoopState::Running => match polled {
            Some(Input::Quit) => LoopState::Stopped,
            None => LoopState::Running,
        },
    }
}

/// Once stopped, the loop stays stopped whatever is polled; while running,
/// it stops exactly when a quit is polled.
pub proof fn lemma_stop_is_final(state: LoopState, polled: Option<Input>)
    ensures
        state is Stopped ==> successor(state, polled) is Stopped,
        state is Running ==> (successor(state, polled) is Stopped <==> polled is Some),
{
}

/// The viewer: a decoded source image shown in a fixed-size window.
pub struct Application<W: Window> {
    image: RawImage,
    window: W,
    width: u16,
    height: u16,
    mode: FitMode,
    state: LoopState,
}

impl<W: Window> Application<W> {
    pub closed spec fn source(&self) -> Picture {
        self.image@
    }

    pub closed spec fn width(&self) -> nat {
        self.width as nat
    }

    pub closed spec fn height(&self) -> nat {
        self.height as nat
    }

    pub closed spec fn mode(&self) -> FitMode {
        self.mode
    }

    pub closed spec fn state(&self) -> LoopState {
        self.state
    }

    pub closed spec fn wf(&self) -> bool {
        self.image.wf()
    }

    /// Opens a `width` by `height` window for `image`, ready to run; fails
    /// with the backend's message when the window cannot be opened.
    pub fn init(image: RawImage, width: u16, height: u16, mode: FitMode) -> (r: Result<Self, String>)
        requires
            image.wf(),
        ensures
            r matches Ok(app) ==> {
                &&& app.wf()
                &&& app.source() == image@
                &&& app.width() == width
                &&& app.height() == height
                &&& app.mode() == mode
                &&& app.state() == LoopState::Running
            },
    {
        match W::init(width, height) {
            Ok(window) => Ok(Self::with_window(window, image, width, height, mode)),
            Err(e) => Err(e),
        }
    }

    /// Puts `image` in front of a backend that is already open on a `width`
    /// by `height` window.
    pub fn with_window(window: W, image: RawImage, width: u16, height: u16, mode: FitMode) -> (r:
        Self)
        requires
            image.wf(),
        ensures
            r.wf(),
            r.source() == image@,
            r.width() == width,
            r.height() == height,
            r.mode() == mode,
            r.state() == LoopState::Running,
    {
        Application { image, window, width, height, mode, state: LoopState::Running }
    }

    /// The backend.
    pub fn window(&self) -> &W {
        &self.window
    }

    /// Whether the loop is still running.
    pub fn is_running(&self) -> (r: bool)
        ensures
            r == (self.state() == LoopState::Running),
    {
        self.state == LoopState::Running
    }

    /// This tick's frame: the source fitted to the window on a white
    /// background.
    pub fn present(&self) -> (r: Frame)
        requires
            self.wf(),
        ensures
            r.background == background_color(),
            r.image.wf(),
            r.image@ == fitted(self.source(), self.width(), self.height(), self.mode()),
            r.image.width <= self.width(),
            r.image.height <= self.height(),
    {
        build_frame(fit(&self.image, self.width, self.height, self.mode))
    }

    /// One iteration of the loop: polls the backend, and unless that stops
    /// the loop, renders a fresh frame. Does nothing once stopped. Returns
    /// whether the loop still runs.
    pub fn tick(&mut self) -> (running: bool)
        requires
            old(self).wf(),
        ensures
            final(self).wf(),
            final(self).source() == old(self).source(),
            final(self).width() == old(self).width(),
            final(self).height() == old(self).height(),
            final(self).mode() == old(self).mode(),
            running == (final(self).state() == LoopState::Running),
            old(self).state() == LoopState::Stopped ==> final(self).state() == LoopState::Stopped,
            exists|polled: Option<Input>| final(self).state() == successor(old(self).state(), polled),
    {
        if self.state == LoopState::Stopped {
            assert(self.state == successor(self.state, None));
            return false;
        }
        let polled = self.window.handle_events();
        self.state = next_state(self.state, polled);
        if self.state == LoopState::Running {
            let frame = self.present();
            self.window.render(frame);
            true
        } else {
            false
        }
    }
}

} // verus!
