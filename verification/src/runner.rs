//! What the event loop asks of the program, and what the program answers.

use vstd::prelude::*;
use crate::app::{App, AppView, Dispatch};
use crate::context::{configuration_spec, Context, SurfaceCapabilities, SurfaceConfiguration};
use crate::grid::GRID_SIZE;

verus! {

/// An event for a window, as far as the program tells events apart.
#[derive(Clone, Copy, Debug, PartialEq, Eq)]
pub enum WindowEvent {
    /// The user asked to close the window.
    CloseRequested,
    /// The window's inner size changed to the given one, in pixels.
    Resized { width: u32, height: u32 },
    /// The window wants to be drawn.
    RedrawRequested,
    /// Any other event.
    Other,
}

/// What the event loop is to do after an event.
#[derive(Clone, Copy, Debug, PartialEq, Eq)]
pub enum Response {
    /// Leave the loop.
    Exit,
    /// The size was taken; configure the surface again where `configure`
    /// says so.
    Resized { configure: bool },
    /// Draw a frame, after the dispatch of a generation where there is one.
    Redraw { dispatch: Option<Dispatch> },
    /// Nothing.
    Ignored,
}

/// The program between the events: nothing before the loop has resumed, a
/// context and a frame loop's state after.
#[derive(Clone, Copy, Debug, PartialEq, Eq)]
pub struct Runner {
    context: Option<Context>,
    app: Option<App>,
}

impl Runner {
    /// The context, once the loop has resumed.
    pub closed spec fn context_spec(&self) -> Option<Context> {
        self.context
    }

    /// The frame loop's state, once the loop has resumed.
    pub closed spec fn app_spec(&self) -> Option<App> {
        self.app
    }

    /// The loop has resumed: there is a context, and with it a frame loop's
    /// state.
    pub open spec fn running(&self) -> bool {
        self.context_spec().is_some()
    }

    /// The context and the frame loop's state come together.
    pub open spec fn wf(&self) -> bool {
        self.context_spec().is_some() == self.app_spec().is_some()
    }

    #[verifier::type_invariant]
    spec fn inv(&self) -> bool {
        self.wf()
    }

    /// The answer to `event` for a running program, and the state after it.
    /// `own` says whether the event is for the program's window; `now` is
    /// the time on the caller's clock, in nanoseconds.
    pub open spec fn handles(
        &self,
        own: bool,
        event: WindowEvent,
        now: u64,
        after: Runner,
        response: Response,
    ) -> bool {
        let context = self.context_spec().unwrap();
        let app = self.app_spec().unwrap();
        if !own {
            after == *self && response == Response::Ignored
        } else {
            match event {
                WindowEvent::CloseRequested => after == *self && response == Response::Exit,
                WindowEvent::Resized { width, height } => {
                    let configure = width > 0 && height > 0;
                    &&& response == (Response::Resized { configure })
                    &&& after.app_spec() == self.app_spec()
                    &&& after.context_spec().is_some()
                    &&& !configure ==> after == *self
                    &&& configure ==> after.context_spec().unwrap().size_spec() == (width, height)
                    &&& configure ==> after.context_spec().unwrap().config_spec()
                        == (SurfaceConfiguration {
                        width,
                        height,
                        ..context.config_spec()
                    })
                },
                WindowEvent::RedrawRequested => {
                    &&& after.context_spec() == self.context_spec()
                    &&& after.app_spec().is_some()
                    &&& after.app_spec().unwrap()@ == app@.after_update(now)
                    &&& response == (Response::Redraw { dispatch: app@.dispatch_at(now) })
                },
                WindowEvent::Other => after == *self && response == Response::Ignored,
            }
        }
    }

    /// A program whose loop has not resumed yet.
    pub fn new() -> (runner: Runner)
        ensures
            runner.context_spec().is_none(),
            runner.app_spec().is_none(),
            !runner.running(),
    {
        Runner { context: None, app: None }
    }

    /// The loop has resumed at `now` with a window of the given size whose
    /// surface offers `capabilities`. The first time, the program gets its
    /// context and the state of a frame loop that starts at `now`. A program
    /// that is running already stays as it is: its context, its counter and
    /// its timer are made once.
    pub fn resumed(&mut self, width: u32, height: u32, capabilities: &SurfaceCapabilities, now: u64)
        requires
            !old(self).running() ==> capabilities.formats_srgb@.len() > 0,
            !old(self).running() ==> capabilities.alpha_modes > 0,
        ensures
            final(self).running(),
            final(self).wf(),
            old(self).running() ==> *final(self) == *old(self),
            !old(self).running() ==> final(self).context_spec().unwrap().size_spec() == (
                width,
                height,
            ),
            !old(self).running() ==> final(self).context_spec().unwrap().config_spec()
                == configuration_spec(width, height, *capabilities),
            !old(self).running() ==> final(self).app_spec().unwrap()@ == AppView::start(
                GRID_SIZE,
                now,
            ),
    {
        proof {
            use_type_invariant(&*self);
        }
        if self.context.is_none() {
            *self = Runner {
                context: Some(Context::new(width, height, capabilities)),
                app: Some(App::new(GRID_SIZE, now)),
            };
        }
    }

    /// Answers an event. One for another window is ignored. A request to
    /// close ends the loop; a new size goes to the context; a request to
    /// redraw asks the frame loop at `now` whether a generation is due and
    /// has a frame drawn either way; anything else is ignored.
    pub fn window_event(&mut self, own: bool, event: WindowEvent, now: u64) -> (response: Response)
        requires
            old(self).running(),
            own && event == WindowEvent::RedrawRequested && old(self).app_spec().unwrap()@.due(now)
                ==> old(self).app_spec().unwrap()@.step < u32::MAX,
        ensures
            final(self).running(),
            final(self).wf(),
            old(self).handles(own, event, now, *final(self), response),
    {
        proof {
            use_type_invariant(&*self);
        }
        if !own {
            return Response::Ignored;
        }
        match event {
            WindowEvent::CloseRequested => Response::Exit,
            WindowEvent::Resized { width, height } => {
                let mut context = self.context.unwrap();
                let configure = context.resize(width, height);
                self.context = Some(context);
                Response::Resized { configure }
            },
            WindowEvent::RedrawRequested => {
                let mut app = self.app.unwrap();
                let dispatch = app.update(now);
                self.app = Some(app);
                Response::Redraw { dispatch }
            },
            WindowEvent::Other => Response::Ignored,
        }
    }

    /// The context, once the loop has resumed.
    pub fn context(&self) -> (context: Option<Context>)
        ensures
            context == self.context_spec(),
            context.is_some() == self.running(),
            self.wf(),
    {
        proof {
            use_type_invariant(self);
        }
        self.context
    }

    /// The frame loop's state, once the loop has resumed.
    pub fn app(&self) -> (app: Option<App>)
        ensures
            app == self.app_spec(),
            app.is_some() == self.running(),
            self.wf(),
    {
        proof {
            use_type_invariant(self);
        }
        self.app
    }
}

} // verus!
