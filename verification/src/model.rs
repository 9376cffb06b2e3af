//! The window context as a mathematical value, and its transitions.
//!
//! Every operation of [`crate::context::MyApp`] is one transition: it takes
//! the context to its next value and yields a step. The contracts of the
//! operations and the laws of the lifecycle are stated over these functions.

use vstd::prelude::*;
use crate::frame::scene;
use crate::geometry::Color;
use crate::handle::Handle;
use crate::message::{decode, Message};
use crate::protocol::{device_lost, Command, Failure, Next, Query, Reply, StepModel};
use crate::window::{WINDOW_HEIGHT, WINDOW_WIDTH};

verus! {

/// An allocated set of render resources, as a mathematical value.
pub struct Surface {
    pub target: Handle,
    pub brush1: Handle,
    pub brush2: Handle,
}

impl Surface {
    /// Every handle of the set names an object.
    pub open spec fn wf(self) -> bool {
        &&& !self.target.is_null()
        &&& !self.brush1.is_null()
        &&& !self.brush2.is_null()
    }

    /// The commands that give the set up: the brushes first, then the target.
    pub open spec fn release(self) -> Seq<Command> {
        seq![
            Command::Release { handle: self.brush1 },
            Command::Release { handle: self.brush2 },
            Command::Release { handle: self.target },
        ]
    }
}

/// The answer that a context awaits.
#[derive(Clone, Copy, PartialEq, Eq, Debug)]
pub enum Pending {
    /// None: the context is idle.
    Nothing,
    /// The atom of the window class.
    Class,
    /// The new window.
    Window,
    /// The new factory.
    Factory,
    /// The client area of the window, to size the render target.
    ClientArea { paint: bool },
    /// The new render target.
    RenderTarget { paint: bool },
    /// The first brush, on the render target that was just created.
    FirstBrush { target: Handle, paint: bool },
    /// The second brush.
    SecondBrush { target: Handle, brush1: Handle, paint: bool },
    /// The size of the render target, to lay the frame out.
    TargetSize { paint: bool },
    /// The status with which the frame ended.
    EndDraw { paint: bool },
}

/// What the window procedure does with a message while no context can take
/// it: the creation of the window empties its association slot, its
/// destruction ends the message loop, and every other message is left to the
/// default window procedure.
pub open spec fn detached(window: Handle, message: Message) -> StepModel {
    match message {
        Message::Create => StepModel {
            commands: seq![Command::Detach { window }],
            next: Next::Handled,
        },
        Message::Destroy => StepModel { commands: seq![Command::PostQuit], next: Next::Handled },
        _ => StepModel::only(Next::Forward),
    }
}

/// The effect of one call on a context: the context after it and the step
/// that the call returns.
pub struct Transition {
    pub app: AppModel,
    pub step: StepModel,
}

/// A window context as a mathematical value.
pub struct AppModel {
    /// The window; null until it is created.
    pub window: Handle,
    /// The graphics factory; null while there is none.
    pub factory: Handle,
    /// The render resources, where they are allocated.
    pub resources: Option<Surface>,
    /// The answer that the context awaits. With `paint` set, the operation
    /// answers a paint message: it goes on to draw a frame and ends as the
    /// window procedure does.
    pub pending: Pending,
}

impl AppModel {
    /// The context before anything is set up.
    pub open spec fn initial() -> AppModel {
        AppModel {
            window: Handle(0),
            factory: Handle(0),
            resources: None,
            pending: Pending::Nothing,
        }
    }

    /// No answer is awaited.
    pub open spec fn idle(self) -> bool {
        self.pending is Nothing
    }

    /// Allocated resources name objects and come from a factory; what is
    /// awaited fits what is there.
    pub open spec fn wf(self) -> bool {
        &&& self.resources matches Some(s) ==> s.wf() && !self.factory.is_null()
        &&& match self.pending {
            Pending::Nothing | Pending::Class | Pending::Window => true,
            Pending::Factory => self.factory.is_null(),
            Pending::ClientArea { .. } | Pending::RenderTarget { .. } => {
                self.resources is None && !self.factory.is_null()
            },
            Pending::FirstBrush { target, .. } => {
                self.resources is None && !self.factory.is_null() && !target.is_null()
            },
            Pending::SecondBrush { target, brush1, .. } => {
                &&& self.resources is None
                &&& !self.factory.is_null()
                &&& !target.is_null()
                &&& !brush1.is_null()
            },
            Pending::TargetSize { .. } | Pending::EndDraw { .. } => self.resources is Some,
        }
    }

    /// Nothing changes and nothing is to be done but to take note of `next`.
    pub open spec fn stay(self, next: Next) -> Transition {
        Transition { app: self, step: StepModel::only(next) }
    }

    /// The operation ends with `next` and no answer is awaited any more.
    pub open spec fn end(self, commands: Seq<Command>, next: Next) -> Transition {
        Transition {
            app: AppModel { pending: Pending::Nothing, ..self },
            step: StepModel { commands, next },
        }
    }

    /// The question is asked and its answer awaited.
    pub open spec fn ask(self, pending: Pending, query: Query) -> Transition {
        Transition { app: AppModel { pending, ..self }, step: StepModel::only(Next::Ask(query)) }
    }

    /// The commands that give the render resources up, if there are any.
    pub open spec fn release_commands(self) -> Seq<Command> {
        match self.resources {
            Some(s) => s.release(),
            None => Seq::empty(),
        }
    }

    /// The commands that give the factory up, if there is one.
    pub open spec fn release_factory(self) -> Seq<Command> {
        if self.factory.is_null() {
            Seq::empty()
        } else {
            seq![Command::Release { handle: self.factory }]
        }
    }

    /// A frame is begun on the allocated render target: it is cleared to
    /// white, and its size is asked for.
    pub open spec fn begin_frame(self, paint: bool) -> Transition {
        match self.resources {
            Some(s) => Transition {
                app: AppModel { pending: Pending::TargetSize { paint }, ..self },
                step: StepModel {
                    commands: seq![
                        Command::BeginDraw { target: s.target },
                        Command::Clear { target: s.target, color: Color::White },
                        Command::ResetTransform { target: s.target },
                    ],
                    next: Next::Ask(Query::TargetSize { target: s.target }),
                },
            },
            None => self.stay(Next::Failed(Failure::MissingResources)),
        }
    }

    /// The resources are made sure of. Where they are allocated nothing is
    /// asked for. Without a factory the operation fails. Else the client area
    /// of the window is asked for, to size the render target.
    pub open spec fn begin_resources(self, paint: bool) -> Transition {
        if self.resources is Some {
            if paint {
                self.begin_frame(true)
            } else {
                self.stay(Next::Finished)
            }
        } else if self.factory.is_null() {
            self.stay(Next::Failed(Failure::MissingFactory))
        } else {
            self.ask(Pending::ClientArea { paint }, Query::ClientArea { window: self.window })
        }
    }

    /// The effect of [`crate::context::MyApp::setup_class`].
    pub open spec fn setup_class(self) -> Transition {
        if !self.idle() {
            self.stay(Next::Failed(Failure::Busy))
        } else {
            self.ask(Pending::Class, Query::RegisterClass)
        }
    }

    /// The effect of [`crate::context::MyApp::setup_window`].
    pub open spec fn setup_window(self) -> Transition {
        if !self.idle() {
            self.stay(Next::Failed(Failure::Busy))
        } else {
            self.ask(
                Pending::Window,
                Query::CreateWindow { outer_width: WINDOW_WIDTH, outer_height: WINDOW_HEIGHT },
            )
        }
    }

    /// The effect of [`crate::context::MyApp::pack_app`].
    pub open spec fn pack_app(self) -> Transition {
        if !self.idle() {
            self.stay(Next::Failed(Failure::Busy))
        } else {
            self.end(seq![Command::Attach { window: self.window }], Next::Finished)
        }
    }

    /// The effect of [`crate::context::MyApp::setup_d2d_factory`].
    pub open spec fn setup_d2d_factory(self) -> Transition {
        if !self.idle() {
            self.stay(Next::Failed(Failure::Busy))
        } else if !self.factory.is_null() {
            self.stay(Next::Finished)
        } else {
            self.ask(Pending::Factory, Query::CreateFactory)
        }
    }

    /// The effect of [`crate::context::MyApp::setup_d2d_resources`].
    pub open spec fn setup_d2d_resources(self) -> Transition {
        if !self.idle() {
            self.stay(Next::Failed(Failure::Busy))
        } else {
            self.begin_resources(false)
        }
    }

    /// The effect of [`crate::context::MyApp::clean_d2d_resources`].
    pub open spec fn clean_d2d_resources(self) -> Transition {
        if !self.idle() {
            self.stay(Next::Failed(Failure::Busy))
        } else {
            AppModel { resources: None, ..self }.end(self.release_commands(), Next::Finished)
        }
    }

    /// The effect of [`crate::context::MyApp::clean_d2d`].
    pub open spec fn clean_d2d(self) -> Transition {
        if !self.idle() {
            self.stay(Next::Failed(Failure::Busy))
        } else {
            AppModel { resources: None, factory: Handle(0), ..self }.end(
                self.release_commands() + self.release_factory(),
                Next::Finished,
            )
        }
    }

    /// The effect of [`crate::context::MyApp::render_window`].
    pub open spec fn render_window(self) -> Transition {
        if !self.idle() {
            self.stay(Next::Failed(Failure::Busy))
        } else {
            self.begin_frame(false)
        }
    }

    /// The effect of [`crate::context::MyApp::wndproc`].
    ///
    /// A paint message makes sure of the resources and draws a frame. A size
    /// message gives the render target the new size, where there is one, and
    /// is left to the default window procedure where there is none. A context
    /// that awaits an answer takes no message: the message is dealt with as
    /// if no context were attached.
    pub open spec fn wndproc(self, hwnd: Handle, msg: u32, w: u64, l: i64) -> Transition {
        let message = decode(msg, l);
        if !self.idle() {
            Transition { app: self, step: detached(hwnd, message) }
        } else {
            match message {
                Message::Paint => self.begin_resources(true),
                Message::Size { width, height } => match self.resources {
                    Some(s) => Transition {
                        app: self,
                        step: StepModel {
                            commands: seq![Command::Resize { target: s.target, width, height }],
                            next: Next::Handled,
                        },
                    },
                    None => self.stay(Next::Forward),
                },
                _ => Transition { app: self, step: detached(hwnd, message) },
            }
        }
    }

    /// The effect of [`crate::context::MyApp::resume`] while the atom of the
    /// class is awaited.
    pub open spec fn resume_class(self, reply: Reply) -> Transition {
        match reply {
            Reply::Atom(atom) => if atom == 0 {
                self.end(Seq::empty(), Next::Failed(Failure::ClassRegistration))
            } else {
                self.end(Seq::empty(), Next::Finished)
            },
            _ => self.stay(Next::Failed(Failure::UnexpectedReply)),
        }
    }

    /// The effect of [`crate::context::MyApp::resume`] while the window is awaited.
    pub open spec fn resume_window(self, reply: Reply) -> Transition {
        match reply {
            Reply::Window(window) => if window.is_null() {
                self.end(Seq::empty(), Next::Failed(Failure::WindowCreation))
            } else {
                AppModel { window, ..self }.end(Seq::empty(), Next::Finished)
            },
            _ => self.stay(Next::Failed(Failure::UnexpectedReply)),
        }
    }

    /// The effect of [`crate::context::MyApp::resume`] while the factory is awaited.
    pub open spec fn resume_factory(self, reply: Reply) -> Transition {
        match reply {
            Reply::Created { status, handle } => if reply.created() {
                AppModel { factory: handle, ..self }.end(Seq::empty(), Next::Finished)
            } else {
                self.end(Seq::empty(), Next::Failed(Failure::FactoryCreation))
            },
            _ => self.stay(Next::Failed(Failure::UnexpectedReply)),
        }
    }

    /// The effect of [`crate::context::MyApp::resume`] while the client area is awaited: a
    /// render target of that size is asked for.
    pub open spec fn resume_client_area(self, paint: bool, reply: Reply) -> Transition {
        match reply {
            Reply::ClientArea(area) => self.ask(
                Pending::RenderTarget { paint },
                Query::CreateRenderTarget {
                    factory: self.factory,
                    window: self.window,
                    width: area.spec_width() as u32,
                    height: area.spec_height() as u32,
                },
            ),
            _ => self.stay(Next::Failed(Failure::UnexpectedReply)),
        }
    }

    /// The effect of [`crate::context::MyApp::resume`] while the render target is awaited:
    /// the first brush is asked for.
    pub open spec fn resume_render_target(self, paint: bool, reply: Reply) -> Transition {
        match reply {
            Reply::Created { status, handle } => if reply.created() {
                self.ask(
                    Pending::FirstBrush { target: handle, paint },
                    Query::CreateBrush { target: handle, color: Color::GrayBlue },
                )
            } else {
                self.end(Seq::empty(), Next::Failed(Failure::RenderTargetCreation))
            },
            _ => self.stay(Next::Failed(Failure::UnexpectedReply)),
        }
    }

    /// The effect of [`crate::context::MyApp::resume`] while the first brush is awaited: the
    /// second brush is asked for. Where the brush was not created, the render
    /// target is given up again.
    pub open spec fn resume_first_brush(
        self,
        target: Handle,
        paint: bool,
        reply: Reply,
    ) -> Transition {
        match reply {
            Reply::Created { status, handle } => if reply.created() {
                self.ask(
                    Pending::SecondBrush { target, brush1: handle, paint },
                    Query::CreateBrush { target, color: Color::Red },
                )
            } else {
                self.end(
                    seq![Command::Release { handle: target }],
                    Next::Failed(Failure::BrushCreation),
                )
            },
            _ => self.stay(Next::Failed(Failure::UnexpectedReply)),
        }
    }

    /// The effect of [`crate::context::MyApp::resume`] while the second brush is awaited: the
    /// three objects become the resources of the context. Where the brush was
    /// not created, the first brush and the render target are given up again.
    pub open spec fn resume_second_brush(
        self,
        target: Handle,
        brush1: Handle,
        paint: bool,
        reply: Reply,
    ) -> Transition {
        match reply {
            Reply::Created { status, handle } => if reply.created() {
                let app = AppModel {
                    resources: Some(Surface { target, brush1, brush2: handle }),
                    pending: Pending::Nothing,
                    ..self
                };
                if paint {
                    app.begin_frame(true)
                } else {
                    app.stay(Next::Finished)
                }
            } else {
                self.end(
                    seq![Command::Release { handle: brush1 }, Command::Release { handle: target }],
                    Next::Failed(Failure::BrushCreation),
                )
            },
            _ => self.stay(Next::Failed(Failure::UnexpectedReply)),
        }
    }

    /// The effect of [`crate::context::MyApp::resume`] while the size of the target is
    /// awaited: the frame is laid out for that size and then ended.
    pub open spec fn resume_target_size(self, paint: bool, reply: Reply) -> Transition {
        match (reply, self.resources) {
            (Reply::TargetSize { width, height }, Some(s)) => Transition {
                app: AppModel { pending: Pending::EndDraw { paint }, ..self },
                step: StepModel {
                    commands: scene(s.target, s.brush1, s.brush2, width, height),
                    next: Next::Ask(Query::EndDraw { target: s.target }),
                },
            },
            _ => self.stay(Next::Failed(Failure::UnexpectedReply)),
        }
    }

    /// The effect of [`crate::context::MyApp::resume`] while the end of the frame is awaited.
    /// A frame of its own ends with the status. A frame that answers a paint
    /// message ends the message; where the status reports the render target
    /// lost, the resources are released first.
    pub open spec fn resume_end_draw(self, paint: bool, reply: Reply) -> Transition {
        match reply {
            Reply::Drawn { status } => if !paint {
                self.end(Seq::empty(), Next::Rendered { status })
            } else if device_lost(status) {
                AppModel { resources: None, ..self }.end(self.release_commands(), Next::Handled)
            } else {
                self.end(Seq::empty(), Next::Handled)
            },
            _ => self.stay(Next::Failed(Failure::UnexpectedReply)),
        }
    }

    /// The effect of [`crate::context::MyApp::resume`]: the answer is taken for the question
    /// that was asked last. An answer of another kind, or one that nothing
    /// awaits, is refused and changes nothing.
    pub open spec fn resume(self, reply: Reply) -> Transition {
        match self.pending {
            Pending::Nothing => self.stay(Next::Failed(Failure::UnexpectedReply)),
            Pending::Class => self.resume_class(reply),
            Pending::Window => self.resume_window(reply),
            Pending::Factory => self.resume_factory(reply),
            Pending::ClientArea { paint } => self.resume_client_area(paint, reply),
            Pending::RenderTarget { paint } => self.resume_render_target(paint, reply),
            Pending::FirstBrush { target, paint } => self.resume_first_brush(target, paint, reply),
            Pending::SecondBrush { target, brush1, paint } => self.resume_second_brush(
                target,
                brush1,
                paint,
                reply,
            ),
            Pending::TargetSize { paint } => self.resume_target_size(paint, reply),
            Pending::EndDraw { paint } => self.resume_end_draw(paint, reply),
        }
    }
}

} // verus!
