//! The window context and the lifecycle of its render resources.
//!
//! A context owns the handle of its window, of the graphics factory and of
//! the render resources: a render target and two brushes, which exist either
//! all three or not at all. The context performs no I/O. Every operation
//! returns a [`Step`]; where the step ends in a question, the answer is handed
//! to [`MyApp::resume`], which returns the next step.

use vstd::prelude::*;
use crate::frame::draw_scene;
use crate::geometry::Color;
use crate::handle::Handle;
use crate::message::{decode_message, Message};
use crate::model::{detached, AppModel, Pending, Surface};
use crate::protocol::{
    device_lost, Command, Failure, Next, Query, Reply, Step, StepModel,
};
use crate::window::{WINDOW_HEIGHT, WINDOW_WIDTH};

verus! {

/// The render resources of a window: a render target bound to its client
/// area and two brushes. Either all three are allocated or none is.
#[derive(Debug)]
pub struct MyAppResources {
    render_target: Handle,
    brush1: Handle,
    brush2: Handle,
}

impl View for MyAppResources {
    type V = Option<Surface>;

    closed spec fn view(&self) -> Option<Surface> {
        if self.render_target.is_null() {
            None
        } else {
            Some(
                Surface {
                    target: self.render_target,
                    brush1: self.brush1,
                    brush2: self.brush2,
                },
            )
        }
    }
}

impl MyAppResources {
    /// The three handles name objects, or all three are null.
    #[verifier::type_invariant]
    closed spec fn all_or_none(&self) -> bool {
        if self.render_target.is_null() {
            self.brush1.is_null() && self.brush2.is_null()
        } else {
            !self.brush1.is_null() && !self.brush2.is_null()
        }
    }

    /// No resources.
    pub fn released() -> (resources: MyAppResources)
        ensures
            resources@ is None,
    {
        MyAppResources {
            render_target: Handle::null(),
            brush1: Handle::null(),
            brush2: Handle::null(),
        }
    }

    /// The three objects as resources.
    fn allocated(target: Handle, brush1: Handle, brush2: Handle) -> (resources: MyAppResources)
        requires
            !target.is_null(),
            !brush1.is_null(),
            !brush2.is_null(),
        ensures
            resources@ == Some(Surface { target, brush1, brush2 }),
    {
        MyAppResources { render_target: target, brush1, brush2 }
    }

    /// Whether the resources are allocated. Allocated resources name three
    /// objects.
    pub fn is_allocated(&self) -> (allocated: bool)
        ensures
            allocated == (self@ is Some),
            self@ matches Some(s) ==> s.wf(),
    {
        proof {
            use_type_invariant(self);
        }
        !self.render_target.is_null()
    }

    /// The render target; null while the resources are released.
    pub fn render_target(&self) -> (handle: Handle)
        ensures
            handle == match self@ {
                Some(s) => s.target,
                None => Handle(0),
            },
    {
        self.render_target
    }

    /// The first brush; null while the resources are released.
    pub fn brush1(&self) -> (handle: Handle)
        ensures
            handle == match self@ {
                Some(s) => s.brush1,
                None => Handle(0),
            },
    {
        proof {
            use_type_invariant(self);
        }
        self.brush1
    }

    /// The second brush; null while the resources are released.
    pub fn brush2(&self) -> (handle: Handle)
        ensures
            handle == match self@ {
                Some(s) => s.brush2,
                None => Handle(0),
            },
    {
        proof {
            use_type_invariant(self);
        }
        self.brush2
    }

    /// Appends the commands that give the resources up: the brushes first,
    /// then the render target.
    fn release(&self, commands: &mut Vec<Command>)
        ensures
            final(commands)@ == old(commands)@ + match self@ {
                Some(s) => s.release(),
                None => Seq::empty(),
            },
    {
        if !self.render_target.is_null() {
            commands.push(Command::Release { handle: self.brush1 });
            commands.push(Command::Release { handle: self.brush2 });
            commands.push(Command::Release { handle: self.render_target });
        }
    }
}

/// The context of the window: its handle, the graphics factory and the
/// render resources.
#[derive(Debug)]
pub struct MyApp {
    resources: MyAppResources,
    factory: Handle,
    hwnd: Handle,
    pending: Pending,
}

impl View for MyApp {
    type V = AppModel;

    closed spec fn view(&self) -> AppModel {
        AppModel {
            window: self.hwnd,
            factory: self.factory,
            resources: self.resources@,
            pending: self.pending,
        }
    }
}

impl MyApp {
    /// The context is a valid one: see [`AppModel::wf`].
    #[verifier::type_invariant]
    closed spec fn valid(&self) -> bool {
        self@.wf()
    }

    /// The context before anything is set up: no window, no factory, no
    /// resources.
    pub fn new() -> (app: MyApp)
        ensures
            app@ == AppModel::initial(),
    {
        MyApp {
            resources: MyAppResources::released(),
            factory: Handle::null(),
            hwnd: Handle::null(),
            pending: Pending::Nothing,
        }
    }

    /// Begins a frame on the allocated render target.
    fn begin_frame(&mut self, paint: bool) -> (step: Step)
        requires
            old(self)@.idle(),
        ensures
            final(self)@.wf(),
            final(self)@ == old(self)@.begin_frame(paint).app,
            step@ == old(self)@.begin_frame(paint).step,
    {
        proof {
            use_type_invariant(&*self);
            use_type_invariant(&self.resources);
        }
        if !self.resources.is_allocated() {
            return Step::only(Next::Failed(Failure::MissingResources));
        }
        let target = self.resources.render_target();
        let mut commands: Vec<Command> = Vec::new();
        commands.push(Command::BeginDraw { target });
        commands.push(Command::Clear { target, color: Color::White });
        commands.push(Command::ResetTransform { target });
        self.pending = Pending::TargetSize { paint };
        let step = Step { commands, next: Next::Ask(Query::TargetSize { target }) };
        assert(step@.commands =~= old(self)@.begin_frame(paint).step.commands);
        step
    }

    /// Makes sure of the resources, for an operation of its own or for a
    /// paint message.
    fn begin_resources(&mut self, paint: bool) -> (step: Step)
        requires
            old(self)@.idle(),
        ensures
            final(self)@.wf(),
            final(self)@ == old(self)@.begin_resources(paint).app,
            step@ == old(self)@.begin_resources(paint).step,
    {
        proof {
            use_type_invariant(&*self);
            use_type_invariant(&self.resources);
        }
        if self.resources.is_allocated() {
            if paint {
                self.begin_frame(true)
            } else {
                Step::only(Next::Finished)
            }
        } else if self.factory.is_null() {
            Step::only(Next::Failed(Failure::MissingFactory))
        } else {
            self.pending = Pending::ClientArea { paint };
            Step::only(Next::Ask(Query::ClientArea { window: self.hwnd }))
        }
    }

    /// Makes sure that the render resources exist.
    ///
    /// Where they are allocated, nothing is asked for and nothing changes.
    /// Without a factory the operation fails with
    /// [`Failure::MissingFactory`]. Else the step asks for the client area of
    /// the window; the answers that follow lead through the creation of a
    /// render target of that size and of the two brushes.
    pub fn setup_d2d_resources(&mut self) -> (step: Step)
        ensures
            final(self)@.wf(),
            final(self)@ == old(self)@.setup_d2d_resources().app,
            step@ == old(self)@.setup_d2d_resources().step,
            old(self)@.idle() && old(self)@.resources is Some ==> {
                &&& final(self)@ == old(self)@
                &&& step@ == StepModel::only(Next::Finished)
            },
            old(self)@.idle() && old(self)@.factory.is_null() ==> {
                &&& final(self)@ == old(self)@
                &&& step@ == StepModel::only(Next::Failed(Failure::MissingFactory))
            },
    {
        proof {
            use_type_invariant(&*self);
            use_type_invariant(&self.resources);
        }
        if !self.is_idle() {
            return Step::only(Next::Failed(Failure::Busy));
        }
        self.begin_resources(false)
    }

    /// Registers the window class: the step asks for the registration, and
    /// the answer to it fails the operation with
    /// [`Failure::ClassRegistration`] where the atom is zero.
    pub fn setup_class(&mut self) -> (step: Step)
        ensures
            final(self)@.wf(),
            final(self)@ == old(self)@.setup_class().app,
            step@ == old(self)@.setup_class().step,
    {
        proof {
            use_type_invariant(&*self);
            use_type_invariant(&self.resources);
        }
        if !self.is_idle() {
            return Step::only(Next::Failed(Failure::Busy));
        }
        self.pending = Pending::Class;
        Step::only(Next::Ask(Query::RegisterClass))
    }

    /// Creates the window: the step asks for a window of the fixed initial
    /// size. The answer to it becomes the window of the context, or fails the
    /// operation with [`Failure::WindowCreation`] where it is null.
    pub fn setup_window(&mut self) -> (step: Step)
        ensures
            final(self)@.wf(),
            final(self)@ == old(self)@.setup_window().app,
            step@ == old(self)@.setup_window().step,
    {
        proof {
            use_type_invariant(&*self);
            use_type_invariant(&self.resources);
        }
        if !self.is_idle() {
            return Step::only(Next::Failed(Failure::Busy));
        }
        self.pending = Pending::Window;
        Step::only(
            Next::Ask(
                Query::CreateWindow { outer_width: WINDOW_WIDTH, outer_height: WINDOW_HEIGHT },
            ),
        )
    }

    /// Attaches the context to its window, so that the messages of the
    /// window reach it.
    pub fn pack_app(&mut self) -> (step: Step)
        ensures
            final(self)@.wf(),
            final(self)@ == old(self)@.pack_app().app,
            step@ == old(self)@.pack_app().step,
    {
        proof {
            use_type_invariant(&*self);
            use_type_invariant(&self.resources);
        }
        if !self.is_idle() {
            return Step::only(Next::Failed(Failure::Busy));
        }
        let mut commands: Vec<Command> = Vec::new();
        commands.push(Command::Attach { window: self.hwnd });
        Step { commands, next: Next::Finished }
    }

    /// Makes sure that the graphics factory exists.
    ///
    /// Where there is one, nothing is asked for and nothing changes. Else the
    /// step asks for a factory; the answer to it becomes the factory of the
    /// context, or fails the operation with [`Failure::FactoryCreation`].
    pub fn setup_d2d_factory(&mut self) -> (step: Step)
        ensures
            final(self)@.wf(),
            final(self)@ == old(self)@.setup_d2d_factory().app,
            step@ == old(self)@.setup_d2d_factory().step,
    {
        proof {
            use_type_invariant(&*self);
            use_type_invariant(&self.resources);
        }
        if !self.is_idle() {
            return Step::only(Next::Failed(Failure::Busy));
        }
        if !self.factory.is_null() {
            return Step::only(Next::Finished);
        }
        self.pending = Pending::Factory;
        Step::only(Next::Ask(Query::CreateFactory))
    }

    /// Releases the render resources: the brushes first, then the render
    /// target. Where none are allocated, the step holds no command.
    pub fn clean_d2d_resources(&mut self) -> (step: Step)
        ensures
            final(self)@.wf(),
            final(self)@ == old(self)@.clean_d2d_resources().app,
            step@ == old(self)@.clean_d2d_resources().step,
            old(self)@.idle() ==> final(self)@.resources is None,
            old(self)@.idle() && old(self)@.resources is None ==> {
                &&& final(self)@ == old(self)@
                &&& step@ == StepModel::only(Next::Finished)
            },
    {
        proof {
            use_type_invariant(&*self);
            use_type_invariant(&self.resources);
        }
        if !self.is_idle() {
            return Step::only(Next::Failed(Failure::Busy));
        }
        let mut commands: Vec<Command> = Vec::new();
        self.resources.release(&mut commands);
        self.resources = MyAppResources::released();
        Step { commands, next: Next::Finished }
    }

    /// Releases the render resources and then the factory, each where it
    /// exists.
    pub fn clean_d2d(&mut self) -> (step: Step)
        ensures
            final(self)@.wf(),
            final(self)@ == old(self)@.clean_d2d().app,
            step@ == old(self)@.clean_d2d().step,
    {
        proof {
            use_type_invariant(&*self);
            use_type_invariant(&self.resources);
        }
        if !self.is_idle() {
            return Step::only(Next::Failed(Failure::Busy));
        }
        let mut commands: Vec<Command> = Vec::new();
        self.resources.release(&mut commands);
        self.resources = MyAppResources::released();
        if !self.factory.is_null() {
            commands.push(Command::Release { handle: self.factory });
            self.factory = Handle::null();
        }
        let step = Step { commands, next: Next::Finished };
        assert(step@.commands =~= old(self)@.clean_d2d().step.commands);
        step
    }

    /// Draws one frame on the allocated render target.
    ///
    /// The step begins the frame, clears it to white and asks for the size of
    /// the target. The answer to that lays out the grid and the two squares
    /// and asks for the end of the frame; the answer to that ends the
    /// operation with [`Next::Rendered`] and the status of the device.
    /// Without resources the operation fails with
    /// [`Failure::MissingResources`].
    pub fn render_window(&mut self) -> (step: Step)
        ensures
            final(self)@.wf(),
            final(self)@ == old(self)@.render_window().app,
            step@ == old(self)@.render_window().step,
    {
        proof {
            use_type_invariant(&*self);
            use_type_invariant(&self.resources);
        }
        if !self.is_idle() {
            return Step::only(Next::Failed(Failure::Busy));
        }
        self.begin_frame(false)
    }

    /// The window procedure of an attached context: takes the message with
    /// identifier `msg` and parameters `w` and `l`, sent to the window `hwnd`.
    ///
    /// A paint message makes sure of the resources and draws a frame, and
    /// releases the resources again where the device reports the render
    /// target lost. A size message gives the new size to the render target,
    /// where one is allocated. The destruction of the window ends the message
    /// loop, its creation empties its association slot. Every other message
    /// is left to the default window procedure.
    pub fn wndproc(&mut self, hwnd: Handle, msg: u32, w: u64, l: i64) -> (step: Step)
        ensures
            final(self)@.wf(),
            final(self)@ == old(self)@.wndproc(hwnd, msg, w, l).app,
            step@ == old(self)@.wndproc(hwnd, msg, w, l).step,
    {
        proof {
            use_type_invariant(&*self);
            use_type_invariant(&self.resources);
        }
        let message = decode_message(msg, l);
        if !self.is_idle() {
            return dispatch_detached(hwnd, message);
        }
        match message {
            Message::Paint => self.begin_resources(true),
            Message::Size { width, height } => {
                if self.resources.is_allocated() {
                    let mut commands: Vec<Command> = Vec::new();
                    commands.push(
                        Command::Resize { target: self.resources.render_target(), width, height },
                    );
                    Step { commands, next: Next::Handled }
                } else {
                    Step::only(Next::Forward)
                }
            },
            _ => dispatch_detached(hwnd, message),
        }
    }

    /// Takes the answer to the question that the last step asked, and
    /// returns the next step of the operation.
    ///
    /// An answer of another kind than the one awaited, or one that nothing
    /// awaits, is refused with [`Failure::UnexpectedReply`] and changes
    /// nothing. A creation that did not succeed ends the operation with its
    /// failure, after the objects that the operation had created so far are
    /// released.
    pub fn resume(&mut self, reply: Reply) -> (step: Step)
        ensures
            final(self)@.wf(),
            final(self)@ == old(self)@.resume(reply).app,
            step@ == old(self)@.resume(reply).step,
    {
        proof {
            use_type_invariant(&*self);
            use_type_invariant(&self.resources);
        }
        match self.pending {
            Pending::Nothing => Step::only(Next::Failed(Failure::UnexpectedReply)),
            Pending::Class => self.resume_class(reply),
            Pending::Window => self.resume_window(reply),
            Pending::Factory => self.resume_factory(reply),
            Pending::ClientArea { paint } => self.resume_client_area(paint, reply),
            Pending::RenderTarget { paint } => self.resume_render_target(paint, reply),
            Pending::FirstBrush { target, paint } => self.resume_first_brush(target, paint, reply),
            Pending::SecondBrush { target, brush1, paint } => self.resume_second_brush(
                target,
                brush1,
                paint,
                reply,
            ),
            Pending::TargetSize { paint } => self.resume_target_size(paint, reply),
            Pending::EndDraw { paint } => self.resume_end_draw(paint, reply),
        }
    }

    /// Takes the atom of the window class.
    fn resume_class(&mut self, reply: Reply) -> (step: Step)
        requires
            old(self)@.pending is Class,
        ensures
            final(self)@.wf(),
            final(self)@ == old(self)@.resume_class(reply).app,
            step@ == old(self)@.resume_class(reply).step,
    {
        proof {
            use_type_invariant(&*self);
            use_type_invariant(&self.resources);
        }
        match reply {
            Reply::Atom(atom) => {
                self.pending = Pending::Nothing;
                if atom == 0 {
                    Step::only(Next::Failed(Failure::ClassRegistration))
                } else {
                    Step::only(Next::Finished)
                }
            },
            _ => Step::only(Next::Failed(Failure::UnexpectedReply)),
        }
    }

    /// Takes the new window.
    fn resume_window(&mut self, reply: Reply) -> (step: Step)
        requires
            old(self)@.pending is Window,
        ensures
            final(self)@.wf(),
            final(self)@ == old(self)@.resume_window(reply).app,
            step@ == old(self)@.resume_window(reply).step,
    {
        proof {
            use_type_invariant(&*self);
            use_type_invariant(&self.resources);
        }
        match reply {
            Reply::Window(window) => {
                self.pending = Pending::Nothing;
                if window.is_null() {
                    Step::only(Next::Failed(Failure::WindowCreation))
                } else {
                    self.hwnd = window;
                    Step::only(Next::Finished)
                }
            },
            _ => Step::only(Next::Failed(Failure::UnexpectedReply)),
        }
    }

    /// Takes the new factory.
    fn resume_factory(&mut self, reply: Reply) -> (step: Step)
        requires
            old(self)@.pending is Factory,
        ensures
            final(self)@.wf(),
            final(self)@ == old(self)@.resume_factory(reply).app,
            step@ == old(self)@.resume_factory(reply).step,
    {
        proof {
            use_type_invariant(&*self);
            use_type_invariant(&self.resources);
        }
        match reply {
            Reply::Created { .. } => {
                self.pending = Pending::Nothing;
                match reply.created_handle() {
                    Some(factory) => {
                        self.factory = factory;
                        Step::only(Next::Finished)
                    },
                    None => Step::only(Next::Failed(Failure::FactoryCreation)),
                }
            },
            _ => Step::only(Next::Failed(Failure::UnexpectedReply)),
        }
    }

    /// Takes the client area and asks for a render target of its size.
    fn resume_client_area(&mut self, paint: bool, reply: Reply) -> (step: Step)
        requires
            old(self)@.pending == (Pending::ClientArea { paint }),
        ensures
            final(self)@.wf(),
            final(self)@ == old(self)@.resume_client_area(paint, reply).app,
            step@ == old(self)@.resume_client_area(paint, reply).step,
    {
        proof {
            use_type_invariant(&*self);
            use_type_invariant(&self.resources);
        }
        match reply {
            Reply::ClientArea(area) => {
                self.pending = Pending::RenderTarget { paint };
                Step::only(
                    Next::Ask(
                        Query::CreateRenderTarget {
                            factory: self.factory,
                            window: self.hwnd,
                            width: area.width(),
                            height: area.height(),
                        },
                    ),
                )
            },
            _ => Step::only(Next::Failed(Failure::UnexpectedReply)),
        }
    }

    /// Takes the new render target and asks for the first brush.
    fn resume_render_target(&mut self, paint: bool, reply: Reply) -> (step: Step)
        requires
            old(self)@.pending == (Pending::RenderTarget { paint }),
        ensures
            final(self)@.wf(),
            final(self)@ == old(self)@.resume_render_target(paint, reply).app,
            step@ == old(self)@.resume_render_target(paint, reply).step,
    {
        proof {
            use_type_invariant(&*self);
            use_type_invariant(&self.resources);
        }
        match reply {
            Reply::Created { .. } => {
                match reply.created_handle() {
                    Some(target) => {
                        self.pending = Pending::FirstBrush { target, paint };
                        Step::only(
                            Next::Ask(Query::CreateBrush { target, color: Color::GrayBlue }),
                        )
                    },
                    None => {
                        self.pending = Pending::Nothing;
                        Step::only(Next::Failed(Failure::RenderTargetCreation))
                    },
                }
            },
            _ => Step::only(Next::Failed(Failure::UnexpectedReply)),
        }
    }

    /// Takes the first brush and asks for the second.
    fn resume_first_brush(
        &mut self,
        target: Handle,
        paint: bool,
        reply: Reply,
    ) -> (step: Step)
        requires
            old(self)@.pending == (Pending::FirstBrush { target, paint }),
        ensures
            final(self)@.wf(),
            final(self)@ == old(self)@.resume_first_brush(target, paint, reply).app,
            step@ == old(self)@.resume_first_brush(target, paint, reply).step,
    {
        proof {
            use_type_invariant(&*self);
            use_type_invariant(&self.resources);
        }
        match reply {
            Reply::Created { .. } => {
                match reply.created_handle() {
                    Some(brush1) => {
                        self.pending = Pending::SecondBrush { target, brush1, paint };
                        Step::only(Next::Ask(Query::CreateBrush { target, color: Color::Red }))
                    },
                    None => {
                        self.pending = Pending::Nothing;
                        let mut commands: Vec<Command> = Vec::new();
                        commands.push(Command::Release { handle: target });
                        Step { commands, next: Next::Failed(Failure::BrushCreation) }
                    },
                }
            },
            _ => Step::only(Next::Failed(Failure::UnexpectedReply)),
        }
    }

    /// Takes the second brush: the three objects become the resources.
    fn resume_second_brush(
        &mut self,
        target: Handle,
        brush1: Handle,
        paint: bool,
        reply: Reply,
    ) -> (step: Step)
        requires
            old(self)@.pending == (Pending::SecondBrush { target, brush1, paint }),
        ensures
            final(self)@.wf(),
            final(self)@ == old(self)@.resume_second_brush(target, brush1, paint, reply).app,
            step@ == old(self)@.resume_second_brush(target, brush1, paint, reply).step,
    {
        proof {
            use_type_invariant(&*self);
            use_type_invariant(&self.resources);
        }
        match reply {
            Reply::Created { .. } => {
                self.pending = Pending::Nothing;
                match reply.created_handle() {
                    Some(brush2) => {
                        self.resources = MyAppResources::allocated(target, brush1, brush2);
                        if paint {
                            self.begin_frame(true)
                        } else {
                            Step::only(Next::Finished)
                        }
                    },
                    None => {
                        let mut commands: Vec<Command> = Vec::new();
                        commands.push(Command::Release { handle: brush1 });
                        commands.push(Command::Release { handle: target });
                        let step = Step { commands, next: Next::Failed(Failure::BrushCreation) };
                        assert(step@.commands =~= seq![
                            Command::Release { handle: brush1 },
                            Command::Release { handle: target },
                        ]);
                        step
                    },
                }
            },
            _ => Step::only(Next::Failed(Failure::UnexpectedReply)),
        }
    }

    /// Takes the size of the target and lays the frame out.
    fn resume_target_size(&mut self, paint: bool, reply: Reply) -> (step: Step)
        requires
            old(self)@.pending == (Pending::TargetSize { paint }),
        ensures
            final(self)@.wf(),
            final(self)@ == old(self)@.resume_target_size(paint, reply).app,
            step@ == old(self)@.resume_target_size(paint, reply).step,
    {
        proof {
            use_type_invariant(&*self);
            use_type_invariant(&self.resources);
        }
        match reply {
            Reply::TargetSize { width, height } => {
                let target = self.resources.render_target();
                let commands = draw_scene(
                    target,
                    self.resources.brush1(),
                    self.resources.brush2(),
                    width,
                    height,
                );
                self.pending = Pending::EndDraw { paint };
                Step { commands, next: Next::Ask(Query::EndDraw { target }) }
            },
            _ => Step::only(Next::Failed(Failure::UnexpectedReply)),
        }
    }

    /// Takes the status with which the frame ended.
    fn resume_end_draw(&mut self, paint: bool, reply: Reply) -> (step: Step)
        requires
            old(self)@.pending == (Pending::EndDraw { paint }),
        ensures
            final(self)@.wf(),
            final(self)@ == old(self)@.resume_end_draw(paint, reply).app,
            step@ == old(self)@.resume_end_draw(paint, reply).step,
    {
        proof {
            use_type_invariant(&*self);
            use_type_invariant(&self.resources);
        }
        match reply {
            Reply::Drawn { status } => {
                self.pending = Pending::Nothing;
                let mut commands: Vec<Command> = Vec::new();
                if !paint {
                    Step { commands, next: Next::Rendered { status } }
                } else {
                    if device_lost(status) {
                        self.resources.release(&mut commands);
                        self.resources = MyAppResources::released();
                    }
                    Step { commands, next: Next::Handled }
                }
            },
            _ => Step::only(Next::Failed(Failure::UnexpectedReply)),
        }
    }

    /// Whether no answer is awaited. A context is a valid one at all times.
    pub fn is_idle(&self) -> (idle: bool)
        ensures
            idle == self@.idle(),
            self@.wf(),
    {
        proof {
            use_type_invariant(self);
        }
        match self.pending {
            Pending::Nothing => true,
            _ => false,
        }
    }

    /// The answer that the context awaits.
    pub fn pending(&self) -> (pending: Pending)
        ensures
            pending == self@.pending,
    {
        self.pending
    }

    /// The window; null until it is created.
    pub fn hwnd(&self) -> (window: Handle)
        ensures
            window == self@.window,
    {
        self.hwnd
    }

    /// The graphics factory; null while there is none.
    pub fn factory(&self) -> (factory: Handle)
        ensures
            factory == self@.factory,
    {
        self.factory
    }

    /// The render resources.
    pub fn resources(&self) -> (resources: &MyAppResources)
        ensures
            resources@ == self@.resources,
    {
        &self.resources
    }
}

/// Deals with a message that no context takes.
fn dispatch_detached(hwnd: Handle, message: Message) -> (step: Step)
    ensures
        step@ == detached(hwnd, message),
{
    match message {
        Message::Create => {
            let mut commands: Vec<Command> = Vec::new();
            commands.push(Command::Detach { window: hwnd });
            Step { commands, next: Next::Handled }
        },
        Message::Destroy => {
            let mut commands: Vec<Command> = Vec::new();
            commands.push(Command::PostQuit);
            Step { commands, next: Next::Handled }
        },
        _ => Step::only(Next::Forward),
    }
}

/// The window procedure while no context is attached to the window: takes
/// the message with identifier `msg` and parameters `w` and `l`, sent to the
/// window `hwnd`.
///
/// The creation of the window empties its association slot, its destruction
/// ends the message loop, and every other message is left to the default
/// window procedure.
pub fn wndproc_detached(hwnd: Handle, msg: u32, w: u64, l: i64) -> (step: Step)
    ensures
        step@ == detached(hwnd, crate::message::decode(msg, l)),
{
    dispatch_detached(hwnd, decode_message(msg, l))
}

} // verus!
