//! What the context asks of its surroundings, and what they answer.
//!
//! The context performs no I/O. Each call returns a [`Step`]: commands to
//! carry out in order, and then either one question, whose answer goes back
//! into [`crate::context::MyApp::resume`], or the result of the operation.

use vstd::prelude::*;
use crate::geometry::{ClientRect, Color, Point, Rect};
use crate::handle::Handle;

verus! {

/// The status with which the graphics device reports success.
pub const S_OK: i32 = 0;

/// The status with which the graphics device reports that the render target
/// is lost and has to be created again (`0x8899000C` as a signed number).
pub const D2DERR_RECREATE_TARGET: i32 = -2003238900;

/// The result that the window procedure returns for a message it handled.
pub const HANDLED: i64 = 1;

/// Something to carry out, with no answer expected.
#[derive(Clone, Copy, PartialEq, Eq, Debug)]
pub enum Command {
    /// Associate the context with the window, so that messages reach it.
    Attach { window: Handle },
    /// Empty the window's association slot: no context is attached.
    Detach { window: Handle },
    /// Ask the message loop to end with exit status 0.
    PostQuit,
    /// Give the render target a new size in pixels.
    Resize { target: Handle, width: u32, height: u32 },
    /// Give up the object; its handle is not used again.
    Release { handle: Handle },
    /// Start a frame on the render target.
    BeginDraw { target: Handle },
    /// Fill the whole target with one colour.
    Clear { target: Handle, color: Color },
    /// Draw in the target's own coordinates, without any transform.
    ResetTransform { target: Handle },
    /// Stroke a straight line; `stroke` is its width in half units.
    Line { target: Handle, from: Point, to: Point, brush: Handle, stroke: u32 },
    /// Fill a rectangle.
    FillRect { target: Handle, rect: Rect, brush: Handle },
    /// Stroke the outline of a rectangle; `stroke` is its width in half units.
    StrokeRect { target: Handle, rect: Rect, brush: Handle, stroke: u32 },
}

/// Something to carry out whose answer decides how the operation goes on.
#[derive(Clone, Copy, PartialEq, Eq, Debug)]
pub enum Query {
    /// Register the window class under the name
    /// [`crate::window::class_name`]: redrawn as a whole when its width or
    /// its height changes, with the arrow cursor, without a background brush,
    /// and with room for the association slot. Answered by [`Reply::Atom`].
    RegisterClass,
    /// Create the window of that class with the title
    /// [`crate::window::window_name`]: an overlapped window with the standard
    /// frame, resizable, composited, visible, at the position that the window
    /// system picks and with the given outer size. Answered by
    /// [`Reply::Window`].
    CreateWindow { outer_width: i32, outer_height: i32 },
    /// Create a single-threaded graphics factory. Answered by
    /// [`Reply::Created`].
    CreateFactory,
    /// Read the client area of the window. Answered by [`Reply::ClientArea`].
    ClientArea { window: Handle },
    /// Create a render target of the given pixel size, bound to the window:
    /// of the default kind, with premultiplied 32-bit BGRA pixels, at the
    /// resolution of the desktop. Answered by [`Reply::Created`].
    CreateRenderTarget { factory: Handle, window: Handle, width: u32, height: u32 },
    /// Create a solid brush of the colour on the render target. Answered by
    /// [`Reply::Created`].
    CreateBrush { target: Handle, color: Color },
    /// Read the size of the render target, in whole units. Answered by
    /// [`Reply::TargetSize`].
    TargetSize { target: Handle },
    /// End the frame and present it. Answered by [`Reply::Drawn`].
    EndDraw { target: Handle },
}

/// The answer to a [`Query`].
#[derive(Clone, Copy, PartialEq, Eq, Debug)]
pub enum Reply {
    /// The class atom; zero when the registration failed.
    Atom(u16),
    /// The new window; null when the creation failed.
    Window(Handle),
    /// The status of a creation and the object it made.
    Created { status: i32, handle: Handle },
    /// The client area of the window.
    ClientArea(ClientRect),
    /// The size of the render target.
    TargetSize { width: u32, height: u32 },
    /// The status with which the frame ended.
    Drawn { status: i32 },
}

impl Reply {
    /// Whether the answer reports an object that was created: the status is
    /// [`S_OK`] and the handle names an object.
    pub open spec fn created(self) -> bool {
        self matches Reply::Created { status, handle } && status == S_OK && !handle.is_null()
    }

    /// The object that the answer reports as created, if it reports one.
    pub fn created_handle(self) -> (object: Option<Handle>)
        ensures
            object is Some <==> self.created(),
            object matches Some(h) ==> self matches Reply::Created { handle, .. } && h == handle,
    {
        match self {
            Reply::Created { status, handle } => {
                if status == S_OK && !handle.is_null() {
                    Some(handle)
                } else {
                    None
                }
            },
            _ => None,
        }
    }
}

/// Why an operation could not be completed.
#[derive(Clone, Copy, PartialEq, Eq, Debug)]
pub enum Failure {
    /// The window class was not registered.
    ClassRegistration,
    /// The window was not created.
    WindowCreation,
    /// The graphics factory was not created.
    FactoryCreation,
    /// Resources were asked for before there was a factory.
    MissingFactory,
    /// The render target was not created.
    RenderTargetCreation,
    /// A brush was not created.
    BrushCreation,
    /// A frame was asked for while no resources were allocated.
    MissingResources,
    /// An operation was begun while another one awaited its answer.
    Busy,
    /// The answer is not one that the context awaits.
    UnexpectedReply,
}

impl Failure {
    /// The diagnostic text of the failure.
    pub open spec fn spec_message(self) -> Seq<char> {
        match self {
            Failure::ClassRegistration => "Could not register class!"@,
            Failure::WindowCreation => "Could not create window"@,
            Failure::FactoryCreation => "Could not create D2D1 factory."@,
            Failure::MissingFactory => "Cannot initialize resources without a factory!"@,
            Failure::RenderTargetCreation => "Could not create render target."@,
            Failure::BrushCreation => "Could not create brush!"@,
            Failure::MissingResources => "Cannot render without resources!"@,
            Failure::Busy => "Another operation awaits its answer."@,
            Failure::UnexpectedReply => "No operation awaits this answer."@,
        }
    }

    /// The diagnostic text of the failure.
    pub fn message(self) -> (text: &'static str)
        ensures
            text@ == self.spec_message(),
    {
        match self {
            Failure::ClassRegistration => "Could not register class!",
            Failure::WindowCreation => "Could not create window",
            Failure::FactoryCreation => "Could not create D2D1 factory.",
            Failure::MissingFactory => "Cannot initialize resources without a factory!",
            Failure::RenderTargetCreation => "Could not create render target.",
            Failure::BrushCreation => "Could not create brush!",
            Failure::MissingResources => "Cannot render without resources!",
            Failure::Busy => "Another operation awaits its answer.",
            Failure::UnexpectedReply => "No operation awaits this answer.",
        }
    }
}

/// How an operation goes on after the commands of a step.
#[derive(Clone, Copy, PartialEq, Eq, Debug)]
pub enum Next {
    /// The answer to this question is awaited.
    Ask(Query),
    /// The operation is complete.
    Finished,
    /// The frame is complete; `status` is what the graphics device reported
    /// at its end.
    Rendered { status: i32 },
    /// The message is handled; the window procedure returns [`HANDLED`].
    Handled,
    /// The message is left to the default window procedure.
    Forward,
    /// The operation failed and is over.
    Failed(Failure),
}

/// What one call of the context asks of its caller, as a mathematical value.
pub struct StepModel {
    pub commands: Seq<Command>,
    pub next: Next,
}

impl StepModel {
    /// The step that has no commands.
    pub open spec fn only(next: Next) -> StepModel {
        StepModel { commands: Seq::empty(), next }
    }
}

/// What one call of the context asks of its caller: the commands are carried
/// out in order, then `next` says how the operation goes on.
#[derive(PartialEq, Eq, Debug)]
pub struct Step {
    pub commands: Vec<Command>,
    pub next: Next,
}

impl View for Step {
    type V = StepModel;

    open spec fn view(&self) -> StepModel {
        StepModel { commands: self.commands@, next: self.next }
    }
}

impl Step {
    /// The step that has no commands.
    pub fn only(next: Next) -> (step: Step)
        ensures
            step@ == StepModel::only(next),
    {
        Step { commands: Vec::new(), next }
    }
}

/// Whether the status reports that the render target is lost.
pub open spec fn spec_device_lost(status: i32) -> bool {
    status == D2DERR_RECREATE_TARGET
}

/// Whether the status reports that the render target is lost and has to be
/// created again.
#[verifier::when_used_as_spec(spec_device_lost)]
pub fn device_lost(status: i32) -> (lost: bool)
    ensures
        lost == spec_device_lost(status),
{
    status == D2DERR_RECREATE_TARGET
}

} // verus!
