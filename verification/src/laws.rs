//! What holds of every context and of every frame.

use vstd::prelude::*;
use crate::frame::{
    column, row, scene, FILLED_HALF_EXTENT, GRID_PITCH, OUTLINED_HALF_EXTENT, OUTLINE_STROKE,
};
use crate::geometry::{centered_square, ClientRect, Color, HALF_UNITS};
use crate::handle::Handle;
use crate::message::WM_PAINT;
use crate::model::{AppModel, Surface};
use crate::protocol::{
    Command, Failure, Next, Query, Reply, StepModel, D2DERR_RECREATE_TARGET, S_OK,
};

verus! {

/// Every operation and every answer takes a valid context to a valid
/// context: the resources stay three objects or none, and they never outlive
/// the factory.
pub proof fn lemma_valid_stays_valid(
    app: AppModel,
    reply: Reply,
    hwnd: Handle,
    msg: u32,
    w: u64,
    l: i64,
)
    requires
        app.wf(),
    ensures
        app.setup_class().app.wf(),
        app.setup_window().app.wf(),
        app.pack_app().app.wf(),
        app.setup_d2d_factory().app.wf(),
        app.setup_d2d_resources().app.wf(),
        app.clean_d2d_resources().app.wf(),
        app.clean_d2d().app.wf(),
        app.render_window().app.wf(),
        app.wndproc(hwnd, msg, w, l).app.wf(),
        app.resume(reply).app.wf(),
{
}

/// The context after `n` calls in a row that make sure of the resources.
pub open spec fn after_setups(app: AppModel, n: nat) -> AppModel
    decreases n,
{
    if n == 0 {
        app
    } else {
        after_setups(app, (n - 1) as nat).setup_d2d_resources().app
    }
}

/// While the resources are allocated, making sure of them any number of
/// times allocates nothing: each call asks no question, gives no command and
/// leaves the context, and so the identities of the resources, as they are.
pub proof fn lemma_setup_allocates_once(app: AppModel, n: nat)
    requires
        app.wf(),
        app.idle(),
        app.resources is Some,
    ensures
        after_setups(app, n) == app,
        after_setups(app, n).setup_d2d_resources() == app.stay(Next::Finished),
    decreases n,
{
    if n > 0 {
        lemma_setup_allocates_once(app, (n - 1) as nat);
    }
}

/// Releasing the resources twice releases each object once: the second call
/// gives no command and changes nothing.
pub proof fn lemma_release_twice(app: AppModel)
    requires
        app.wf(),
        app.idle(),
    ensures
        ({
            let first = app.clean_d2d_resources();
            let second = first.app.clean_d2d_resources();
            &&& first.step.commands == app.release_commands()
            &&& first.step.next == Next::Finished
            &&& first.app == AppModel { resources: None, ..app }
            &&& second.app == first.app
            &&& second.step == StepModel::only(Next::Finished)
        }),
{
}

/// After a release the resources can be made again. With a factory and a
/// device that creates what it is asked for, the operation asks for the
/// client area, for a render target of its size and for the gray-blue and
/// the red brush, in this order, and ends with exactly these three objects as
/// the resources of the context.
pub proof fn lemma_resources_are_made_again(
    app: AppModel,
    area: ClientRect,
    target: Handle,
    brush1: Handle,
    brush2: Handle,
)
    requires
        app.wf(),
        app.idle(),
        !app.factory.is_null(),
        !target.is_null(),
        !brush1.is_null(),
        !brush2.is_null(),
    ensures
        ({
            let released = app.clean_d2d_resources().app;
            let asked = released.setup_d2d_resources();
            let sized = asked.app.resume(Reply::ClientArea(area));
            let made = sized.app.resume(Reply::Created { status: S_OK, handle: target });
            let first = made.app.resume(Reply::Created { status: S_OK, handle: brush1 });
            let second = first.app.resume(Reply::Created { status: S_OK, handle: brush2 });
            &&& asked.step == StepModel::only(Next::Ask(Query::ClientArea { window: app.window }))
            &&& sized.step == StepModel::only(
                Next::Ask(
                    Query::CreateRenderTarget {
                        factory: app.factory,
                        window: app.window,
                        width: area.spec_width() as u32,
                        height: area.spec_height() as u32,
                    },
                ),
            )
            &&& made.step == StepModel::only(
                Next::Ask(Query::CreateBrush { target, color: Color::GrayBlue }),
            )
            &&& first.step == StepModel::only(
                Next::Ask(Query::CreateBrush { target, color: Color::Red }),
            )
            &&& second.step == StepModel::only(Next::Finished)
            &&& second.app == AppModel {
                resources: Some(Surface { target, brush1, brush2 }),
                ..app
            }
            &&& second.app.wf()
        }),
{
}

/// Without a factory, making sure of the resources fails and changes
/// nothing, as an operation of its own and for a paint message.
pub proof fn lemma_resources_need_a_factory(app: AppModel, hwnd: Handle, w: u64, l: i64)
    requires
        app.wf(),
        app.idle(),
        app.factory.is_null(),
    ensures
        app.setup_d2d_resources() == app.stay(Next::Failed(Failure::MissingFactory)),
        app.wndproc(hwnd, WM_PAINT, w, l) == app.stay(Next::Failed(Failure::MissingFactory)),
{
}

/// A frame on a target of `width` by `height` units holds `width / 10`
/// vertical grid lines, then `height / 10` horizontal grid lines, then the
/// filled and the outlined square, and nothing else.
pub proof fn lemma_frame_layout(
    target: Handle,
    brush1: Handle,
    brush2: Handle,
    width: u32,
    height: u32,
)
    ensures
        ({
            let frame = scene(target, brush1, brush2, width, height);
            let across = width as int / 10;
            let down = height as int / 10;
            &&& frame.len() == across + down + 2
            &&& forall|k: int| 0 <= k < across ==> frame[k] == column(target, brush1, k, height)
            &&& forall|k: int|
                0 <= k < down ==> #[trigger] frame[across + k] == row(target, brush1, k, width)
            &&& frame[across + down] == Command::FillRect {
                target,
                rect: centered_square(width, height, FILLED_HALF_EXTENT as int),
                brush: brush1,
            }
            &&& frame[across + down + 1] == Command::StrokeRect {
                target,
                rect: centered_square(width, height, OUTLINED_HALF_EXTENT as int),
                brush: brush2,
                stroke: OUTLINE_STROKE,
            }
        }),
{
}

/// The `k`-th vertical grid line runs from the top edge to the bottom edge,
/// `10 * k` units from the left edge; the `k`-th horizontal grid line runs
/// from the left edge to the right edge, `10 * k` units from the top edge.
pub proof fn lemma_grid_line(target: Handle, brush: Handle, k: int, width: u32, height: u32)
    requires
        0 <= k <= u32::MAX / 10,
    ensures
        column(target, brush, k, height) matches Command::Line { from, to, .. } && {
            &&& from.x == HALF_UNITS * (10 * k)
            &&& to.x == from.x
            &&& from.y == 0
            &&& to.y == HALF_UNITS * height
        },
        row(target, brush, k, width) matches Command::Line { from, to, .. } && {
            &&& from.y == HALF_UNITS * (10 * k)
            &&& to.y == from.y
            &&& from.x == 0
            &&& to.x == HALF_UNITS * width
        },
{
    assert(HALF_UNITS * GRID_PITCH * k == 20 * k);
}

/// A square around the centre of a target has its centre at half the width
/// and half the height of the target, and reaches `half_extent` units from
/// it to each side.
pub proof fn lemma_square_is_centered(width: u32, height: u32, half_extent: int)
    requires
        0 <= half_extent <= u16::MAX,
    ensures
        ({
            let rect = centered_square(width, height, half_extent);
            &&& rect.center_x_doubled() == HALF_UNITS * width
            &&& rect.center_y_doubled() == HALF_UNITS * height
            &&& rect.right - rect.left == 2 * (HALF_UNITS * half_extent)
            &&& rect.bottom - rect.top == 2 * (HALF_UNITS * half_extent)
        }),
{
}

/// A paint message on allocated resources draws one frame. Where the device
/// then reports the render target lost, the resources are released, the
/// brushes before the target, and the next paint message sets out to make
/// them again.
pub proof fn lemma_paint_after_device_loss(
    app: AppModel,
    hwnd: Handle,
    w: u64,
    l: i64,
    width: u32,
    height: u32,
)
    requires
        app.wf(),
        app.idle(),
        app.resources is Some,
    ensures
        ({
            let s = app.resources->0;
            let begun = app.wndproc(hwnd, WM_PAINT, w, l);
            let drawn = begun.app.resume(Reply::TargetSize { width, height });
            let lost = drawn.app.resume(Reply::Drawn { status: D2DERR_RECREATE_TARGET });
            let again = lost.app.wndproc(hwnd, WM_PAINT, w, l);
            &&& begun.step.commands == seq![
                Command::BeginDraw { target: s.target },
                Command::Clear { target: s.target, color: Color::White },
                Command::ResetTransform { target: s.target },
            ]
            &&& begun.step.next == Next::Ask(Query::TargetSize { target: s.target })
            &&& drawn.step.commands == scene(s.target, s.brush1, s.brush2, width, height)
            &&& drawn.step.next == Next::Ask(Query::EndDraw { target: s.target })
            &&& lost.step.commands == s.release()
            &&& lost.step.next == Next::Handled
            &&& lost.app == AppModel { resources: None, ..app }
            &&& again.step == StepModel::only(Next::Ask(Query::ClientArea { window: app.window }))
        }),
{
}

} // verus!
