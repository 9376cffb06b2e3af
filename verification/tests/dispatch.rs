use d2d_window::context::{wndproc_detached, MyApp};
use d2d_window::frame::draw_scene;
use d2d_window::geometry::{ClientRect, Color};
use d2d_window::handle::Handle;
use d2d_window::message::{decode_message, Message, WM_CREATE, WM_DESTROY, WM_PAINT, WM_SIZE};
use d2d_window::model::Pending;
use d2d_window::protocol::{
    Command, Failure, Next, Query, Reply, Step, D2DERR_RECREATE_TARGET, HANDLED, S_OK,
};
use d2d_window::window::{class_name, window_name, WINDOW_HEIGHT, WINDOW_WIDTH};

const WINDOW: Handle = Handle(0x10);
const FACTORY: Handle = Handle(0x18);
const TARGET: Handle = Handle(0x20);
const BRUSH1: Handle = Handle(0x30);
const BRUSH2: Handle = Handle(0x40);
const WM_MOUSEMOVE: u32 = 0x0200;

fn with_factory() -> MyApp {
    let mut app = MyApp::new();
    app.setup_window();
    app.resume(Reply::Window(WINDOW));
    app.setup_d2d_factory();
    app.resume(Reply::Created { status: S_OK, handle: FACTORY });
    app
}

fn allocated() -> MyApp {
    let mut app = with_factory();
    app.setup_d2d_resources();
    app.resume(Reply::ClientArea(ClientRect { left: 0, top: 0, right: 600, bottom: 400 }));
    app.resume(Reply::Created { status: S_OK, handle: TARGET });
    app.resume(Reply::Created { status: S_OK, handle: BRUSH1 });
    app.resume(Reply::Created { status: S_OK, handle: BRUSH2 });
    app
}

fn size_parameter(width: u16, height: u16) -> i64 {
    ((height as i64) << 16) | width as i64
}

#[test]
fn window_constants() {
    assert_eq!(WINDOW_WIDTH, 600);
    assert_eq!(WINDOW_HEIGHT, 400);
    assert_eq!(HANDLED, 1);
    assert_eq!(String::from_utf16(&class_name()).unwrap(), "MyApp\0");
    assert_eq!(window_name(), vec![77, 121, 65, 112, 112, 0]);
}

#[test]
fn message_identifiers() {
    assert_eq!(WM_CREATE, 1);
    assert_eq!(WM_DESTROY, 2);
    assert_eq!(WM_SIZE, 5);
    assert_eq!(WM_PAINT, 15);
}

#[test]
fn decode_tells_messages_apart() {
    assert_eq!(decode_message(WM_CREATE, 0), Message::Create);
    assert_eq!(decode_message(WM_DESTROY, 77), Message::Destroy);
    assert_eq!(decode_message(WM_PAINT, -1), Message::Paint);
    assert_eq!(decode_message(WM_MOUSEMOVE, 0), Message::Other);
    assert_eq!(decode_message(0, 0), Message::Other);
    assert_eq!(decode_message(u32::MAX, 0), Message::Other);
}

#[test]
fn decode_reads_the_size_from_the_two_low_words() {
    assert_eq!(
        decode_message(WM_SIZE, 0x0190_0258),
        Message::Size { width: 600, height: 400 }
    );
    assert_eq!(decode_message(WM_SIZE, 0), Message::Size { width: 0, height: 0 });
    assert_eq!(
        decode_message(WM_SIZE, 0xFFFF_FFFF),
        Message::Size { width: 0xFFFF, height: 0xFFFF }
    );
    assert_eq!(
        decode_message(WM_SIZE, 0x7FFF_8000),
        Message::Size { width: 0x8000, height: 0x7FFF }
    );
    // Bits above the low 32 are not part of the size.
    assert_eq!(
        decode_message(WM_SIZE, 0x1234_5678_0190_0258),
        Message::Size { width: 600, height: 400 }
    );
    assert_eq!(decode_message(WM_SIZE, -1), Message::Size { width: 0xFFFF, height: 0xFFFF });
    assert_eq!(
        decode_message(WM_SIZE, i64::MIN),
        Message::Size { width: 0, height: 0 }
    );
    assert_eq!(
        decode_message(WM_SIZE, i64::MIN + 0x0003_0002),
        Message::Size { width: 2, height: 3 }
    );
    assert_eq!(
        decode_message(WM_SIZE, -0x1_0000),
        Message::Size { width: 0, height: 0xFFFF }
    );
    assert_eq!(
        decode_message(WM_SIZE, i64::MAX),
        Message::Size { width: 0xFFFF, height: 0xFFFF }
    );
}

#[test]
fn client_area_extents() {
    let area = ClientRect { left: 0, top: 0, right: 600, bottom: 400 };
    assert_eq!((area.width(), area.height()), (600, 400));
    let area = ClientRect { left: -5, top: 7, right: 5, bottom: 7 };
    assert_eq!((area.width(), area.height()), (10, 0));
    // An inverted rectangle wraps around, as a 32-bit difference does.
    let area = ClientRect { left: 10, top: 0, right: 5, bottom: -1 };
    assert_eq!((area.width(), area.height()), (4294967291, 4294967295));
    let area = ClientRect { left: i32::MIN, top: i32::MAX, right: i32::MAX, bottom: i32::MIN };
    assert_eq!((area.width(), area.height()), (u32::MAX, 1));
}

#[test]
fn create_empties_the_slot() {
    let mut app = MyApp::new();
    let step = app.wndproc(Handle(0x99), WM_CREATE, 0, 0);
    assert_eq!(
        step,
        Step { commands: vec![Command::Detach { window: Handle(0x99) }], next: Next::Handled }
    );
    assert!(app.is_idle());
}

#[test]
fn destroy_ends_the_message_loop() {
    let mut app = allocated();
    let step = app.wndproc(WINDOW, WM_DESTROY, 0, 0);
    assert_eq!(step, Step { commands: vec![Command::PostQuit], next: Next::Handled });
    assert!(app.resources().is_allocated());
}

#[test]
fn other_messages_are_forwarded() {
    let mut app = allocated();
    let step = app.wndproc(WINDOW, WM_MOUSEMOVE, 1, 0x0010_0010);
    assert_eq!(step, Step { commands: vec![], next: Next::Forward });
}

#[test]
fn size_resizes_the_allocated_target() {
    let mut app = allocated();
    let step = app.wndproc(WINDOW, WM_SIZE, 0, size_parameter(800, 300));
    assert_eq!(
        step,
        Step {
            commands: vec![Command::Resize { target: TARGET, width: 800, height: 300 }],
            next: Next::Handled,
        }
    );
    assert_eq!(app.resources().render_target(), TARGET);
}

#[test]
fn size_without_resources_is_forwarded() {
    let mut app = with_factory();
    let step = app.wndproc(WINDOW, WM_SIZE, 0, size_parameter(800, 300));
    assert_eq!(step, Step { commands: vec![], next: Next::Forward });
    assert!(!app.resources().is_allocated());
    assert!(app.is_idle());
}

#[test]
fn paint_allocates_then_draws() {
    let mut app = with_factory();
    let step = app.wndproc(WINDOW, WM_PAINT, 0, 0);
    assert_eq!(
        step,
        Step { commands: vec![], next: Next::Ask(Query::ClientArea { window: WINDOW }) }
    );
    assert_eq!(app.pending(), Pending::ClientArea { paint: true });
    let step =
        app.resume(Reply::ClientArea(ClientRect { left: 0, top: 0, right: 600, bottom: 400 }));
    assert_eq!(
        step.next,
        Next::Ask(Query::CreateRenderTarget {
            factory: FACTORY,
            window: WINDOW,
            width: 600,
            height: 400,
        })
    );
    let step = app.resume(Reply::Created { status: S_OK, handle: TARGET });
    assert_eq!(
        step.next,
        Next::Ask(Query::CreateBrush { target: TARGET, color: Color::GrayBlue })
    );
    let step = app.resume(Reply::Created { status: S_OK, handle: BRUSH1 });
    assert_eq!(step.next, Next::Ask(Query::CreateBrush { target: TARGET, color: Color::Red }));
    let step = app.resume(Reply::Created { status: S_OK, handle: BRUSH2 });
    assert_eq!(
        step,
        Step {
            commands: vec![
                Command::BeginDraw { target: TARGET },
                Command::Clear { target: TARGET, color: Color::White },
                Command::ResetTransform { target: TARGET },
            ],
            next: Next::Ask(Query::TargetSize { target: TARGET }),
        }
    );
    assert!(app.resources().is_allocated());
    let step = app.resume(Reply::TargetSize { width: 600, height: 400 });
    assert_eq!(step.commands, draw_scene(TARGET, BRUSH1, BRUSH2, 600, 400));
    assert_eq!(step.next, Next::Ask(Query::EndDraw { target: TARGET }));
    let step = app.resume(Reply::Drawn { status: S_OK });
    assert_eq!(step, Step { commands: vec![], next: Next::Handled });
    assert!(app.is_idle());
    assert!(app.resources().is_allocated());
}

#[test]
fn paint_on_allocated_resources_allocates_nothing() {
    let mut app = allocated();
    let step = app.wndproc(WINDOW, WM_PAINT, 0, 0);
    assert_eq!(step.next, Next::Ask(Query::TargetSize { target: TARGET }));
    assert_eq!(step.commands.len(), 3);
    app.resume(Reply::TargetSize { width: 600, height: 400 });
    let step = app.resume(Reply::Drawn { status: S_OK });
    assert_eq!(step.next, Next::Handled);
    assert_eq!(app.resources().render_target(), TARGET);
    assert_eq!(app.resources().brush1(), BRUSH1);
    assert_eq!(app.resources().brush2(), BRUSH2);
}

#[test]
fn paint_releases_lost_resources_and_next_paint_makes_new_ones() {
    let mut app = allocated();
    app.wndproc(WINDOW, WM_PAINT, 0, 0);
    app.resume(Reply::TargetSize { width: 600, height: 400 });
    let step = app.resume(Reply::Drawn { status: D2DERR_RECREATE_TARGET });
    assert_eq!(
        step,
        Step {
            commands: vec![
                Command::Release { handle: BRUSH1 },
                Command::Release { handle: BRUSH2 },
                Command::Release { handle: TARGET },
            ],
            next: Next::Handled,
        }
    );
    assert!(!app.resources().is_allocated());
    assert!(app.is_idle());
    assert_eq!(app.factory(), FACTORY);

    let step = app.wndproc(WINDOW, WM_PAINT, 0, 0);
    assert_eq!(step.next, Next::Ask(Query::ClientArea { window: WINDOW }));
    app.resume(Reply::ClientArea(ClientRect { left: 0, top: 0, right: 640, bottom: 480 }));
    app.resume(Reply::Created { status: S_OK, handle: Handle(0x50) });
    app.resume(Reply::Created { status: S_OK, handle: Handle(0x60) });
    let step = app.resume(Reply::Created { status: S_OK, handle: Handle(0x70) });
    assert_eq!(step.next, Next::Ask(Query::TargetSize { target: Handle(0x50) }));
    assert_eq!(app.resources().render_target(), Handle(0x50));
    assert_ne!(app.resources().render_target(), TARGET);
}

#[test]
fn paint_with_another_failure_keeps_the_resources() {
    let mut app = allocated();
    app.wndproc(WINDOW, WM_PAINT, 0, 0);
    app.resume(Reply::TargetSize { width: 600, height: 400 });
    let step = app.resume(Reply::Drawn { status: -2147467259 });
    assert_eq!(step, Step { commands: vec![], next: Next::Handled });
    assert!(app.resources().is_allocated());
}

#[test]
fn paint_without_factory_fails() {
    let mut app = MyApp::new();
    let step = app.wndproc(WINDOW, WM_PAINT, 0, 0);
    assert_eq!(step, Step { commands: vec![], next: Next::Failed(Failure::MissingFactory) });
    assert!(app.is_idle());
}

#[test]
fn paint_fails_where_a_brush_is_not_made() {
    let mut app = with_factory();
    app.wndproc(WINDOW, WM_PAINT, 0, 0);
    app.resume(Reply::ClientArea(ClientRect { left: 0, top: 0, right: 600, bottom: 400 }));
    app.resume(Reply::Created { status: S_OK, handle: TARGET });
    app.resume(Reply::Created { status: S_OK, handle: BRUSH1 });
    let step = app.resume(Reply::Created { status: -2147467259, handle: Handle(0) });
    assert_eq!(
        step,
        Step {
            commands: vec![
                Command::Release { handle: BRUSH1 },
                Command::Release { handle: TARGET },
            ],
            next: Next::Failed(Failure::BrushCreation),
        }
    );
    assert!(!app.resources().is_allocated());
    assert!(app.is_idle());
}

#[test]
fn busy_context_takes_messages_as_if_detached() {
    let mut app = with_factory();
    app.setup_d2d_resources();
    assert_eq!(app.pending(), Pending::ClientArea { paint: false });

    let forward = Step { commands: vec![], next: Next::Forward };
    assert_eq!(app.wndproc(WINDOW, WM_PAINT, 0, 0), forward);
    assert_eq!(app.wndproc(WINDOW, WM_SIZE, 0, size_parameter(10, 10)), forward);
    assert_eq!(app.wndproc(WINDOW, WM_MOUSEMOVE, 0, 0), forward);
    assert_eq!(
        app.wndproc(WINDOW, WM_CREATE, 0, 0),
        Step { commands: vec![Command::Detach { window: WINDOW }], next: Next::Handled }
    );
    assert_eq!(
        app.wndproc(WINDOW, WM_DESTROY, 0, 0),
        Step { commands: vec![Command::PostQuit], next: Next::Handled }
    );
    assert_eq!(app.pending(), Pending::ClientArea { paint: false });
}

#[test]
fn detached_window_procedure() {
    let forward = Step { commands: vec![], next: Next::Forward };
    assert_eq!(
        wndproc_detached(WINDOW, WM_CREATE, 0, 0),
        Step { commands: vec![Command::Detach { window: WINDOW }], next: Next::Handled }
    );
    assert_eq!(
        wndproc_detached(WINDOW, WM_DESTROY, 0, 0),
        Step { commands: vec![Command::PostQuit], next: Next::Handled }
    );
    assert_eq!(wndproc_detached(WINDOW, WM_SIZE, 0, size_parameter(600, 400)), forward);
    assert_eq!(wndproc_detached(WINDOW, WM_PAINT, 0, 0), forward);
    assert_eq!(wndproc_detached(WINDOW, WM_MOUSEMOVE, 0, 0), forward);
}
