use egui_android::surface::SurfaceState;

// Stand-ins for the host objects: a window and a surface are numbered; a
// context carries the number it was created with.
#[derive(Debug, PartialEq)]
struct Current(u32);
#[derive(Debug, PartialEq)]
struct Idle(u32);
#[derive(Debug, PartialEq)]
struct Painter(u32);

type State = SurfaceState<u32, u32, Current, Idle, Painter>;

#[test]
fn first_attach_creates_a_context() {
    let mut st: State = SurfaceState::new();
    assert!(!st.is_active());
    let mut created = 0;
    st.attach_window(1, 10, |s: &u32| { created += 1; (Current(*s), Painter(7)) }, |n: Idle, _s: &u32| Current(n.0));
    assert_eq!(created, 1);
    assert!(st.is_active());
    match st {
        SurfaceState::Active { window, surface, context, painter } => {
            assert_eq!((window, surface, context, painter), (1, 10, Current(10), Painter(7)));
        }
        _ => panic!("not active"),
    }
}

#[test]
fn detach_then_attach_keeps_the_context() {
    let mut st: State = SurfaceState::new();
    let mut created = 0;
    st.attach_window(1, 10, |s: &u32| { created += 1; (Current(*s), Painter(7)) }, |n: Idle, _s: &u32| Current(n.0));
    st.detach_window(|c: Current| Idle(c.0));
    match &st {
        SurfaceState::Suspended { saved_context, painter } => {
            assert_eq!((saved_context, painter), (&Idle(10), &Painter(7)));
        }
        _ => panic!("not suspended"),
    }
    assert!(!st.is_active());
    st.attach_window(2, 20, |s: &u32| { created += 1; (Current(*s), Painter(8)) }, |n: Idle, _s: &u32| Current(n.0));
    assert_eq!(created, 1);
    match st {
        SurfaceState::Active { window, surface, context, painter } => {
            assert_eq!((window, surface, context, painter), (2, 20, Current(10), Painter(7)));
        }
        _ => panic!("not active"),
    }
}

#[test]
fn detach_without_window_does_nothing() {
    let mut st: State = SurfaceState::new();
    st.detach_window(|c: Current| Idle(c.0));
    assert!(matches!(st, SurfaceState::Uninitialized));
    let mut st: State = SurfaceState::Suspended { saved_context: Idle(3), painter: Painter(4) };
    st.detach_window(|c: Current| Idle(c.0 + 100));
    assert!(matches!(st, SurfaceState::Suspended { saved_context: Idle(3), painter: Painter(4) }));
}

#[test]
fn teardown_hands_back_the_painter() {
    let st: State = SurfaceState::new();
    assert_eq!(st.teardown(|c: Current| Idle(c.0)), None);
    let st: State = SurfaceState::Suspended { saved_context: Idle(3), painter: Painter(4) };
    assert_eq!(st.teardown(|c: Current| Idle(c.0)), Some(Painter(4)));
    let mut released = Vec::new();
    let st: State = SurfaceState::Active { window: 1, surface: 2, context: Current(5), painter: Painter(6) };
    assert_eq!(st.teardown(|c: Current| { released.push(c.0); Idle(c.0) }), Some(Painter(6)));
    assert_eq!(released, vec![5]);
}
