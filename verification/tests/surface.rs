use loopframe::game::surface::ResizableSurface;
use loopframe::game::surface::ResizableSurfaceState;
use loopframe::game::surface::SurfaceAccess;
use loopframe::game::WindowSize;

#[test]
fn fresh_surface_is_ready() {
    let mut surface = ResizableSurface::new();
    assert_eq!(surface.get(), SurfaceAccess::Ready);
    assert_eq!(surface.get(), SurfaceAccess::Ready);
}

#[test]
fn get_while_resizing_queued_is_not_ready() {
    let mut surface = ResizableSurface::new();
    surface.resize(WindowSize { width: 640, height: 480 });
    assert_eq!(surface.get(), SurfaceAccess::NotReady);
    // Still queued: the completion callback has not run.
    assert_eq!(surface.get(), SurfaceAccess::NotReady);
}

#[test]
fn completion_then_exactly_one_reconfiguration() {
    let mut surface = ResizableSurface::new();
    let size = WindowSize { width: 640, height: 480 };
    surface.resize(size);
    // Simulate the GPU queue's completion callback.
    surface.work_done();
    assert_eq!(surface.get(), SurfaceAccess::Reconfigure(size));
    // The machine is active again: no second reconfiguration.
    assert_eq!(surface.get(), SurfaceAccess::Ready);
}

#[test]
fn work_done_outside_resize_is_a_no_op() {
    let mut surface = ResizableSurface::new();
    surface.work_done();
    assert_eq!(surface.get(), SurfaceAccess::Ready);
}

#[test]
fn second_resize_overwrites_target_size() {
    let mut surface = ResizableSurface::new();
    surface.resize(WindowSize { width: 100, height: 100 });
    let newer = WindowSize { width: 200, height: 150 };
    surface.resize(newer);
    surface.work_done();
    assert_eq!(surface.get(), SurfaceAccess::Reconfigure(newer));
}

#[test]
fn state_encoding_round_trips() {
    let states = [
        ResizableSurfaceState::Active,
        ResizableSurfaceState::ResizingQueued,
        ResizableSurfaceState::Inactive,
    ];
    for state in states {
        let encoded = state.encode();
        assert!(encoded <= 2);
        assert_eq!(ResizableSurfaceState::decode(encoded), state);
    }
    assert_eq!(ResizableSurfaceState::Active.encode(), 0);
    assert_eq!(ResizableSurfaceState::ResizingQueued.encode(), 1);
    assert_eq!(ResizableSurfaceState::Inactive.encode(), 2);
}
