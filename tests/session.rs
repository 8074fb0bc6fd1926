use furnace::session::{Action, Session, WindowEvent};

#[test]
fn frames_are_numbered_from_zero() {
    let mut s = Session::new();
    assert_eq!(s.handle(WindowEvent::RedrawRequested), Action::DrawFrame { frame: 0 });
    assert_eq!(s.handle(WindowEvent::AboutToWait), Action::RequestRedraw);
    assert_eq!(s.handle(WindowEvent::RedrawRequested), Action::DrawFrame { frame: 1 });
    assert_eq!(s.frame, 2);
}

#[test]
fn close_stops_everything() {
    let mut s = Session::new();
    s.handle(WindowEvent::RedrawRequested);
    assert_eq!(s.handle(WindowEvent::CloseRequested), Action::Exit);
    assert!(s.closed);
    assert_eq!(s.handle(WindowEvent::RedrawRequested), Action::Exit);
    assert_eq!(s.handle(WindowEvent::Other), Action::Exit);
    assert_eq!(s.frame, 1);
}

#[test]
fn resize_and_other_events() {
    let mut s = Session::new();
    assert_eq!(
        s.handle(WindowEvent::Resized { width: 800, height: 600 }),
        Action::Resize { width: 800, height: 600 }
    );
    assert_eq!(s.handle(WindowEvent::Other), Action::Ignore);
    assert_eq!(s, Session { frame: 0, closed: false });
}

#[test]
fn frame_number_wraps_around() {
    let mut s = Session { frame: u64::MAX, closed: false };
    assert_eq!(s.handle(WindowEvent::RedrawRequested), Action::DrawFrame { frame: u64::MAX });
    assert_eq!(s.handle(WindowEvent::RedrawRequested), Action::DrawFrame { frame: 0 });
}
