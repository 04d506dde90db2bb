use devcomp::backend::SshBackend;
use devcomp::ssh::TermWriter;
use devcomp::tui::{LoopStep, TimerFire, Tui, TuiStatus};

#[test]
fn flush_round_trip_concatenates_draws() {
    // Draws buffered without an intervening flush come out as one frame
    // whose payload is the concatenation of all buffered bytes in order.
    let mut w = TermWriter::new();
    assert_eq!(w.pending(), 0);
    assert_eq!(w.write(b"hello "), 6);
    assert_eq!(w.write(b"remote "), 7);
    assert_eq!(w.write(b"terminal"), 8);
    let frame = w.frame();
    assert_eq!(frame, b"hello remote terminal".to_vec());
    assert_eq!(w.pending(), 21);
    w.ack_flush();
    assert_eq!(w.pending(), 0);
    assert_eq!(w.frame(), Vec::<u8>::new());
}

#[test]
fn buffer_kept_until_acknowledged() {
    // The frame copy does not consume the buffer: only the transport's
    // acknowledgment clears it, so a failed send drops nothing.
    let mut w = TermWriter::new();
    w.write(&[1, 2, 3]);
    let first = w.frame();
    let second = w.frame();
    assert_eq!(first, second);
    assert_eq!(w.pending(), 3);
}

#[test]
fn backend_geometry_updates_in_place() {
    let mut b = SshBackend::new(TermWriter::new(), 120, 40, 960, 800);
    let s = b.size();
    assert_eq!((s.width, s.height), (120, 40));
    let ws = b.window_size();
    assert_eq!((ws.columns_rows.width, ws.columns_rows.height), (120, 40));
    assert_eq!((ws.pixels.width, ws.pixels.height), (960, 800));

    b.write_bytes(b"diff");
    b.set_dims(80, 20);
    // The resize kept the renderer's buffered output.
    assert_eq!(b.frame(), b"diff".to_vec());
    let s = b.size();
    assert_eq!((s.width, s.height), (80, 20));
}

#[test]
fn enter_appends_alternate_screen_toggles() {
    // Entering the screen goes through the output bridge: alternate
    // screen on, cursor hidden.
    let mut b = SshBackend::new(TermWriter::new(), 120, 40, 0, 0);
    let mut t = Tui::new();
    t.enter(&mut b);
    assert!(t.screen_entered);
    assert_eq!(b.frame(), b"\x1b[?1049h\x1b[?25l".to_vec());
}

#[test]
fn exit_appends_restore_toggles() {
    let mut b = SshBackend::new(TermWriter::new(), 120, 40, 0, 0);
    let mut t = Tui::new();
    t.enter(&mut b);
    b.ack_flush();
    t.exit(&mut b);
    assert!(!t.screen_entered);
    assert_eq!(b.frame(), b"\x1b[?1049l\x1b[?25h".to_vec());
}

#[test]
fn enter_with_mouse_and_paste_negotiates_both() {
    let mut b = SshBackend::new(TermWriter::new(), 120, 40, 0, 0);
    let mut t = Tui::new().mouse(true).paste(true);
    t.enter(&mut b);
    assert_eq!(
        b.frame(),
        b"\x1b[?1049h\x1b[?25l\x1b[?1000h\x1b[?1002h\x1b[?1003h\x1b[?1015h\x1b[?1006h\x1b[?2004h"
            .to_vec()
    );
    b.ack_flush();
    t.exit(&mut b);
    assert_eq!(
        b.frame(),
        b"\x1b[?2004l\x1b[?1006l\x1b[?1015l\x1b[?1003l\x1b[?1002l\x1b[?1000l\x1b[?1049l\x1b[?25h"
            .to_vec()
    );
}

#[test]
fn enter_twice_is_idempotent() {
    // Entering twice in a row errors nowhere and leaves the scheduler in
    // the same logical mode as entering once.
    let mut b = SshBackend::new(TermWriter::new(), 120, 40, 0, 0);
    let mut t = Tui::new();
    t.enter(&mut b);
    let once = t;
    t.enter(&mut b);
    assert_eq!(t, once);
    assert!(t.screen_entered);
    assert!(!t.cancelled);
}

#[test]
fn suspend_blocks_events_until_resume() {
    // After a suspend no tick or render event is emitted; the first
    // firing after the resume is emitted again.
    let mut b = SshBackend::new(TermWriter::new(), 120, 40, 0, 0);
    let mut t = Tui::new();
    t.enter(&mut b);
    assert_eq!(t.loop_step(TimerFire::Tick), LoopStep::Emit(devcomp::tui::Event::Tick));
    assert_eq!(t.loop_step(TimerFire::Render), LoopStep::Emit(devcomp::tui::Event::Render));

    t.suspend(&mut b);
    assert_eq!(t.status, TuiStatus::Suspended);
    assert!(!matches!(t.loop_step(TimerFire::Tick), LoopStep::Emit(_)));
    assert!(!matches!(t.loop_step(TimerFire::Render), LoopStep::Emit(_)));

    t.resume(&mut b);
    assert_eq!(t.status, TuiStatus::Active);
    assert_eq!(t.loop_step(TimerFire::Tick), LoopStep::Emit(devcomp::tui::Event::Tick));
    assert_eq!(t.loop_step(TimerFire::Render), LoopStep::Emit(devcomp::tui::Event::Render));
}

#[test]
fn cancel_stops_the_loop() {
    let mut t = Tui::new();
    t.cancel();
    assert_eq!(t.loop_step(TimerFire::Tick), LoopStep::Stop);
    let init = t.start();
    assert_eq!(init, devcomp::tui::Event::Init);
    assert_eq!(t.loop_step(TimerFire::Tick), LoopStep::Emit(devcomp::tui::Event::Tick));
}

#[test]
fn builder_rates() {
    let t = Tui::new();
    assert_eq!((t.tick_rate, t.frame_rate), (4, 60));
    let t = t.tick_rate(8).frame_rate(30);
    assert_eq!((t.tick_rate, t.frame_rate), (8, 30));
}
