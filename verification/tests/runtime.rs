use std::sync::atomic::{AtomicUsize, Ordering};
use std::sync::Arc;
use std::task::{Wake, Waker};
use std::time::Duration;

use winio_ui::compat::{reset_context, set_context, HandleContextSlot, HandleFuture, HandlePoll};
use winio_ui::event_loop::{loop_step, should_dispatch, BlockOnSlot, LoopStep};
use winio_ui::message::{
    is_command_from, is_notify_from, window_message, WindowMessage, WindowMessageCommand,
    WindowMessageNotify, WM_COMMAND, WM_NOTIFY,
};
use winio_ui::registry::{MessageRegistry, MsgPoll};

struct CountingWaker(AtomicUsize);

impl Wake for CountingWaker {
    fn wake(self: Arc<Self>) {
        self.0.fetch_add(1, Ordering::SeqCst);
    }
}

fn counting_waker() -> (Arc<CountingWaker>, Waker) {
    let w = Arc::new(CountingWaker(AtomicUsize::new(0)));
    (w.clone(), Waker::from(w))
}

#[test]
fn window_message_decodes_command() {
    let m = window_message(WM_COMMAND, 0x0003_0007, 0x1234, None);
    assert_eq!(m, WindowMessage::Command(WindowMessageCommand { message: 3, handle: 0x1234 }));
    assert_eq!(m.command().message, 3);
    assert!(is_command_from(m.command(), 0x1234, 3));
    assert!(!is_command_from(m.command(), 0x1234, 4));
    assert!(!is_command_from(m.command(), 0x1235, 3));
}

#[test]
fn window_message_decodes_notify_and_general() {
    let h = WindowMessageNotify { hwnd_from: 9, code: 0xFFFF_FDDA };
    let m = window_message(WM_NOTIFY, 1, 2, Some(h));
    assert_eq!(m.notify(), h);
    assert!(is_notify_from(h, 9, &[1, 0xFFFF_FDDA]));
    assert!(!is_notify_from(h, 9, &[1, 2]));
    assert!(!is_notify_from(h, 8, &[0xFFFF_FDDA]));
    let g = window_message(0x0005, 77, -3, None);
    assert_eq!(g.wparam(), 77);
    assert_eq!(g.lparam(), -3);
}

#[test]
fn registered_future_receives_its_message_and_is_woken() {
    let mut reg = MessageRegistry::new();
    let f1 = reg.register_message(10, 0x200);
    let f2 = reg.register_message(10, 0x200);
    let other = reg.register_message(11, 0x200);
    let (count, waker) = counting_waker();
    assert!(matches!(f1.poll(&mut reg, waker), MsgPoll::Pending));
    let msg = WindowMessage::General { wparam: 1, lparam: 2 };
    let (dealt, woken) = reg.set_current_msg(10, 0x200, msg);
    assert!(dealt);
    assert_eq!(woken.len(), 1);
    for (_, w) in woken {
        w.wake();
    }
    assert_eq!(count.0.load(Ordering::SeqCst), 1);
    let (_, w2) = counting_waker();
    assert!(matches!(f1.poll(&mut reg, w2.clone()), MsgPoll::Ready(m) if m == msg));
    assert!(matches!(f2.poll(&mut reg, w2.clone()), MsgPoll::Ready(m) if m == msg));
    assert!(matches!(other.poll(&mut reg, w2), MsgPoll::Pending));
}

#[test]
fn message_without_waiting_future_is_not_dealt() {
    let mut reg = MessageRegistry::new();
    let (dealt, woken) = reg.set_current_msg(1, 2, WindowMessage::General { wparam: 0, lparam: 0 });
    assert!(!dealt);
    assert!(woken.is_empty());
}

#[test]
fn released_future_is_not_completed() {
    let mut reg = MessageRegistry::new();
    let f = reg.register_message(5, 6);
    let id_probe = reg.register_message(5, 6);
    f.release(&mut reg);
    let (dealt, _) = reg.set_current_msg(5, 6, WindowMessage::General { wparam: 0, lparam: 0 });
    assert!(dealt);
    let (_, w) = counting_waker();
    assert!(matches!(id_probe.poll(&mut reg, w), MsgPoll::Ready(_)));
    let mut reg2 = MessageRegistry::new();
    let g = reg2.register_message(5, 6);
    g.release(&mut reg2);
    let (dealt2, _) = reg2.set_current_msg(5, 6, WindowMessage::General { wparam: 0, lparam: 0 });
    assert!(!dealt2);
}

#[test]
fn registered_ids_are_distinct() {
    let mut reg = MessageRegistry::new();
    let a = reg.register_message(1, 1);
    let b = reg.register_message(1, 1);
    let (_, w) = counting_waker();
    a.release(&mut reg);
    // b still waits after a left
    assert!(matches!(b.poll(&mut reg, w), MsgPoll::Pending));
}

#[test]
fn handle_future_hands_over_once() {
    let mut slot = HandleContextSlot::new();
    assert_eq!(slot.get_handle().0, None);
    let mut f = HandleFuture::new(42, Some(Duration::from_millis(5)));
    let (_, w) = counting_waker();
    assert_eq!(f.poll(&mut slot, w.clone()), HandlePoll::Pending);
    let (h, t, wk) = slot.get_handle();
    assert_eq!(h, Some(42));
    assert_eq!(t, Some(Duration::from_millis(5)));
    assert!(wk.is_some());
    assert_eq!(f.poll(&mut slot, w), HandlePoll::Ready);
    f.release(&mut slot);
    assert_eq!(slot.get_handle().0, None);
}

#[test]
fn context_slot_set_and_reset() {
    let mut slot = HandleContextSlot::new();
    let (_, w) = counting_waker();
    set_context(&mut slot, 7, None, w);
    assert_eq!(slot.get_handle().0, Some(7));
    assert_eq!(slot.get_handle().1, None);
    reset_context(&mut slot);
    assert!(slot.get_handle().2.is_none());
}

#[test]
fn message_loop_steps() {
    assert_eq!(loop_step(1), LoopStep::Message);
    assert_eq!(loop_step(0), LoopStep::Quit);
    assert_eq!(loop_step(i32::MAX), LoopStep::Message);
    assert!(should_dispatch(false, true));
    assert!(should_dispatch(true, false));
    assert!(!should_dispatch(true, true));
}

#[test]
fn block_on_slot_ends_with_output() {
    let mut s = BlockOnSlot::new();
    assert!(!s.is_complete());
    s.complete(5u8);
    assert!(s.is_complete());
    assert_eq!(s.take_on_quit(), 5);
    assert!(!s.is_complete());
}
