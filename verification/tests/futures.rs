use atri_plugin::abi::error::FFIResult;
use atri_plugin::abi::future::{Delayed, FFIFuture, Poll, Task};
use atri_plugin::abi::managed::{Managed, Store};
use atri_plugin::error::AtriError;
use atri_plugin::runtime::{block_on, read_joined, spawn, JoinHandle};

fn polls_until_ready(n: usize) -> usize {
    let mut fu = FFIFuture::from_static(Delayed::new(n - 1, 42u32));
    let mut polls = 0;
    loop {
        polls += 1;
        match fu.poll() {
            Poll::Pending => assert!(polls < n),
            Poll::Ready(v) => {
                assert_eq!(v, 42);
                assert!(fu.task.is_completed());
                return polls;
            }
        }
    }
}

#[test]
fn task_of_n_polls_is_pending_n_minus_one_times() {
    assert_eq!(polls_until_ready(1), 1);
    assert_eq!(polls_until_ready(2), 2);
    assert_eq!(polls_until_ready(5), 5);
    assert_eq!(polls_until_ready(100), 100);
}

#[test]
fn ready_task_completes_at_first_poll() {
    let mut task = Delayed::ready("done");
    assert!(!task.is_completed());
    assert!(matches!(task.poll(), Poll::Ready("done")));
    assert!(task.is_completed());
}

#[test]
fn block_on_gives_the_output() {
    assert_eq!(FFIFuture::from(Delayed::new(7, String::from("late"))).block_on(), "late");
    assert_eq!(FFIFuture::from(Delayed::ready(3u8)).block_on(), 3);
}

#[test]
fn join_handle_reads_the_outcome() {
    let mut store: Store<String> = Store::new();
    let value = Managed::from_value(String::from("result"), &mut store);
    let at = value.pointer;
    let mut handle = JoinHandle::from(FFIFuture::from_static(Delayed::new(
        2,
        FFIResult::from(Ok(value)),
    )));
    assert!(matches!(handle.poll(&mut store), Poll::Pending));
    assert!(store.is_live(at));
    assert!(matches!(handle.poll(&mut store), Poll::Pending));
    match handle.poll(&mut store) {
        Poll::Ready(Ok(s)) => assert_eq!(s, "result"),
        _ => panic!("the third poll completes"),
    }
    assert!(!store.is_live(at));
    assert_eq!(store.drop_count(at), 0);
}

#[test]
fn join_failure_is_reported() {
    let mut store: Store<u8> = Store::new();
    let failed: FFIResult<Managed> = FFIResult::from(Err(String::from("panicked")));
    match read_joined(failed, &mut store) {
        Err(AtriError::JoinError(s)) => assert_eq!(s, "panicked"),
        _ => panic!("a failed task is a join error"),
    }
    let mut handle = JoinHandle::from(FFIFuture::from(Delayed::ready(FFIResult::<Managed>::from(
        Err(String::from("cancelled")),
    ))));
    match handle.poll(&mut store) {
        Poll::Ready(Err(AtriError::JoinError(s))) => assert_eq!(s, "cancelled"),
        _ => panic!("a failed task is a join error"),
    }
}

#[test]
fn spawn_hands_the_task_to_the_host() {
    let handle = spawn(0xabc, Delayed::new(1, 5u32), &|manager, fu: FFIFuture<Delayed<u32>>| {
        assert_eq!(manager, 0xabc);
        let value = fu.block_on();
        FFIFuture::from_static(Delayed::new(
            1,
            FFIResult::from(Ok(Managed::from_static(value as usize))),
        ))
    });
    let mut fu = handle.handle;
    assert!(matches!(fu.poll(), Poll::Pending));
    match fu.poll() {
        Poll::Ready(res) => assert_eq!(Result::from(res).map(|m: Managed| m.pointer), Ok(5)),
        Poll::Pending => panic!("the second poll completes"),
    }
}

#[test]
fn block_on_takes_the_result_out() {
    let mut store: Store<u32> = Store::new();
    let result = Managed::from_value(77, &mut store);
    let at = result.pointer;
    let slot = std::cell::RefCell::new(Some(result));
    let out: u32 = block_on(
        1,
        Delayed::ready(()),
        &|_manager, fu: FFIFuture<Delayed<()>>| {
            fu.block_on();
            slot.borrow_mut().take().unwrap()
        },
        &mut store,
    );
    assert_eq!(out, 77);
    assert!(!store.is_live(at));
}

struct Steps {
    left: u32,
    polled: u32,
}

impl Task for Steps {
    type Output = u32;

    fn poll(&mut self) -> Poll<u32> {
        self.polled += 1;
        if self.left > 1 {
            self.left -= 1;
            Poll::Pending
        } else {
            self.left = 0;
            Poll::Ready(self.polled)
        }
    }
}

#[test]
fn a_task_of_the_caller_is_polled_to_the_end_and_no_further() {
    assert_eq!(FFIFuture::from(Steps { left: 4, polled: 0 }).block_on(), 4);
    assert_eq!(FFIFuture::from(Steps { left: 1, polled: 0 }).block_on(), 1);
    let mut fu = FFIFuture::from_static(Steps { left: 3, polled: 0 });
    assert!(matches!(fu.poll(), Poll::Pending));
    assert!(matches!(fu.poll(), Poll::Pending));
    assert!(matches!(fu.poll(), Poll::Ready(3)));
    assert_eq!(fu.task.left, 0);
}
