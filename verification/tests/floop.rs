use fast::floop::{FastLoop, Invoke};
use parking_lot::Mutex;
use std::sync::atomic::{AtomicUsize, Ordering};
use std::sync::Arc;
use tokio::runtime::Builder;

#[test]
fn a_new_lock_is_free() {
    let floop = FastLoop::new();
    assert!(!floop.is_busy());
}

#[test]
fn the_second_request_is_answered_busy() {
    let mut floop = FastLoop::new();
    assert_eq!(floop.run_callback(), Invoke::Scheduled);
    assert!(floop.is_busy());
    assert_eq!(floop.run_callback(), Invoke::Busy);
    assert!(floop.is_busy());
}

#[test]
fn completion_frees_the_lock() {
    let mut floop = FastLoop::new();
    assert_eq!(floop.run_callback(), Invoke::Scheduled);
    floop.finish_callback();
    assert!(!floop.is_busy());
    assert_eq!(floop.run_callback(), Invoke::Scheduled);
}

#[test]
fn cancel_frees_the_lock() {
    let mut floop = FastLoop::new();
    assert_eq!(floop.run_callback(), Invoke::Scheduled);
    floop.cancel();
    assert!(!floop.is_busy());
    floop.cancel();
    assert!(!floop.is_busy());
    assert_eq!(floop.run_callback(), Invoke::Scheduled);
}

#[test]
fn of_many_requests_one_is_scheduled() {
    let mut floop = FastLoop::new();
    let answers: Vec<Invoke> = (0..10).map(|_| floop.run_callback()).collect();
    assert_eq!(answers.iter().filter(|a| **a == Invoke::Scheduled).count(), 1);
    assert_eq!(answers.iter().filter(|a| **a == Invoke::Busy).count(), 9);
    assert_eq!(answers[0], Invoke::Scheduled);
}

#[test]
fn never_more_than_one_callback_runs() {
    // A counter stands in for the callbacks: it goes up when one is
    // scheduled and down when the one in flight ends.
    let mut floop = FastLoop::new();
    let mut running: u32 = 0;
    let mut most: u32 = 0;
    let mut scheduled: u32 = 0;
    let mut seed: u32 = 12345;
    for _ in 0..1000 {
        seed = seed.wrapping_mul(1103515245).wrapping_add(12345);
        match (seed >> 16) % 4 {
            0 | 1 => {
                if floop.run_callback() == Invoke::Scheduled {
                    running += 1;
                    scheduled += 1;
                }
            },
            2 => {
                if running > 0 {
                    floop.finish_callback();
                    running -= 1;
                }
            },
            _ => {
                floop.cancel();
                running = 0;
            },
        }
        most = most.max(running);
        assert_eq!(floop.is_busy(), running == 1);
    }
    assert_eq!(most, 1);
    assert!(scheduled > 1);
}

#[test]
fn concurrent_callers_never_run_two_callbacks() {
    let runtime = Builder::new_multi_thread().worker_threads(4).build().unwrap();
    let floop = Arc::new(Mutex::new(FastLoop::new()));
    let running = Arc::new(AtomicUsize::new(0));
    let most = Arc::new(AtomicUsize::new(0));
    let scheduled = Arc::new(AtomicUsize::new(0));
    let busy = Arc::new(AtomicUsize::new(0));
    let mut callers = Vec::new();
    for _ in 0..8 {
        let (floop, running, most) = (floop.clone(), running.clone(), most.clone());
        let (scheduled, busy) = (scheduled.clone(), busy.clone());
        callers.push(runtime.spawn_blocking(move || {
            for _ in 0..2000 {
                let answer = floop.lock().run_callback();
                if answer == Invoke::Scheduled {
                    // The callback body: counts itself in and out.
                    let now = running.fetch_add(1, Ordering::SeqCst) + 1;
                    most.fetch_max(now, Ordering::SeqCst);
                    scheduled.fetch_add(1, Ordering::SeqCst);
                    std::hint::spin_loop();
                    running.fetch_sub(1, Ordering::SeqCst);
                    floop.lock().finish_callback();
                } else {
                    busy.fetch_add(1, Ordering::SeqCst);
                }
            }
        }));
    }
    for caller in callers {
        runtime.block_on(caller).unwrap();
    }
    assert_eq!(most.load(Ordering::SeqCst), 1);
    assert_eq!(scheduled.load(Ordering::SeqCst) + busy.load(Ordering::SeqCst), 16000);
    assert!(!floop.lock().is_busy());
}
