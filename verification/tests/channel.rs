use crossbeam::channel::after;
use crossbeam::thread::scope;
use mass_transit::{channel, Attempt, Receiver};
use std::sync::atomic::{AtomicUsize, Ordering};
use std::time::{Duration, Instant};

fn recv_blocking<T>(rx: &Receiver<T>) -> Option<T> {
    loop {
        match rx.recv() {
            Attempt::Ready(item) => return Some(item),
            Attempt::Closed => return None,
            Attempt::Idle(seen) => rx.sleep(seen),
        }
    }
}

fn pause(time: Duration) {
    after(time).recv().unwrap();
}

#[test]
fn it_works() {
    let (tx, rx) = channel();
    tx.send(101);
    assert_eq!(rx.recv().ready().unwrap(), 101);
}

#[test]
fn channel_close() {
    let (tx, rx) = channel();
    tx.send(101);
    assert_eq!(rx.recv().ready().unwrap(), 101);
    drop(tx);
    assert!(rx.recv().ready().is_none());
    assert!(rx.recv().is_closed());
}

#[test]
fn wake_up_waiting_thread() {
    let (tx, rx) = channel();
    scope(|threads| {
        threads.spawn(move |_| {
            pause(Duration::from_micros(100));
            tx.send(101);
        });
        assert_eq!(recv_blocking(&rx).unwrap(), 101);
        assert!(recv_blocking(&rx).is_none());
    })
    .unwrap();
}

#[test]
fn recv_exact() {
    let data = (0..8).collect::<Vec<u16>>();
    let (tx, rx) = channel();
    tx.send_many(data);
    drop(tx);
    assert_eq!(rx.recv_exact(5).ready().unwrap().len(), 5);
    assert_eq!(rx.recv_exact(5).ready().unwrap().len(), 3);
    assert!(rx.recv_exact(5).ready().is_none());
}

#[test]
fn recv_all() {
    let data = (0..8).collect::<Vec<u16>>();
    let (tx, rx) = channel();
    tx.send_many(data);
    drop(tx);
    assert_eq!(rx.recv_all().ready().unwrap().len(), 8);
    assert!(rx.recv_all().ready().is_none());
}

#[test]
fn single_sender_order_is_kept() {
    let (tx, rx) = channel();
    for value in 0..50u32 {
        tx.send(value);
    }
    for value in 0..50u32 {
        assert_eq!(rx.recv().ready(), Some(value));
    }
    assert!(rx.recv().is_idle());
}

#[test]
fn send_many_keeps_the_batch_order() {
    let (tx, rx) = channel();
    tx.send_many(vec![3u8, 1, 4, 1, 5]);
    tx.send(9);
    assert_eq!(rx.recv_all().ready(), Some(vec![3u8, 1, 4, 1, 5, 9]));
}

#[test]
fn recv_exact_hands_out_each_item_once_in_order() {
    let (tx, rx) = channel();
    tx.send_many((0..8).collect::<Vec<u16>>());
    drop(tx);
    assert_eq!(rx.recv_exact(5).ready(), Some(vec![0u16, 1, 2, 3, 4]));
    assert_eq!(rx.recv_exact(5).ready(), Some(vec![5u16, 6, 7]));
    assert!(rx.recv_exact(5).is_closed());
    assert!(rx.recv_exact(5).is_closed());
}

#[test]
fn recv_exact_of_one_takes_one() {
    let (tx, rx) = channel();
    tx.send_many(vec![7u8, 8]);
    assert_eq!(rx.recv_exact(1).ready(), Some(vec![7u8]));
    assert_eq!(rx.recv_exact(1).ready(), Some(vec![8u8]));
    assert!(rx.recv_exact(1).is_idle());
    drop(tx);
}

#[test]
fn recv_exact_returns_a_short_batch_on_an_open_channel() {
    let (tx, rx) = channel();
    tx.send_many(vec![1u8, 2, 3]);
    assert_eq!(rx.recv_exact(10).ready(), Some(vec![1u8, 2, 3]));
    assert!(rx.recv_exact(10).is_idle());
    drop(tx);
    assert!(rx.recv_exact(10).is_closed());
}

#[test]
fn recv_all_on_an_open_empty_channel_is_idle() {
    let (tx, rx) = channel::<u8>();
    assert!(rx.recv_all().is_idle());
    assert!(rx.recv().is_idle());
    drop(tx);
    assert!(rx.recv_all().is_closed());
}

#[test]
fn closed_is_permanent() {
    let (tx, rx) = channel::<u32>();
    drop(tx);
    for _ in 0..10 {
        assert!(rx.recv().is_closed());
        assert!(rx.recv_all().is_closed());
        assert!(rx.recv_exact(3).is_closed());
    }
}

#[test]
fn a_clone_keeps_the_channel_open() {
    let (tx, rx) = channel();
    let tx2 = tx.clone();
    drop(tx);
    assert!(rx.recv().is_idle());
    tx2.send(5u8);
    assert_eq!(rx.recv().ready(), Some(5u8));
    assert!(rx.recv().is_idle());
    drop(tx2);
    assert!(rx.recv().is_closed());
}

#[test]
fn queued_items_outlive_the_last_sender() {
    let (tx, rx) = channel();
    tx.send(1u8);
    tx.send(2u8);
    drop(tx);
    assert_eq!(rx.recv().ready(), Some(1u8));
    assert_eq!(rx.recv().ready(), Some(2u8));
    assert!(rx.recv().is_closed());
}

#[test]
fn a_cloned_receiver_shares_the_queue() {
    let (tx, rx) = channel();
    let rx2 = rx.clone();
    tx.send_many(vec![1u8, 2]);
    assert_eq!(rx.recv().ready(), Some(1u8));
    assert_eq!(rx2.recv().ready(), Some(2u8));
    drop(tx);
    assert!(rx.recv().is_closed());
    assert!(rx2.recv().is_closed());
}

#[test]
fn send_without_receivers_does_not_fail() {
    let (tx, rx) = channel();
    drop(rx);
    tx.send(1u8);
    tx.send_many(vec![2u8, 3]);
    tx.send_many(Vec::new());
}

#[test]
fn idle_carries_a_generation_that_a_later_send_outdates() {
    let (tx, rx) = channel();
    let seen = match rx.recv() {
        Attempt::Idle(seen) => seen,
        _ => panic!("an open empty channel is idle"),
    };
    tx.send(1u8);
    let started = Instant::now();
    rx.sleep(seen);
    assert!(started.elapsed() < Duration::from_secs(5));
    assert_eq!(rx.recv().ready(), Some(1u8));
}

#[test]
fn no_loss_and_no_duplication_under_contention() {
    let producers = 4usize;
    let per_producer = 2000usize;
    let consumers = 3usize;
    let (tx, rx) = channel::<usize>();
    let batches = scope(|threads| {
        for p in 0..producers {
            let tx = tx.clone();
            threads.spawn(move |_| {
                for m in 0..per_producer {
                    tx.send(p * per_producer + m);
                }
            });
        }
        drop(tx);
        let mut handles = Vec::new();
        for _ in 0..consumers {
            let rx = rx.clone();
            handles.push(threads.spawn(move |_| {
                let mut got = Vec::new();
                while let Some(item) = recv_blocking(&rx) {
                    got.push(item);
                }
                got
            }));
        }
        let mut batches = Vec::new();
        for handle in handles {
            batches.push(handle.join().unwrap());
        }
        batches
    })
    .unwrap();
    let mut seen = vec![0u8; producers * per_producer];
    for got in batches {
        let mut last = vec![None; producers];
        for item in got {
            seen[item] += 1;
            let p = item / per_producer;
            assert!(last[p] < Some(item));
            last[p] = Some(item);
        }
    }
    assert!(seen.iter().all(|&count| count == 1));
}

#[test]
fn close_wakes_every_sleeping_receiver() {
    let (tx, rx) = channel::<u8>();
    let closed = AtomicUsize::new(0);
    scope(|threads| {
        for _ in 0..4 {
            let rx = rx.clone();
            let closed = &closed;
            threads.spawn(move |_| {
                if recv_blocking(&rx).is_none() {
                    closed.fetch_add(1, Ordering::SeqCst);
                }
            });
        }
        pause(Duration::from_millis(50));
        assert_eq!(closed.load(Ordering::SeqCst), 0);
        drop(tx);
        let started = Instant::now();
        while closed.load(Ordering::SeqCst) < 4 {
            assert!(started.elapsed() < Duration::from_secs(10));
            pause(Duration::from_millis(1));
        }
    })
    .unwrap();
    assert_eq!(closed.load(Ordering::SeqCst), 4);
}

#[test]
fn a_sleeping_receiver_is_woken_by_a_send() {
    let (tx, rx) = channel();
    scope(|threads| {
        threads.spawn(move |_| {
            pause(Duration::from_millis(50));
            tx.send(100u32);
        });
        let started = Instant::now();
        assert_eq!(recv_blocking(&rx), Some(100));
        assert!(started.elapsed() < Duration::from_secs(10));
        assert_eq!(recv_blocking(&rx), None);
    })
    .unwrap();
}
