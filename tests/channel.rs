use one_shot_channel::cell::StorageCell;
use one_shot_channel::Channel;
use std::sync::atomic::AtomicUsize;
use std::sync::atomic::Ordering;
use std::sync::Arc;

struct Counted {
    id: u32,
    drops: Arc<AtomicUsize>,
}

impl Drop for Counted {
    fn drop(&mut self) {
        self.drops.fetch_add(1, Ordering::SeqCst);
    }
}

#[test]
fn receive_returns_sent_integer() {
    let mut channel: Channel<i32> = Channel::new();
    let (tx, rx) = channel.split();
    tx.send(-7);
    assert_eq!(rx.receive(), -7);
}

#[test]
fn receive_returns_sent_heap_values() {
    let mut channel: Channel<Vec<String>> = Channel::new();
    let (tx, rx) = channel.split();
    tx.send(vec![String::from("a"), String::from("bc")]);
    assert_eq!(rx.receive(), vec![String::from("a"), String::from("bc")]);
}

#[test]
fn received_value_is_finalized_once() {
    let drops = Arc::new(AtomicUsize::new(0));
    {
        let mut channel: Channel<Counted> = Channel::new();
        let (tx, rx) = channel.split();
        tx.send(Counted { id: 5, drops: drops.clone() });
        let got = rx.receive();
        assert_eq!(got.id, 5);
        assert_eq!(drops.load(Ordering::SeqCst), 0);
        drop(got);
        assert_eq!(drops.load(Ordering::SeqCst), 1);
    }
    assert_eq!(drops.load(Ordering::SeqCst), 1);
}

#[test]
fn unsent_channel_finalizes_nothing() {
    let drops = Arc::new(AtomicUsize::new(0));
    {
        let mut channel: Channel<Counted> = Channel::new();
        let (_tx, rx) = channel.split();
        assert!(!rx.is_ready());
    }
    assert_eq!(drops.load(Ordering::SeqCst), 0);
}

#[test]
fn unreceived_value_finalized_at_teardown() {
    let drops = Arc::new(AtomicUsize::new(0));
    {
        let mut channel: Channel<Counted> = Channel::new();
        let (tx, rx) = channel.split();
        tx.send(Counted { id: 1, drops: drops.clone() });
        assert!(rx.is_ready());
        assert_eq!(drops.load(Ordering::SeqCst), 0);
    }
    assert_eq!(drops.load(Ordering::SeqCst), 1);
}

#[test]
fn is_ready_false_before_send_and_stays_true_after() {
    let mut channel: Channel<u8> = Channel::new();
    let (tx, rx) = channel.split();
    assert!(!rx.is_ready());
    assert!(!rx.is_ready());
    tx.send(3);
    assert!(rx.is_ready());
    assert!(rx.is_ready());
    assert_eq!(rx.receive(), 3);
}

#[test]
fn value_sent_before_receiver_looks() {
    let mut channel: Channel<&str> = Channel::new();
    let (tx, rx) = channel.split();
    tx.send("x");
    assert!(rx.is_ready());
    assert_eq!(rx.receive(), "x");
}

#[test]
fn resplit_resets_and_finalizes_old_value() {
    let drops = Arc::new(AtomicUsize::new(0));
    let mut channel: Channel<Counted> = Channel::new();
    {
        let (tx, _rx) = channel.split();
        tx.send(Counted { id: 2, drops: drops.clone() });
    }
    let (tx, rx) = channel.split();
    assert_eq!(drops.load(Ordering::SeqCst), 1);
    assert!(!rx.is_ready());
    tx.send(Counted { id: 3, drops: drops.clone() });
    assert_eq!(rx.receive().id, 3);
    assert_eq!(drops.load(Ordering::SeqCst), 2);
}

#[test]
fn cell_protocol_steps() {
    let mut c: StorageCell<String> = StorageCell::new();
    assert!(!c.is_ready());
    assert!(c.is_waiting());
    assert!(!c.try_take_ready());
    c.write(String::from("v"));
    assert!(!c.is_ready());
    c.publish_ready();
    assert!(c.is_ready());
    assert!(!c.is_waiting());
    assert!(c.try_take_ready());
    assert!(!c.is_ready());
    assert_eq!(c.read_value(), "v");
    assert_eq!(c.into_leftover(), None);
}

#[test]
fn cell_deliver_then_collect() {
    let c: StorageCell<u64> = StorageCell::new();
    let (c, ()) = c.deliver(11);
    assert!(c.is_ready());
    let (c, got) = c.collect();
    assert_eq!(got, Some(11));
    assert!(!c.is_ready());
    let (c, again) = c.collect();
    assert_eq!(again, None);
    assert_eq!(c.into_leftover(), None);
}

#[test]
fn cell_take_published_and_leftover() {
    let (c, ()) = StorageCell::new().deliver(String::from("kept"));
    assert_eq!(c.into_leftover(), Some(String::from("kept")));
    let (c, ()) = StorageCell::new().deliver(8i16);
    let (c, v) = c.take_published();
    assert_eq!(v, 8);
    assert_eq!(c.into_leftover(), None);
}

#[test]
fn cell_reset_and_default_are_empty() {
    let mut c: StorageCell<u8> = StorageCell::default();
    assert!(!c.is_ready());
    c.write(4);
    c.publish_ready();
    c.reset();
    assert!(!c.is_ready());
    assert_eq!(c.into_leftover(), None);
}
