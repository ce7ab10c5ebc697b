use utils::channel::last;
use utils::channel::last_map;

#[test]
fn single_round_trip() {
    let (tx, rx) = last::channel::<i32>();
    assert!(tx.send(5).is_ok());
    assert_eq!(rx.recv().unwrap(), 5);
    assert!(matches!(rx.recv(), Err(last::RecvError::NoNewValue)));
}

#[test]
fn single_coalescing() {
    let (tx, rx) = last::channel::<i32>();
    assert!(tx.send(1).is_ok());
    assert!(tx.send(2).is_ok());
    assert_eq!(rx.recv().unwrap(), 2);
    assert!(matches!(rx.recv(), Err(last::RecvError::NoNewValue)));
}

#[test]
fn single_closed_on_receiver_drop() {
    let (tx, rx) = last::channel::<i32>();
    drop(rx);
    match tx.send(9) {
        Err(last::SendError(v)) => assert_eq!(v, 9),
        Ok(()) => panic!("send succeeded with the receiver gone"),
    }
    match tx.try_send(11) {
        Err(last::TrySendError::ChannelClosed(v)) => assert_eq!(v, 11),
        _ => panic!("try_send did not observe closure"),
    }
}

#[test]
fn single_closed_on_sender_drop() {
    let (tx, rx) = last::channel::<i32>();
    let tx2 = tx.clone();
    drop(tx);
    drop(tx2);
    assert!(matches!(rx.recv(), Err(last::RecvError::ChannelClosed)));
    assert!(matches!(rx.try_recv(), Err(last::TryRecvError::ChannelClosed)));
}

#[test]
fn single_pending_value_outlives_senders() {
    let (tx, rx) = last::channel::<i32>();
    assert!(tx.send(7).is_ok());
    drop(tx);
    assert_eq!(rx.recv().unwrap(), 7);
    assert!(matches!(rx.recv(), Err(last::RecvError::ChannelClosed)));
}

#[test]
fn single_clones_share_the_slot() {
    let (tx, rx) = last::channel::<&'static str>();
    let tx2 = tx.clone();
    assert!(tx.send("first").is_ok());
    assert!(tx2.send("second").is_ok());
    assert_eq!(rx.recv().unwrap(), "second");
    drop(tx2);
    assert!(tx.send("third").is_ok());
    assert_eq!(rx.recv().unwrap(), "third");
}

#[test]
fn single_try_variants() {
    let (tx, rx) = last::channel::<i32>();
    assert!(matches!(rx.try_recv(), Err(last::TryRecvError::NoNewValue)));
    assert!(tx.try_send(4).is_ok());
    assert_eq!(rx.try_recv().unwrap(), 4);
}

#[test]
fn single_slot_operations() {
    let mut slot: last::Slot<i32> = last::Slot::empty();
    assert_eq!(slot.take(), None);
    slot.put(1);
    slot.put(2);
    assert_eq!(slot.take(), Some(2));
    assert_eq!(slot.take(), None);
    assert_eq!(last::Slot::holding(9).into_pending(), Some(9));
    assert_eq!(last::Slot::<i32>::empty().into_pending(), None);
}

#[test]
fn keyed_independence() {
    let (tx, rx) = last_map::channel::<&'static str, i32>();
    assert!(tx.send("k1", 1).is_ok());
    assert!(tx.send("k2", 2).is_ok());
    let mut pairs = rx.recv().unwrap();
    pairs.sort();
    assert_eq!(pairs, vec![("k1", 1), ("k2", 2)]);
}

#[test]
fn keyed_coalescing_per_key() {
    let (tx, rx) = last_map::channel::<&'static str, &'static str>();
    assert!(tx.send("k1", "a").is_ok());
    assert!(tx.send("k1", "b").is_ok());
    assert_eq!(rx.recv().unwrap(), vec![("k1", "b")]);
    assert_eq!(rx.recv().unwrap(), vec![]);
}

#[test]
fn keyed_closed_on_receiver_drop() {
    let (tx, rx) = last_map::channel::<i32, i32>();
    drop(rx);
    match tx.send(1, 10) {
        Err(last_map::SendError(k, v)) => {
            assert_eq!(k, 1);
            assert_eq!(v, 10);
        },
        Ok(()) => panic!("send succeeded with the receiver gone"),
    }
    match tx.try_send(2, 20) {
        Err(last_map::TrySendError::ChannelClosed(k, v)) => {
            assert_eq!(k, 2);
            assert_eq!(v, 20);
        },
        _ => panic!("try_send did not observe closure"),
    }
}

#[test]
fn keyed_closed_on_sender_drop() {
    let (tx, rx) = last_map::channel::<i32, i32>();
    let tx2 = tx.clone();
    drop(tx);
    drop(tx2);
    assert!(matches!(rx.recv(), Err(last_map::RecvError)));
    assert!(matches!(rx.try_recv(), Err(last_map::TryRecvError::ChannelClosed)));
}

#[test]
fn keyed_pending_values_outlive_senders() {
    let (tx, rx) = last_map::channel::<i32, i32>();
    assert!(tx.send(1, 10).is_ok());
    drop(tx);
    assert_eq!(rx.recv().unwrap(), vec![(1, 10)]);
    assert!(matches!(rx.recv(), Err(last_map::RecvError)));
}

#[test]
fn keyed_try_variants() {
    let (tx, rx) = last_map::channel::<i32, i32>();
    assert_eq!(rx.try_recv().unwrap(), vec![]);
    assert!(tx.try_send(3, 30).is_ok());
    assert_eq!(rx.try_recv().unwrap(), vec![(3, 30)]);
}

#[test]
fn keyed_drain_keeps_entry_order() {
    let mut slot: last_map::KeyedSlot<i32, i32> = last_map::KeyedSlot::empty();
    slot.put(2, 20);
    slot.put(1, 10);
    slot.put(2, 21);
    assert_eq!(slot.drain(), vec![(2, 21), (1, 10)]);
    assert_eq!(slot.drain(), vec![]);
    slot.put(1, 11);
    assert_eq!(slot.drain(), vec![(1, 11)]);
}

#[test]
fn single_try_sends_coalesce_to_the_last() {
    let (tx, rx) = last::channel::<i32>();
    assert!(tx.try_send(1).is_ok());
    assert!(tx.try_send(2).is_ok());
    assert!(tx.try_send(3).is_ok());
    assert_eq!(rx.recv().unwrap(), 3);
    assert!(matches!(rx.recv(), Err(last::RecvError::NoNewValue)));
}

#[test]
fn single_classifiers_decide_the_receive() {
    assert_eq!(last::finish_take(Some(5), true), Ok(5));
    assert_eq!(last::finish_take(Some(5), false), Ok(5));
    assert!(matches!(last::finish_take::<i32>(None, true), Err(last::RecvError::NoNewValue)));
    assert!(matches!(last::finish_take::<i32>(None, false), Err(last::RecvError::ChannelClosed)));
    assert_eq!(last::finish_try_take(Some(7), true), Ok(7));
    assert!(matches!(
        last::finish_try_take::<i32>(None, true),
        Err(last::TryRecvError::NoNewValue)
    ));
    assert!(matches!(
        last::finish_try_take::<i32>(None, false),
        Err(last::TryRecvError::ChannelClosed)
    ));
}

#[test]
fn keyed_classifiers_decide_the_receive() {
    assert_eq!(last_map::finish_drain(vec![(1, 10)], false), Ok(vec![(1, 10)]));
    assert_eq!(last_map::finish_drain::<i32, i32>(vec![], true), Ok(vec![]));
    assert!(matches!(
        last_map::finish_drain::<i32, i32>(vec![], false),
        Err(last_map::RecvError)
    ));
    assert_eq!(last_map::finish_try_drain(vec![(2, 20)], false), Ok(vec![(2, 20)]));
    assert_eq!(last_map::finish_try_drain::<i32, i32>(vec![], true), Ok(vec![]));
    assert!(matches!(
        last_map::finish_try_drain::<i32, i32>(vec![], false),
        Err(last_map::TryRecvError::ChannelClosed)
    ));
}

#[test]
fn sender_clones_are_equal_handles() {
    let (tx, rx) = last::channel::<i32>();
    let tx2 = tx.clone();
    let tx3 = tx2.clone();
    drop(tx);
    drop(tx2);
    assert!(tx3.send(12).is_ok());
    assert_eq!(rx.recv().unwrap(), 12);
}
