use voicepipe::channel::TransferChannel;

#[test]
fn chunks_come_out_in_the_order_they_went_in() {
    let mut ch = TransferChannel::new(3);
    let a = vec![1u8, 2, 3];
    let b = vec![4u8, 5];
    let c = vec![6u8];
    assert!(ch.try_send(a.clone()).is_ok());
    assert!(ch.try_send(b.clone()).is_ok());
    assert!(ch.try_send(c.clone()).is_ok());
    assert_eq!(ch.recv(), Some(a));
    assert_eq!(ch.recv(), Some(b));
    assert_eq!(ch.recv(), Some(c));
    assert_eq!(ch.recv(), None);
}

#[test]
fn full_channel_refuses_and_returns_the_chunk() {
    let mut ch = TransferChannel::new(1);
    assert!(ch.try_send(vec![1u8]).is_ok());
    assert_eq!(ch.len(), 1);
    assert_eq!(ch.try_send(vec![2u8]), Err(vec![2u8]));
    assert_eq!(ch.len(), 1);
    assert_eq!(ch.recv(), Some(vec![1u8]));
    assert!(ch.try_send(vec![2u8]).is_ok());
}

#[test]
fn closed_channel_refuses_new_chunks_but_drains() {
    let mut ch = TransferChannel::new(4);
    assert!(ch.try_send(vec![9u8]).is_ok());
    assert!(!ch.is_closed());
    ch.close();
    assert!(ch.is_closed());
    assert_eq!(ch.try_send(vec![7u8]), Err(vec![7u8]));
    assert_eq!(ch.recv(), Some(vec![9u8]));
    assert_eq!(ch.recv(), None);
    assert!(ch.is_closed());
}

#[test]
fn empty_open_channel_yields_nothing_yet() {
    let mut ch = TransferChannel::new(2);
    assert_eq!(ch.recv(), None);
    assert!(!ch.is_closed());
    assert_eq!(ch.len(), 0);
}
