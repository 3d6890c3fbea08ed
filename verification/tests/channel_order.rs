use command_channel::channel::{Channel, ChannelClosed};

#[test]
fn fresh_channel_is_open_and_empty() {
    let mut channel: Channel<u32> = Channel::open();
    assert!(!channel.is_closed());
    assert_eq!(channel.pending_len(), 0);
    assert_eq!(channel.recv(), None);
    assert_eq!(channel.drain(), Vec::<u32>::new());
}

#[test]
fn events_arrive_in_the_order_sent() {
    let mut channel = Channel::open();
    for value in [3u32, 1, 4, 1, 5, 9, 2, 6] {
        assert_eq!(channel.send(value), Ok(()));
    }
    assert_eq!(channel.pending_len(), 8);
    assert_eq!(channel.recv(), Some(3));
    assert_eq!(channel.recv(), Some(1));
    assert_eq!(channel.pending_len(), 6);
    assert_eq!(channel.drain(), vec![4, 1, 5, 9, 2, 6]);
    assert_eq!(channel.recv(), None);
}

#[test]
fn sending_and_receiving_interleave() {
    let mut channel = Channel::open();
    assert_eq!(channel.send('a'), Ok(()));
    assert_eq!(channel.recv(), Some('a'));
    assert_eq!(channel.recv(), None);
    assert_eq!(channel.send('b'), Ok(()));
    assert_eq!(channel.send('c'), Ok(()));
    assert_eq!(channel.recv(), Some('b'));
    assert_eq!(channel.send('d'), Ok(()));
    assert_eq!(channel.drain(), vec!['c', 'd']);
}

#[test]
fn send_on_a_closed_channel_fails_and_changes_nothing() {
    let mut channel = Channel::open();
    assert_eq!(channel.send(1u8), Ok(()));
    channel.close();
    assert!(channel.is_closed());
    assert_eq!(channel.send(2u8), Err(ChannelClosed));
    assert_eq!(channel.send(3u8), Err(ChannelClosed));
    assert_eq!(channel.pending_len(), 1);
}

#[test]
fn what_was_sent_before_close_can_still_be_received() {
    let mut channel = Channel::open();
    assert_eq!(channel.send(1u8), Ok(()));
    assert_eq!(channel.send(2u8), Ok(()));
    channel.close();
    channel.close();
    assert!(channel.is_closed());
    assert_eq!(channel.recv(), Some(1));
    assert_eq!(channel.drain(), vec![2]);
    assert!(channel.is_closed());
}
