use subtensor_node::extrinsic::{
    ExtrinsicListener, ForwarderAction, ForwarderEvent, ListenerAction, ListenerEvent,
    SubscriptionForwarder, EXTRINSIC_CHANNEL_CAPACITY,
};
use subtensor_node::hash_text::extrinsic_hash_text;

fn hash_with_ends(first: [u8; 2], last: [u8; 2]) -> [u8; 32] {
    let mut h = [0x55u8; 32];
    h[0] = first[0];
    h[1] = first[1];
    h[30] = last[0];
    h[31] = last[1];
    h
}

fn full_text(h: &[u8; 32]) -> String {
    let mut t = String::from("0x");
    for b in h.iter() {
        t.push_str(&format!("{:02x}", b));
    }
    t
}

#[test]
fn hash_text_is_full_lowercase_hex() {
    let h = hash_with_ends([0x12, 0x34], [0xab, 0xcd]);
    let expected = format!("0x1234{}abcd", "55".repeat(28));
    assert_eq!(extrinsic_hash_text(&h), expected);
    assert_eq!(extrinsic_hash_text(&h).len(), 66);
}

#[test]
fn hash_text_of_zero_hash() {
    assert_eq!(extrinsic_hash_text(&[0u8; 32]), format!("0x{}", "0".repeat(64)));
}

#[test]
fn hash_text_of_repeated_ab() {
    assert_eq!(extrinsic_hash_text(&[0xab; 32]), format!("0x{}", "ab".repeat(32)));
}

#[test]
fn hash_text_pads_small_bytes() {
    let mut h = [0u8; 32];
    h[0] = 0x01;
    h[1] = 0x0f;
    h[31] = 0x0a;
    let t = extrinsic_hash_text(&h);
    assert!(t.starts_with("0x010f"));
    assert!(t.ends_with("0a"));
    assert_eq!(t, full_text(&h));
}

#[test]
fn hash_text_matches_sp_core_debug() {
    let mut h = [0u8; 32];
    for (i, b) in h.iter_mut().enumerate() {
        *b = (i as u8).wrapping_mul(37).wrapping_add(11);
    }
    assert_eq!(extrinsic_hash_text(&h), format!("{:?}", sp_core::H256::from(h)));
    assert_eq!(extrinsic_hash_text(&h), full_text(&h));
}

#[test]
fn hash_text_tells_middle_bytes_apart() {
    let a = hash_with_ends([0xde, 0xad], [0xbe, 0xef]);
    let mut b = a;
    b[17] = 0x01;
    assert_ne!(extrinsic_hash_text(&a), extrinsic_hash_text(&b));
}

#[test]
fn channel_capacity_is_one_thousand() {
    assert_eq!(EXTRINSIC_CHANNEL_CAPACITY, 1000);
}

#[test]
fn listener_broadcasts_each_notification_unchanged() {
    let h1 = hash_with_ends([1, 2], [3, 4]);
    let h2 = hash_with_ends([5, 6], [7, 8]);
    let mut l = ExtrinsicListener::new();
    assert!(!l.is_finished());
    assert_eq!(l.step(ListenerEvent::Notification(h1)), ListenerAction::Broadcast(h1));
    assert_eq!(l.step(ListenerEvent::Broadcasted(2)), ListenerAction::AwaitNotification);
    assert_eq!(l.step(ListenerEvent::Notification(h2)), ListenerAction::Broadcast(h2));
    assert_eq!(l.step(ListenerEvent::Broadcasted(1)), ListenerAction::AwaitNotification);
    assert!(!l.is_finished());
}

#[test]
fn listener_keeps_going_without_subscribers() {
    let h = hash_with_ends([9, 9], [9, 9]);
    let mut l = ExtrinsicListener::new();
    assert_eq!(l.step(ListenerEvent::Notification(h)), ListenerAction::Broadcast(h));
    assert_eq!(
        l.step(ListenerEvent::NoSubscribers),
        ListenerAction::WarnNoSubscribersThenAwait
    );
    assert!(!l.is_finished());
    assert_eq!(l.step(ListenerEvent::Notification(h)), ListenerAction::Broadcast(h));
}

#[test]
fn listener_finishes_when_stream_ends() {
    let mut l = ExtrinsicListener::new();
    assert_eq!(l.step(ListenerEvent::StreamEnded), ListenerAction::Finish);
    assert!(l.is_finished());
}

#[test]
fn forwarder_delivers_hash_texts_in_order() {
    let h1 = hash_with_ends([0xaa, 0x01], [0x02, 0xbb]);
    let h2 = hash_with_ends([0x00, 0xff], [0xff, 0x00]);
    let mut f = SubscriptionForwarder::new();
    assert_eq!(f.step(ForwarderEvent::Accepted), ForwarderAction::Receive);
    assert_eq!(f.step(ForwarderEvent::Received(h1)), ForwarderAction::Deliver(full_text(&h1)));
    assert_eq!(f.step(ForwarderEvent::Delivered), ForwarderAction::Receive);
    assert_eq!(f.step(ForwarderEvent::Received(h2)), ForwarderAction::Deliver(full_text(&h2)));
    assert_eq!(f.step(ForwarderEvent::Delivered), ForwarderAction::Receive);
    assert!(!f.is_finished());
    assert_eq!(f.step(ForwarderEvent::ChannelClosed), ForwarderAction::Finish);
    assert!(f.is_finished());
}

#[test]
fn forwarder_ends_when_accept_fails() {
    let mut f = SubscriptionForwarder::new();
    assert_eq!(f.step(ForwarderEvent::Rejected), ForwarderAction::Finish);
    assert!(f.is_finished());
}

#[test]
fn forwarder_ends_on_lag() {
    let mut f = SubscriptionForwarder::new();
    assert_eq!(f.step(ForwarderEvent::Accepted), ForwarderAction::Receive);
    assert_eq!(f.step(ForwarderEvent::Lagged(3)), ForwarderAction::Finish);
    assert!(f.is_finished());
}

#[test]
fn forwarder_ends_when_subscriber_is_gone() {
    let h = [7u8; 32];
    let mut f = SubscriptionForwarder::new();
    f.step(ForwarderEvent::Accepted);
    assert_eq!(
        f.step(ForwarderEvent::Received(h)),
        ForwarderAction::Deliver(format!("0x{}", "07".repeat(32)))
    );
    assert_eq!(f.step(ForwarderEvent::DeliveryFailed), ForwarderAction::Finish);
    assert!(f.is_finished());
}
