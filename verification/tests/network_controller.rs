use aptos_secure_net::{Message, MessageType, NetworkController, NetworkMessage, PeerAddress};
use crossbeam_channel::TryRecvError;

fn localhost(port: u16) -> PeerAddress {
    PeerAddress::V4 { ip: [127, 0, 0, 1], port }
}

#[test]
fn message_type_reads_back_its_name() {
    let t = MessageType::new("test1".to_string());
    assert_eq!(t.get_type(), "test1");
    assert_eq!(t, MessageType::new("test1".to_string()));
    assert_ne!(t, MessageType::new("test2".to_string()));
}

#[test]
fn message_gives_back_its_bytes() {
    let data = "test1".as_bytes().to_vec();
    let m = Message::new(data.clone());
    assert_eq!(m.data, data);
    assert_eq!(m.to_bytes(), data);
}

#[test]
fn network_message_holds_its_parts() {
    let m = NetworkMessage::new(
        localhost(1000),
        Message::new(vec![1, 2, 3]),
        MessageType::new("test2".to_string()),
    );
    assert_eq!(m.sender, localhost(1000));
    assert_eq!(m.message.data, vec![1, 2, 3]);
    assert_eq!(m.message_type.get_type(), "test2");
}

#[test]
fn outbound_channel_stays_connected_to_its_registered_end() {
    let mut controller = NetworkController::new("test1", localhost(6001), 1000);
    let sender = controller.create_outbound_channel(localhost(6002), "test1");
    assert_eq!(sender.capacity(), None);
    assert!(sender.is_empty());
    assert!(sender.send(Message::new("test1".as_bytes().to_vec())).is_ok());
    assert_eq!(sender.len(), 1);
    drop(controller);
    assert!(sender.send(Message::new(vec![0])).is_err());
}

#[test]
fn inbound_channel_stays_connected_to_its_registered_end() {
    let mut controller = NetworkController::new("test2", localhost(6003), 1000);
    let receiver = controller.create_inbound_channel("test2");
    assert_eq!(receiver.capacity(), None);
    assert_eq!(receiver.try_recv().unwrap_err(), TryRecvError::Empty);
    drop(controller);
    assert_eq!(receiver.try_recv().unwrap_err(), TryRecvError::Disconnected);
}

#[test]
fn each_channel_is_a_fresh_one() {
    let mut controller = NetworkController::new("test3", localhost(6004), 1000);
    let first = controller.create_outbound_channel(localhost(6005), "a");
    let second = controller.create_outbound_channel(localhost(6005), "a");
    assert!(first.send(Message::new(vec![1])).is_ok());
    assert_eq!(first.len(), 1);
    assert_eq!(second.len(), 0);
    assert!(!first.same_channel(&second));
    controller.start();
    assert!(second.send(Message::new(vec![2])).is_ok());
}

#[test]
fn inbound_channels_of_two_types_are_separate() {
    let mut controller = NetworkController::new("test4", localhost(6006), 1000);
    let first = controller.create_inbound_channel("test1");
    let second = controller.create_inbound_channel("test2");
    assert!(!first.same_channel(&second));
    assert_eq!(first.try_recv().unwrap_err(), TryRecvError::Empty);
    assert_eq!(second.try_recv().unwrap_err(), TryRecvError::Empty);
}
