use gardum::network::message::{
    receive_local, relay_chat, route, ClientMessage, Delivery, MessageReceived, Route, SendKind,
    ServerMessage,
};
use gardum::network::replication::{
    build_server_messages, change_to_send, component_op, entity_changes, Change, ChangeKind,
    ChangeTicks, ClientAcks, ComponentOp, NetworkEntityMap, NetworkTick, ReceivedServerTick,
    Replication,
};
use gardum::network::{
    client_transition, exit_cleanup, server_transition, Channel, NetworkingState, SocketCleanup,
    DEFAULT_PORT, SERVER_ID,
};

const TRANSFORM: u64 = 1;
const CLIENT_ID: u64 = 17;

#[test]
fn messages_broadcasted() {
    const CHAT_MESSAGE: &str = "Player message";
    let received = MessageReceived {
        client_id: SERVER_ID,
        message: ClientMessage::ChatMessage(CHAT_MESSAGE.to_string()),
    };

    let sent_message = relay_chat(&received);

    assert!(
        matches!(sent_message.kind, SendKind::BroadcastExcept(client_id) if client_id == SERVER_ID),
        "The sent message should be broadcast to everyone except the sender"
    );
    let ServerMessage::ChatMessage { sender_id, message } = sent_message.message;
    assert_eq!(sender_id, SERVER_ID, "Chat message should contain the same sender id as the received message");
    assert_eq!(message, CHAT_MESSAGE, "The message sent should match the received chat message");
}

#[test]
fn local_client_messages() {
    let client_message = ClientMessage::ChatMessage("Hi from local client".into());
    let event = receive_local(client_message.clone());
    assert_eq!(event.message, client_message, "The received message should match the one sent");
    assert_eq!(event.client_id, SERVER_ID, "Client ID from the event should match with the sender");
}

#[test]
fn client_messages() {
    let client_message = ClientMessage::ChatMessage("Hi from client".into());
    let local_event = receive_local(client_message.clone());
    let remote_event = MessageReceived { client_id: CLIENT_ID, message: client_message.clone() };
    assert_eq!(local_event.message, client_message, "The received message should match the one sent");
    assert_eq!(local_event.client_id, SERVER_ID, "Client ID should should match the server ID for local message");
    assert_eq!(remote_event.client_id, CLIENT_ID, "Client ID from the remote event should match with the sender");
}

#[test]
fn server_messages() {
    assert_eq!(route(SendKind::Broadcast), Route { delivery: Delivery::All, local: true });
    assert_eq!(route(SendKind::Direct(SERVER_ID)), Route { delivery: Delivery::Nowhere, local: true });
    assert_eq!(route(SendKind::Direct(CLIENT_ID)), Route { delivery: Delivery::One(CLIENT_ID), local: false });
    assert_eq!(route(SendKind::BroadcastExcept(SERVER_ID)), Route { delivery: Delivery::All, local: false });
    assert_eq!(
        route(SendKind::BroadcastExcept(CLIENT_ID)),
        Route { delivery: Delivery::AllExcept(CLIENT_ID), local: true }
    );
}

#[test]
fn channel_ids_and_constants() {
    assert_eq!(Channel::Reliable.id(), 0);
    assert_eq!(Channel::Unreliable.id(), 1);
    assert_eq!(DEFAULT_PORT, 4761);
    assert_eq!(SERVER_ID, 0);
}

#[test]
fn socket_events() {
    assert_eq!(server_transition(NetworkingState::NoSocket, true), Some(NetworkingState::Hosting));
    assert_eq!(server_transition(NetworkingState::NoSocket, false), None);
    assert_eq!(
        exit_cleanup(NetworkingState::Hosting, false),
        SocketCleanup::ShutdownServer,
        "Server resource should be removed on exiting Hosting state"
    );
}

#[test]
fn connects() {
    assert_eq!(
        client_transition(NetworkingState::NoSocket, true, false),
        Some(NetworkingState::Connecting),
        "Networking state should be in Connecting state after client creation"
    );
    assert_eq!(client_transition(NetworkingState::Connecting, false, false), None);
    assert_eq!(
        client_transition(NetworkingState::Connecting, false, true),
        Some(NetworkingState::Connected),
        "Networking state should be in Connected state after connection"
    );
    assert_eq!(exit_cleanup(NetworkingState::Connected, true), SocketCleanup::DisconnectClient);
}

#[test]
fn connection_cancels() {
    assert_eq!(
        exit_cleanup(NetworkingState::Connecting, false),
        SocketCleanup::DropClient,
        "Client resource should be removed on entering NoSocket state"
    );
    assert_eq!(exit_cleanup(NetworkingState::Connecting, true), SocketCleanup::Keep);
    assert_eq!(exit_cleanup(NetworkingState::NoSocket, false), SocketCleanup::Keep);
}

#[test]
fn updates_on_changes() {
    let mut replication = Replication::new();
    let mut network_tick = NetworkTick(10);
    for _ in 0..2 {
        network_tick.0 += 1;
        replication.mark_changed(TRANSFORM, network_tick.0);
        let change_ticks = replication.get(TRANSFORM).expect("Replication components should contain Transform");
        assert_eq!(change_ticks.changed, network_tick.0, "Tick when resource changed should be equal to the current network tick");
        assert!(change_ticks.removed < network_tick.0, "Tick when resource removed should be less then the current network tick");

        network_tick.0 += 1;
        replication.mark_removed(TRANSFORM, network_tick.0);
        let change_ticks = replication.get(TRANSFORM).expect("Replication components should contain Transform");
        assert_eq!(change_ticks.removed, network_tick.0, "Tick when resource removed should be equal to the current network tick");
        assert!(change_ticks.changed < network_tick.0, "Tick when resource changed should be less then the current network tick");
    }
}

#[test]
fn client_acks_insert_and_remove() {
    let mut client_acks = ClientAcks::new();
    client_acks.connect(CLIENT_ID);
    assert_eq!(client_acks.get(CLIENT_ID), Some(0));
    client_acks.disconnect(CLIENT_ID);
    assert_eq!(client_acks.get(CLIENT_ID), None);
}

#[test]
fn acks_keep_the_highest_tick() {
    let mut acks = ClientAcks::new();
    acks.record(CLIENT_ID, &vec![]);
    assert_eq!(acks.get(CLIENT_ID), None, "nothing received, nothing recorded");
    acks.record(CLIENT_ID, &vec![3, 7, 5]);
    assert_eq!(acks.get(CLIENT_ID), Some(7));
    acks.record(CLIENT_ID, &vec![4]);
    assert_eq!(acks.get(CLIENT_ID), Some(7), "an older acknowledgement does not go back");
    acks.connect(2);
    let mut entries = acks.entries();
    entries.sort();
    assert_eq!(entries, vec![(2, 0), (CLIENT_ID, 7)]);
}

#[test]
fn removed_component_replicates() {
    let ticks = ChangeTicks { changed: 0, removed: 1 };
    assert_eq!(change_to_send(ticks, 0), Some(ChangeKind::Removed), "Client should replicate the transform removal");
}

#[test]
fn inserted_component_replicates() {
    let mut replication = Replication::new();
    replication.mark_changed(TRANSFORM, 2);
    assert_eq!(
        entity_changes(&replication, 1),
        vec![Change { component: TRANSFORM, kind: ChangeKind::Changed }],
        "The client should replicate the transform component"
    );
    assert!(entity_changes(&replication, 3).is_empty(), "an acknowledged change is not sent again");
}

#[test]
fn spawned_entity_replicates() {
    let mut tick = NetworkTick::new();
    assert_eq!(tick.advance(), NetworkTick::new().0 + 1);
    let entities = vec![(5u64, Replication::new())];
    let messages = build_server_messages(tick.0, &entities, &vec![(CLIENT_ID, 0)]);
    assert_eq!(messages.len(), 1);
    assert_eq!(messages[0].0, CLIENT_ID);
    assert_eq!(messages[0].1.tick, tick.0);
    assert_eq!(messages[0].1.component_changes.len(), 1, "Server entity should be replicated to the client");
    assert_eq!(messages[0].1.component_changes[0].0, 5);
    assert!(messages[0].1.component_changes[0].1.is_empty());
    assert!(build_server_messages(tick.0, &vec![], &vec![(CLIENT_ID, 0)]).is_empty());

    let mut received = ReceivedServerTick::new();
    assert_eq!(received.accept(&vec![2, 4, 4, 3]), Some(2), "the last of the newest messages is applied");
    assert_eq!(received.0, 4);
    assert_eq!(received.accept(&vec![4, 1]), None, "an old message is ignored");
    assert_eq!(received.accept(&vec![]), None);
}

#[test]
fn client_resets() {
    assert_eq!(NetworkTick::new().0, 1, "Resource NetworkTick should be defaulted");
    assert_eq!(ReceivedServerTick::new().0, 0, "Resource ReceivedServerTick should be defaulted");
}

#[test]
fn server_resets() {
    assert_eq!(NetworkTick::new().0, 1, "Resource NetworkTick should be defaulted");
    assert!(ClientAcks::new().entries().is_empty(), "Resource ClientAcks should be empty");
}

#[test]
fn change_decisions() {
    let ack = 5;
    assert_eq!(change_to_send(ChangeTicks { changed: 3, removed: 4 }, ack), None);
    assert_eq!(change_to_send(ChangeTicks { changed: 6, removed: 0 }, ack), Some(ChangeKind::Changed));
    assert_eq!(change_to_send(ChangeTicks { changed: 6, removed: 7 }, ack), Some(ChangeKind::Removed));
    assert_eq!(change_to_send(ChangeTicks { changed: 5, removed: 0 }, ack), None);
}

#[test]
fn server_entities_map_to_local_ones() {
    let mut map = NetworkEntityMap::new();
    assert_eq!(map.get(5), None);
    assert_eq!(map.resolve(5, 100), 100);
    assert_eq!(map.get(5), Some(100));
    // Already bound: the freshly spawned entity is not used.
    assert_eq!(map.resolve(5, 200), 100);
    assert_eq!(map.resolve(6, 200), 200);
    assert_eq!(map.get(6), Some(200));
    assert_eq!(map.get(5), Some(100));
}

#[test]
fn received_changes_become_world_operations() {
    assert_eq!(component_op(ChangeKind::Changed, true), ComponentOp::Apply);
    assert_eq!(component_op(ChangeKind::Changed, false), ComponentOp::Add);
    assert_eq!(component_op(ChangeKind::Removed, true), ComponentOp::Remove);
    assert_eq!(component_op(ChangeKind::Removed, false), ComponentOp::Remove);
}

#[test]
fn marked_changes_reach_clients_behind() {
    let mut replication = Replication::new();
    replication.mark_changed(TRANSFORM, 5);
    assert_eq!(
        entity_changes(&replication, 4),
        vec![Change { component: TRANSFORM, kind: ChangeKind::Changed }]
    );
    replication.mark_removed(TRANSFORM, 7);
    assert_eq!(
        entity_changes(&replication, 6),
        vec![Change { component: TRANSFORM, kind: ChangeKind::Removed }]
    );
    assert_eq!(entity_changes(&replication, 8), vec![]);
}
