use penumbra_ibc::action::{deliver, Action, Transaction};
use penumbra_ibc::channel::{
    MsgChannelCloseInit, MsgChannelOpenAck, MsgChannelOpenConfirm, MsgChannelOpenInit,
    MsgChannelOpenTry,
};
use penumbra_ibc::connection::{
    MsgConnectionOpenAck, MsgConnectionOpenConfirm, MsgConnectionOpenInit, MsgConnectionOpenTry,
};
use penumbra_ibc::digest::commit_packet;
use penumbra_ibc::error::Error;
use penumbra_ibc::handler::{ActionHandler, Claim, Evidence};
use penumbra_ibc::ident::Identifier;
use penumbra_ibc::packet::{send_packet, MsgAcknowledgement, MsgRecvPacket, MsgTimeout, TimeoutProof};
use penumbra_ibc::router::Stage;
use penumbra_ibc::state::ChainState;
use penumbra_ibc::types::{
    ChannelCounterparty, ChannelEnd, ChannelState, ClientState, ClientType, Height, Order, Packet,
};

fn id(text: &str) -> Identifier {
    Identifier::new(text)
}

fn no_context() -> Transaction {
    Transaction { actions: Vec::new() }
}

fn agreed() -> Evidence {
    Evidence::agreed()
}

fn with_ack(bytes: &[u8]) -> Evidence {
    let mut evidence = Evidence::agreed();
    evidence.acknowledgement = bytes.to_vec();
    evidence
}

fn chain_with_client(client: &str, height: u64) -> ChainState {
    let mut state = ChainState::new();
    state.clients.insert(
        id(client),
        ClientState { client_type: ClientType::Tendermint, latest_height: Height::new(0, height) },
    );
    state
}

/// Chain A with `chan-A` and chain B with `chan-B`, open towards each
/// other on the transfer port.
fn open_channels() -> (ChainState, ChainState) {
    let mut chain_a = chain_with_client("C0", 90);
    let mut chain_b = chain_with_client("C1", 100);
    let ok = agreed();
    MsgConnectionOpenInit {
        connection_id: id("conn-0"),
        client_id: id("C0"),
        counterparty_client_id: id("C1"),
        versions: vec![1],
    }
    .execute(&mut chain_a, &ok)
    .unwrap();
    MsgConnectionOpenTry {
        connection_id: id("conn-1"),
        client_id: id("C1"),
        counterparty_client_id: id("C0"),
        counterparty_connection_id: id("conn-0"),
        counterparty_versions: vec![1],
        proof: vec![1],
        proof_height: Height::new(0, 100),
    }
    .execute(&mut chain_b, &ok)
    .unwrap();
    MsgConnectionOpenAck {
        connection_id: id("conn-0"),
        counterparty_connection_id: id("conn-1"),
        version: 1,
        proof: vec![1],
        proof_height: Height::new(0, 90),
    }
    .execute(&mut chain_a, &ok)
    .unwrap();
    MsgConnectionOpenConfirm { connection_id: id("conn-1"), proof: vec![1], proof_height: Height::new(0, 100) }
        .execute(&mut chain_b, &ok)
        .unwrap();
    MsgChannelOpenInit {
        port_id: id("transfer"),
        channel_id: id("chan-A"),
        ordering: Order::Unordered,
        connection_id: id("conn-0"),
        counterparty_port_id: id("transfer"),
    }
    .execute(&mut chain_a, &ok)
    .unwrap();
    MsgChannelOpenTry {
        port_id: id("transfer"),
        channel_id: id("chan-B"),
        ordering: Order::Unordered,
        connection_id: id("conn-1"),
        counterparty_port_id: id("transfer"),
        counterparty_channel_id: id("chan-A"),
        proof: vec![1],
        proof_height: Height::new(0, 100),
    }
    .execute(&mut chain_b, &ok)
    .unwrap();
    MsgChannelOpenAck {
        port_id_on_a: id("transfer"),
        chan_id_on_a: id("chan-A"),
        chan_id_on_b: id("chan-B"),
        proof: vec![1],
        proof_height: Height::new(0, 90),
    }
    .execute(&mut chain_a, &ok)
    .unwrap();
    MsgChannelOpenConfirm {
        port_id: id("transfer"),
        channel_id: id("chan-B"),
        proof: vec![1],
        proof_height: Height::new(0, 100),
    }
    .execute(&mut chain_b, &ok)
    .unwrap();
    chain_b.begin_block(Height::new(0, 10), 1_000);
    (chain_a, chain_b)
}

fn send(chain: &mut ChainState, data: &[u8]) -> Packet {
    send_packet(chain, &id("transfer"), &id("chan-A"), data.to_vec(), Height::new(0, 50), 0).unwrap()
}

fn send_five(chain: &mut ChainState) -> Packet {
    for _ in 0..4 {
        send(chain, b"earlier");
    }
    send(chain, b"fifth")
}

fn source_key(packet: &Packet) -> (Identifier, Identifier, u64) {
    (packet.port_on_a.clone(), packet.chan_on_a.clone(), packet.sequence)
}

fn destination_key(packet: &Packet) -> (Identifier, Identifier, u64) {
    (packet.port_on_b.clone(), packet.chan_on_b.clone(), packet.sequence)
}

fn recv(packet: &Packet) -> MsgRecvPacket {
    MsgRecvPacket { packet: packet.clone(), proof: vec![7], proof_height: Height::new(0, 100) }
}

fn ack(packet: &Packet, acknowledgement: &[u8]) -> MsgAcknowledgement {
    MsgAcknowledgement {
        packet: packet.clone(),
        acknowledgement: acknowledgement.to_vec(),
        proof: vec![7],
        proof_height: Height::new(0, 90),
    }
}

fn timeout(packet: &Packet) -> MsgTimeout {
    MsgTimeout {
        packet: packet.clone(),
        shows: TimeoutProof::ReceiptAbsent,
        proof: vec![7],
        proof_height: Height::new(0, 90),
    }
}

#[test]
fn sending_numbers_packets_and_commits_to_them() {
    let (mut chain_a, _) = open_channels();
    let first = send(&mut chain_a, b"one");
    assert_eq!(first.sequence, 1);
    assert_eq!(first.port_on_a, id("transfer"));
    assert_eq!(first.chan_on_a, id("chan-A"));
    assert_eq!(first.port_on_b, id("transfer"));
    assert_eq!(first.chan_on_b, id("chan-B"));
    assert_eq!(first.data, b"one".to_vec());
    assert_eq!(first.timeout_height_on_b, Height::new(0, 50));
    let second = send(&mut chain_a, b"two");
    assert_eq!(second.sequence, 2);
    assert_eq!(chain_a.commitments.get(&source_key(&first)), Some(&commit_packet(&first)));
    assert_eq!(chain_a.commitments.get(&source_key(&second)), Some(&commit_packet(&second)));
    assert_eq!(chain_a.next_sequence_send.get(&(id("transfer"), id("chan-A"))), Some(&3));
}

#[test]
fn sending_is_refused_without_data_timeout_or_open_channel() {
    let (mut chain_a, _) = open_channels();
    let port = id("transfer");
    let channel = id("chan-A");
    assert_eq!(
        send_packet(&mut chain_a, &port, &channel, Vec::new(), Height::new(0, 5), 0),
        Err(Error::MalformedAction)
    );
    assert_eq!(
        send_packet(&mut chain_a, &port, &channel, vec![1], Height::zero(), 0),
        Err(Error::MalformedAction)
    );
    assert_eq!(
        send_packet(&mut chain_a, &id("oracle"), &channel, vec![1], Height::zero(), 9),
        Err(Error::InvalidPort)
    );
    assert_eq!(
        send_packet(&mut chain_a, &port, &id("chan-Z"), vec![1], Height::zero(), 9),
        Err(Error::InvalidStateTransition)
    );
    assert!(send_packet(&mut chain_a, &port, &channel, vec![1], Height::zero(), 9).is_ok());
    chain_a.next_sequence_send.insert((id("transfer"), id("chan-A")), u64::MAX);
    assert_eq!(
        send_packet(&mut chain_a, &port, &channel, vec![1], Height::zero(), 9),
        Err(Error::InvalidStateTransition)
    );
    MsgChannelCloseInit { port_id: id("transfer"), channel_id: id("chan-A") }
        .execute(&mut chain_a, &agreed())
        .unwrap();
    chain_a.next_sequence_send.insert((id("transfer"), id("chan-A")), 2);
    assert_eq!(
        send_packet(&mut chain_a, &port, &channel, vec![1], Height::zero(), 9),
        Err(Error::InvalidStateTransition)
    );
    assert!(chain_a.commitments.get(&(id("transfer"), id("chan-A"), 2)).is_none());
}

#[test]
fn packet_five_is_received_acknowledged_and_cannot_time_out() {
    let (mut chain_a, mut chain_b) = open_channels();
    let packet = send_five(&mut chain_a);
    assert_eq!(packet.sequence, 5);
    assert!(chain_a.commitments.contains(&source_key(&packet)));

    // Receive on chan-B with a valid proof.
    let receive = recv(&packet);
    assert_eq!(receive.check_stateless(&no_context()), Ok(()));
    let request = receive.proof_request(&chain_b).unwrap();
    assert_eq!(request.client_id, id("C1"));
    match &request.claim {
        Claim::PacketCommitment { port_id, channel_id, sequence, commitment } => {
            assert_eq!(
                chain_a.commitments.get(&(port_id.clone(), channel_id.clone(), *sequence)),
                Some(commitment)
            );
        }
        other => panic!("unexpected claim {:?}", other),
    }
    let evidence = with_ack(&[0xaa]);
    assert_eq!(receive.check_stateful(&chain_b, &evidence), Ok(()));
    let outcome = receive.execute(&mut chain_b, &evidence).unwrap();
    assert_eq!(outcome.events.len(), 2);
    assert_eq!(outcome.events[0].kind, "recv_packet");
    assert_eq!(outcome.events[0].attributes[3].value, "5");
    assert_eq!(outcome.events[0].attributes[0].value, hex::encode(b"fifth"));
    assert_eq!(outcome.events[0].attributes[9].value, "conn-1");
    assert_eq!(outcome.events[1].kind, "write_acknowledgement");
    assert_eq!(outcome.events[1].attributes[8].value, "aa");
    assert_eq!(outcome.callback.unwrap().stage, Stage::ReceivePacket);
    assert!(chain_b.receipts.contains(&destination_key(&packet)));
    assert_eq!(chain_b.acknowledgements.get(&destination_key(&packet)), Some(&vec![0xaa]));

    // Acknowledge on chan-A with a valid proof of that acknowledgement.
    let acknowledge = ack(&packet, &[0xaa]);
    assert_eq!(acknowledge.check_stateless(&no_context()), Ok(()));
    let request = acknowledge.proof_request(&chain_a).unwrap();
    assert_eq!(request.client_id, id("C0"));
    match &request.claim {
        Claim::PacketAcknowledgement { port_id, channel_id, sequence, acknowledgement } => {
            assert_eq!(
                chain_b.acknowledgements.get(&(port_id.clone(), channel_id.clone(), *sequence)),
                Some(acknowledgement)
            );
        }
        other => panic!("unexpected claim {:?}", other),
    }
    let outcome = acknowledge.execute(&mut chain_a, &agreed()).unwrap();
    assert_eq!(outcome.events.len(), 1);
    assert_eq!(outcome.events[0].kind, "acknowledge_packet");
    assert_eq!(outcome.events[0].attributes[9].value, "conn-0");
    assert_eq!(outcome.callback.unwrap().stage, Stage::AcknowledgePacket);
    assert!(!chain_a.commitments.contains(&source_key(&packet)));
    // The commitments of the four earlier packets are untouched.
    for sequence in 1..5u64 {
        assert!(chain_a.commitments.contains(&(id("transfer"), id("chan-A"), sequence)));
    }

    // A later timeout for sequence 5 is a duplicate delivery.
    let mut late = timeout(&packet);
    late.proof_height = Height::new(0, 60);
    assert_eq!(late.check_stateful(&chain_a, &agreed()), Err(Error::DuplicateDelivery));
    assert_eq!(late.execute(&mut chain_a, &agreed()).unwrap_err(), Error::DuplicateDelivery);
    assert!(late.proof_request(&chain_a).is_none());
    // So is a second acknowledgement.
    assert_eq!(acknowledge.check_stateful(&chain_a, &agreed()), Err(Error::DuplicateDelivery));
    assert_eq!(acknowledge.execute(&mut chain_a, &agreed()).unwrap_err(), Error::DuplicateDelivery);
}

#[test]
fn a_packet_is_received_once() {
    let (mut chain_a, mut chain_b) = open_channels();
    let packet = send(&mut chain_a, b"once");
    let receive = recv(&packet);
    receive.execute(&mut chain_b, &with_ack(&[1])).unwrap();
    assert_eq!(receive.check_stateful(&chain_b, &with_ack(&[1])), Err(Error::DuplicateDelivery));
    assert_eq!(receive.execute(&mut chain_b, &with_ack(&[2])).unwrap_err(), Error::DuplicateDelivery);
    assert_eq!(chain_b.acknowledgements.get(&destination_key(&packet)), Some(&vec![1]));
    // Still a duplicate once the timeout has passed on the destination.
    chain_b.begin_block(Height::new(0, 51), 2_000);
    assert_eq!(receive.check_stateful(&chain_b, &with_ack(&[1])), Err(Error::DuplicateDelivery));
    // Another packet of the channel is received.
    let next = send(&mut chain_a, b"twice");
    chain_b.begin_block(Height::new(0, 11), 2_000);
    assert_eq!(recv(&next).check_stateful(&chain_b, &with_ack(&[1])), Ok(()));
}

#[test]
fn a_packet_times_out_once_and_cannot_be_acknowledged_then() {
    let (mut chain_a, _) = open_channels();
    let packet = send(&mut chain_a, b"slow");
    let mut expired = timeout(&packet);
    // The proof is for height 49: before the timeout height 50.
    expired.proof_height = Height::new(0, 49);
    assert_eq!(expired.check_stateful(&chain_a, &agreed()), Err(Error::InvalidStateTransition));
    // At the timeout height the packet has timed out.
    expired.proof_height = Height::new(0, 50);
    assert_eq!(expired.check_stateless(&no_context()), Ok(()));
    let request = expired.proof_request(&chain_a).unwrap();
    assert_eq!(
        request.claim,
        Claim::PacketReceiptAbsent { port_id: id("transfer"), channel_id: id("chan-B"), sequence: 1 }
    );
    let outcome = expired.execute(&mut chain_a, &agreed()).unwrap();
    assert_eq!(outcome.events[0].kind, "timeout_packet");
    assert_eq!(outcome.callback.unwrap().stage, Stage::TimeoutPacket);
    assert!(!chain_a.commitments.contains(&source_key(&packet)));

    assert_eq!(expired.check_stateful(&chain_a, &agreed()), Err(Error::DuplicateDelivery));
    assert_eq!(ack(&packet, &[1]).check_stateful(&chain_a, &agreed()), Err(Error::DuplicateDelivery));
    assert_eq!(ack(&packet, &[1]).execute(&mut chain_a, &agreed()).unwrap_err(), Error::DuplicateDelivery);
}

#[test]
fn timeout_by_timestamp_goes_by_the_consensus_time() {
    let (mut chain_a, _) = open_channels();
    let packet =
        send_packet(&mut chain_a, &id("transfer"), &id("chan-A"), vec![1], Height::zero(), 5_000).unwrap();
    let message = timeout(&packet);
    let mut evidence = agreed();
    evidence.consensus_timestamp = 4_999;
    assert_eq!(message.check_stateful(&chain_a, &evidence), Err(Error::InvalidStateTransition));
    evidence.consensus_timestamp = 5_000;
    assert_eq!(message.check_stateful(&chain_a, &evidence), Ok(()));
    evidence.proof_verified = false;
    assert_eq!(message.check_stateful(&chain_a, &evidence), Err(Error::ProofVerificationFailure));
}

#[test]
fn receive_is_refused_after_the_timeout() {
    let (mut chain_a, mut chain_b) = open_channels();
    let by_height = send(&mut chain_a, b"h");
    chain_b.begin_block(Height::new(0, 49), 1_000);
    assert_eq!(recv(&by_height).check_stateful(&chain_b, &agreed()), Ok(()));
    chain_b.begin_block(Height::new(0, 50), 1_000);
    assert_eq!(recv(&by_height).check_stateful(&chain_b, &agreed()), Err(Error::InvalidStateTransition));
    assert_eq!(
        recv(&by_height).execute(&mut chain_b, &agreed()).unwrap_err(),
        Error::InvalidStateTransition
    );
    assert!(!chain_b.receipts.contains(&destination_key(&by_height)));

    let by_time =
        send_packet(&mut chain_a, &id("transfer"), &id("chan-A"), vec![1], Height::zero(), 5_000).unwrap();
    chain_b.begin_block(Height::new(0, 60), 4_999);
    assert_eq!(recv(&by_time).check_stateful(&chain_b, &agreed()), Ok(()));
    chain_b.begin_block(Height::new(0, 60), 5_000);
    assert_eq!(recv(&by_time).check_stateful(&chain_b, &agreed()), Err(Error::InvalidStateTransition));
}

#[test]
fn packet_steps_are_checked() {
    let (mut chain_a, chain_b) = open_channels();
    let packet = send(&mut chain_a, b"data");

    let mut evidence = agreed();
    evidence.proof_verified = false;
    assert_eq!(recv(&packet).check_stateful(&chain_b, &evidence), Err(Error::ProofVerificationFailure));
    assert_eq!(ack(&packet, &[1]).check_stateful(&chain_a, &evidence), Err(Error::ProofVerificationFailure));
    let mut evidence = agreed();
    evidence.app_accepts = false;
    assert_eq!(recv(&packet).check_stateful(&chain_b, &evidence), Err(Error::ApplicationRejected));
    assert_eq!(ack(&packet, &[1]).check_stateful(&chain_a, &evidence), Err(Error::ApplicationRejected));

    // A packet whose data differ from what was committed.
    let mut forged = packet.clone();
    forged.data = b"DATA".to_vec();
    assert_eq!(ack(&forged, &[1]).check_stateful(&chain_a, &agreed()), Err(Error::InvalidStateTransition));
    assert_eq!(timeout(&forged).check_stateful(&chain_a, &agreed()), Err(Error::InvalidStateTransition));

    // A packet that names another destination than the channel's counterparty.
    let mut misrouted = packet.clone();
    misrouted.chan_on_b = id("chan-X");
    assert_eq!(ack(&misrouted, &[1]).check_stateful(&chain_a, &agreed()), Err(Error::InvalidStateTransition));
    let mut from_elsewhere = packet.clone();
    from_elsewhere.chan_on_a = id("chan-X");
    assert_eq!(recv(&from_elsewhere).check_stateful(&chain_b, &agreed()), Err(Error::InvalidStateTransition));

    // Unbound ports.
    let mut other_port = packet.clone();
    other_port.port_on_b = id("oracle");
    assert_eq!(recv(&other_port).check_stateful(&chain_b, &agreed()), Err(Error::InvalidPort));
    let mut other_source = packet.clone();
    other_source.port_on_a = id("oracle");
    assert_eq!(ack(&other_source, &[1]).check_stateful(&chain_a, &agreed()), Err(Error::InvalidPort));
    assert_eq!(timeout(&other_source).check_stateful(&chain_a, &agreed()), Err(Error::InvalidPort));

    // A proof for a height that the client does not cover.
    let mut early = recv(&packet);
    early.proof_height = Height::new(0, 101);
    assert_eq!(early.check_stateful(&chain_b, &agreed()), Err(Error::ProofVerificationFailure));

    // Malformed messages.
    let mut unnumbered = packet.clone();
    unnumbered.sequence = 0;
    assert_eq!(recv(&unnumbered).check_stateless(&no_context()), Err(Error::MalformedAction));
    let mut empty = packet.clone();
    empty.data = Vec::new();
    assert_eq!(timeout(&empty).check_stateless(&no_context()), Err(Error::MalformedAction));
    assert_eq!(ack(&packet, &[]).check_stateless(&no_context()), Err(Error::MalformedAction));
    let mut no_proof = recv(&packet);
    no_proof.proof = Vec::new();
    assert_eq!(no_proof.check_stateless(&no_context()), Err(Error::MalformedAction));
}

#[test]
fn two_acknowledgements_in_one_transaction_leave_nothing_behind() {
    let (mut chain_a, _) = open_channels();
    let packet = send(&mut chain_a, b"data");
    let transaction = Transaction {
        actions: vec![
            Action::Acknowledgement(ack(&packet, &[1])),
            Action::Timeout(MsgTimeout {
                packet: packet.clone(),
                shows: TimeoutProof::ReceiptAbsent,
                proof: vec![1],
                proof_height: Height::new(0, 60),
            }),
        ],
    };
    // Both pass the checks against the snapshot; the second fails in
    // execution, and the first must not stay.
    let result = deliver(&mut chain_a, &transaction, &vec![agreed(), agreed()]);
    assert_eq!(result.unwrap_err(), Error::DuplicateDelivery);
    assert_eq!(chain_a.commitments.get(&source_key(&packet)), Some(&commit_packet(&packet)));
    // Replayed, it is rejected in the same way.
    let result = deliver(&mut chain_a, &transaction, &vec![agreed(), agreed()]);
    assert_eq!(result.unwrap_err(), Error::DuplicateDelivery);
    assert!(chain_a.commitments.contains(&source_key(&packet)));
}

#[test]
fn a_packet_times_out_when_the_destination_has_closed() {
    let (mut chain_a, _) = open_channels();
    let packet = send(&mut chain_a, b"late");
    let mut closed = timeout(&packet);
    closed.shows = TimeoutProof::ChannelClosed;
    // The proof is for a height before the timeout height: with a closed
    // channel that does not matter.
    closed.proof_height = Height::new(0, 20);
    let request = closed.proof_request(&chain_a).unwrap();
    assert_eq!(request.client_id, id("C0"));
    assert_eq!(request.height, Height::new(0, 20));
    assert_eq!(
        request.claim,
        Claim::Channel {
            port_id: id("transfer"),
            channel_id: id("chan-B"),
            channel_end: ChannelEnd {
                state: ChannelState::Closed,
                ordering: Order::Unordered,
                counterparty: ChannelCounterparty {
                    port_id: id("transfer"),
                    channel_id: Some(id("chan-A")),
                },
                connection_id: id("conn-1"),
            },
        }
    );
    let mut refused = agreed();
    refused.proof_verified = false;
    assert_eq!(closed.check_stateful(&chain_a, &refused), Err(Error::ProofVerificationFailure));
    assert_eq!(closed.check_stateful(&chain_a, &agreed()), Ok(()));
    let outcome = closed.execute(&mut chain_a, &agreed()).unwrap();
    assert_eq!(outcome.events[0].kind, "timeout_packet");
    assert!(!chain_a.commitments.contains(&source_key(&packet)));
    assert_eq!(closed.check_stateful(&chain_a, &agreed()), Err(Error::DuplicateDelivery));
}
