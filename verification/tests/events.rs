use penumbra_ibc::event::{
    acknowledge_packet, channel_close_confirm, channel_close_init, channel_open_ack,
    channel_open_confirm, channel_open_init, channel_open_try, connection_open_ack,
    connection_open_confirm, connection_open_init, connection_open_try, create_client,
    receive_packet, timeout_packet, update_client, write_acknowledgement, Event, Header,
};
use penumbra_ibc::ident::Identifier;
use penumbra_ibc::types::{
    ChannelCounterparty, ChannelEnd, ChannelState, ClientState, ClientType,
    ConnectionCounterparty, ConnectionEnd, ConnectionState, Height, Order, Packet,
};

fn pairs(event: &Event) -> Vec<(String, String)> {
    event.attributes.iter().map(|a| (a.key.clone(), a.value.clone())).collect()
}

fn expect(list: &[(&str, &str)]) -> Vec<(String, String)> {
    list.iter().map(|(k, v)| (k.to_string(), v.to_string())).collect()
}

fn all_indexed(event: &Event) -> bool {
    event.attributes.iter().all(|a| a.index)
}

fn sample_channel(state: ChannelState, counterparty_channel: Option<&str>) -> ChannelEnd {
    ChannelEnd {
        state,
        ordering: Order::Unordered,
        counterparty: ChannelCounterparty {
            port_id: Identifier::new("transfer"),
            channel_id: counterparty_channel.map(Identifier::new),
        },
        connection_id: Identifier::new("connection-3"),
    }
}

fn sample_packet() -> Packet {
    Packet {
        sequence: 5,
        port_on_a: Identifier::new("transfer"),
        chan_on_a: Identifier::new("chan-A"),
        port_on_b: Identifier::new("transfer"),
        chan_on_b: Identifier::new("chan-B"),
        data: vec![0x00, 0x0f, 0xa5, 0xff],
        timeout_height_on_b: Height::new(2, 1000),
        timeout_timestamp_on_b: 0,
    }
}

#[test]
fn create_client_event() {
    let state = ClientState { client_type: ClientType::Tendermint, latest_height: Height::new(0, 100) };
    let event = create_client(Identifier::new("07-tendermint-0"), state);
    assert_eq!(event.kind, "create_client");
    assert_eq!(
        pairs(&event),
        expect(&[
            ("client_id", "07-tendermint-0"),
            ("client_type", "07-tendermint"),
            ("consensus_height", "0-100"),
        ])
    );
    assert!(all_indexed(&event));
}

#[test]
fn update_client_event_gives_header_in_hex() {
    let header = Header { height: Height::new(1, 18446744073709551615), encoded: vec![0x0a, 0x00, 0xde, 0xad, 0xbe, 0xef] };
    let event = update_client(Identifier::new("07-tendermint-7"), header);
    assert_eq!(event.kind, "update_client");
    assert_eq!(
        pairs(&event),
        expect(&[
            ("client_id", "07-tendermint-7"),
            ("client_type", "07-tendermint"),
            ("consensus_height", "1-18446744073709551615"),
            ("header", "0a00deadbeef"),
        ])
    );
    assert!(all_indexed(&event));
}

#[test]
fn connection_open_init_event_has_empty_counterparty_connection() {
    let counterparty = ConnectionCounterparty { client_id: Identifier::new("client-b"), connection_id: None };
    let event = connection_open_init(&Identifier::new("conn-0"), &Identifier::new("client-a"), &counterparty);
    assert_eq!(event.kind, "connection_open_init");
    assert_eq!(
        pairs(&event),
        expect(&[
            ("connection_id", "conn-0"),
            ("client_id", "client-a"),
            ("counterparty_client_id", "client-b"),
            ("counterparty_connection_id", ""),
        ])
    );
    assert!(all_indexed(&event));
}

#[test]
fn connection_open_try_event() {
    let counterparty = ConnectionCounterparty {
        client_id: Identifier::new("client-a"),
        connection_id: Some(Identifier::new("conn-0")),
    };
    let event = connection_open_try(&Identifier::new("conn-1"), &Identifier::new("client-b"), &counterparty);
    assert_eq!(event.kind, "connection_open_try");
    assert_eq!(
        pairs(&event),
        expect(&[
            ("connection_id", "conn-1"),
            ("client_id", "client-b"),
            ("counterparty_client_id", "client-a"),
            ("counterparty_connection_id", "conn-0"),
        ])
    );
}

#[test]
fn connection_open_ack_and_confirm_events() {
    let end = ConnectionEnd {
        state: ConnectionState::Open,
        client_id: Identifier::new("client-a"),
        counterparty: ConnectionCounterparty {
            client_id: Identifier::new("client-b"),
            connection_id: Some(Identifier::new("conn-1")),
        },
        versions: vec![1],
    };
    let expected = expect(&[
        ("connection_id", "conn-0"),
        ("client_id", "client-a"),
        ("counterparty_client_id", "client-b"),
        ("counterparty_connection_id", "conn-1"),
    ]);
    let ack = connection_open_ack(&Identifier::new("conn-0"), &end);
    assert_eq!(ack.kind, "connection_open_ack");
    assert_eq!(pairs(&ack), expected);
    let confirm = connection_open_confirm(&Identifier::new("conn-0"), &end);
    assert_eq!(confirm.kind, "connection_open_confirm");
    assert_eq!(pairs(&confirm), expected);
}

#[test]
fn channel_events_share_their_attributes() {
    let port = Identifier::new("transfer");
    let channel_id = Identifier::new("channel-9");
    let end = sample_channel(ChannelState::Open, Some("channel-4"));
    let expected = expect(&[
        ("port_id", "transfer"),
        ("channel_id", "channel-9"),
        ("counterparty_port_id", "transfer"),
        ("counterparty_channel_id", "channel-4"),
        ("connection_id", "connection-3"),
    ]);
    let events = vec![
        (channel_open_init(&port, &channel_id, &end), "channel_open_init"),
        (channel_open_try(&port, &channel_id, &end), "channel_open_try"),
        (channel_open_ack(&port, &channel_id, &end), "channel_open_ack"),
        (channel_open_confirm(&port, &channel_id, &end), "channel_open_confirm"),
        (channel_close_init(&port, &channel_id, &end), "channel_close_init"),
        (channel_close_confirm(&port, &channel_id, &end), "channel_close_confirm"),
    ];
    for (event, kind) in events {
        assert_eq!(event.kind, kind);
        assert_eq!(pairs(&event), expected);
        assert!(all_indexed(&event));
    }
}

#[test]
fn channel_event_without_counterparty_channel() {
    let end = sample_channel(ChannelState::Init, None);
    let event = channel_open_init(&Identifier::new("transfer"), &Identifier::new("channel-0"), &end);
    assert_eq!(pairs(&event)[3], ("counterparty_channel_id".to_string(), String::new()));
}

#[test]
fn packet_events_share_their_attributes() {
    let packet = sample_packet();
    let channel = sample_channel(ChannelState::Open, Some("chan-B"));
    let expected = expect(&[
        ("packet_data_hex", "000fa5ff"),
        ("packet_timeout_height", "2-1000"),
        ("packet_timeout_timestamp", "Timestamp(NoTimestamp)"),
        ("packet_sequence", "5"),
        ("packet_src_port", "transfer"),
        ("packet_src_channel", "chan-A"),
        ("packet_dst_port", "transfer"),
        ("packet_dst_channel", "chan-B"),
        ("packet_channel_ordering", "ORDER_UNORDERED"),
        ("packet_connection", "connection-3"),
    ]);
    let received = receive_packet(&packet, &channel);
    assert_eq!(received.kind, "recv_packet");
    assert_eq!(pairs(&received), expected);
    assert!(all_indexed(&received));
    let acknowledged = acknowledge_packet(&packet, &channel);
    assert_eq!(acknowledged.kind, "acknowledge_packet");
    assert_eq!(pairs(&acknowledged), expected);
    let timed_out = timeout_packet(&packet, &channel);
    assert_eq!(timed_out.kind, "timeout_packet");
    assert_eq!(pairs(&timed_out), expected);
}

#[test]
fn packet_event_of_ordered_channel_without_timeout_height() {
    let mut packet = sample_packet();
    packet.timeout_height_on_b = Height::zero();
    packet.timeout_timestamp_on_b = 1_000_000_000;
    packet.sequence = 18446744073709551615;
    let mut channel = sample_channel(ChannelState::Open, Some("chan-B"));
    channel.ordering = Order::Ordered;
    let event = receive_packet(&packet, &channel);
    let attributes = pairs(&event);
    assert_eq!(attributes[1], ("packet_timeout_height".to_string(), "0-0".to_string()));
    assert_eq!(
        attributes[2],
        ("packet_timeout_timestamp".to_string(), "Timestamp(1970-01-01T00:00:01Z)".to_string())
    );
    assert_eq!(attributes[3], ("packet_sequence".to_string(), "18446744073709551615".to_string()));
    assert_eq!(attributes[8], ("packet_channel_ordering".to_string(), "ORDER_ORDERED".to_string()));
}

#[test]
fn timestamp_with_a_fraction_of_a_second() {
    let mut packet = sample_packet();
    packet.timeout_timestamp_on_b = 1_650_000_000_500_000_000;
    let event = write_acknowledgement(&packet, &[1]);
    assert_eq!(pairs(&event)[2].1, "Timestamp(2022-04-15T05:20:00.5Z)");
}

#[test]
fn write_acknowledgement_event_has_its_own_keys() {
    let packet = sample_packet();
    let event = write_acknowledgement(&packet, &[0x01, 0xfe]);
    assert_eq!(event.kind, "write_acknowledgement");
    assert_eq!(
        pairs(&event),
        expect(&[
            ("packet_data", "000fa5ff"),
            ("timeout_height", "2-1000"),
            ("timeout_timestamp", "Timestamp(NoTimestamp)"),
            ("sequence", "5"),
            ("src_port", "transfer"),
            ("src_channel", "chan-A"),
            ("dst_port", "transfer"),
            ("dst_channel", "chan-B"),
            ("acknowledgement", "01fe"),
        ])
    );
    assert!(all_indexed(&event));
}

#[test]
fn write_acknowledgement_of_nothing() {
    let event = write_acknowledgement(&sample_packet(), &[]);
    assert_eq!(pairs(&event)[8], ("acknowledgement".to_string(), String::new()));
}
