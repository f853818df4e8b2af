use penumbra_ibc::action::Transaction;
use penumbra_ibc::channel::{
    MsgChannelCloseConfirm, MsgChannelCloseInit, MsgChannelOpenAck, MsgChannelOpenConfirm,
    MsgChannelOpenInit, MsgChannelOpenTry,
};
use penumbra_ibc::connection::{
    MsgConnectionOpenAck, MsgConnectionOpenConfirm, MsgConnectionOpenInit, MsgConnectionOpenTry,
};
use penumbra_ibc::error::Error;
use penumbra_ibc::handler::{ActionHandler, Claim, Evidence, ProofRequest};
use penumbra_ibc::ident::Identifier;
use penumbra_ibc::router::{AppCall, Application, Stage};
use penumbra_ibc::state::ChainState;
use penumbra_ibc::types::{
    ChannelCounterparty, ChannelEnd, ChannelState, ClientState, ClientType,
    ConnectionCounterparty, ConnectionEnd, ConnectionState, Height, Order,
};

fn id(text: &str) -> Identifier {
    Identifier::new(text)
}

fn no_context() -> Transaction {
    Transaction { actions: Vec::new() }
}

fn agreed() -> Evidence {
    Evidence::agreed()
}

fn proof_refused() -> Evidence {
    let mut evidence = Evidence::agreed();
    evidence.proof_verified = false;
    evidence
}

fn app_refuses() -> Evidence {
    let mut evidence = Evidence::agreed();
    evidence.app_accepts = false;
    evidence
}

fn chain_with_client(client: &str, height: u64) -> ChainState {
    let mut state = ChainState::new();
    state.clients.insert(
        id(client),
        ClientState { client_type: ClientType::Tendermint, latest_height: Height::new(0, height) },
    );
    state
}

/// Plays the light client: the claim holds when the other chain stores
/// exactly the claimed end.
fn connection_claim_holds(request: &ProofRequest, other: &ChainState) -> bool {
    match &request.claim {
        Claim::Connection { connection_id, connection_end } => {
            other.connections.get(connection_id) == Some(connection_end)
        }
        _ => false,
    }
}

fn channel_claim_holds(request: &ProofRequest, other: &ChainState) -> bool {
    match &request.claim {
        Claim::Channel { port_id, channel_id, channel_end } => {
            other.channels.get(&(port_id.clone(), channel_id.clone())) == Some(channel_end)
        }
        _ => false,
    }
}

fn init_conn_0() -> MsgConnectionOpenInit {
    MsgConnectionOpenInit {
        connection_id: id("conn-0"),
        client_id: id("C0"),
        counterparty_client_id: id("C1"),
        versions: vec![1],
    }
}

fn try_conn_1() -> MsgConnectionOpenTry {
    MsgConnectionOpenTry {
        connection_id: id("conn-1"),
        client_id: id("C1"),
        counterparty_client_id: id("C0"),
        counterparty_connection_id: id("conn-0"),
        counterparty_versions: vec![1],
        proof: vec![1],
        proof_height: Height::new(0, 100),
    }
}

fn ack_conn_0() -> MsgConnectionOpenAck {
    MsgConnectionOpenAck {
        connection_id: id("conn-0"),
        counterparty_connection_id: id("conn-1"),
        version: 1,
        proof: vec![2],
        proof_height: Height::new(0, 90),
    }
}

fn confirm_conn_1() -> MsgConnectionOpenConfirm {
    MsgConnectionOpenConfirm {
        connection_id: id("conn-1"),
        proof: vec![3],
        proof_height: Height::new(0, 100),
    }
}

/// Chain A with `conn-0` and chain B with `conn-1`, both open.
fn connected_chains() -> (ChainState, ChainState) {
    let mut chain_a = chain_with_client("C0", 90);
    let mut chain_b = chain_with_client("C1", 100);
    init_conn_0().execute(&mut chain_a, &agreed()).unwrap();
    try_conn_1().execute(&mut chain_b, &agreed()).unwrap();
    ack_conn_0().execute(&mut chain_a, &agreed()).unwrap();
    confirm_conn_1().execute(&mut chain_b, &agreed()).unwrap();
    (chain_a, chain_b)
}

#[test]
fn connection_handshake_between_two_chains() {
    let mut chain_a = chain_with_client("C0", 90);
    let mut chain_b = chain_with_client("C1", 100);

    // Chain A opens conn-0.
    let init = init_conn_0();
    assert_eq!(init.check_stateless(&no_context()), Ok(()));
    assert!(init.proof_request(&chain_a).is_none());
    assert_eq!(init.check_stateful(&chain_a, &agreed()), Ok(()));
    let outcome = init.execute(&mut chain_a, &agreed()).unwrap();
    assert_eq!(outcome.events.len(), 1);
    assert_eq!(outcome.events[0].kind, "connection_open_init");
    assert_eq!(outcome.events[0].attributes[3].value, "");
    assert_eq!(outcome.callback, None);
    let end_a = chain_a.connections.get(&id("conn-0")).unwrap();
    assert_eq!(end_a.state, ConnectionState::Init);
    assert_eq!(end_a.counterparty.connection_id, None);

    // Client C1 at height 100 proves conn-0 in Init on chain A; chain B tries
    // with the proposed conn-1.
    let open_try = try_conn_1();
    assert_eq!(open_try.check_stateless(&no_context()), Ok(()));
    let request = open_try.proof_request(&chain_b).unwrap();
    assert_eq!(request.client_id, id("C1"));
    assert_eq!(request.height, Height::new(0, 100));
    assert!(connection_claim_holds(&request, &chain_a));
    assert_eq!(open_try.check_stateful(&chain_b, &agreed()), Ok(()));
    let outcome = open_try.execute(&mut chain_b, &agreed()).unwrap();
    assert_eq!(outcome.events[0].kind, "connection_open_try");
    assert_eq!(
        chain_b.connections.get(&id("conn-1")),
        Some(&ConnectionEnd {
            state: ConnectionState::TryOpen,
            client_id: id("C1"),
            counterparty: ConnectionCounterparty {
                client_id: id("C0"),
                connection_id: Some(id("conn-0")),
            },
            versions: vec![1],
        })
    );

    // Chain A acknowledges with a proof of conn-1 in TryOpen.
    let ack = ack_conn_0();
    assert_eq!(ack.check_stateless(&no_context()), Ok(()));
    let request = ack.proof_request(&chain_a).unwrap();
    assert_eq!(request.client_id, id("C0"));
    assert!(connection_claim_holds(&request, &chain_b));
    let outcome = ack.execute(&mut chain_a, &agreed()).unwrap();
    assert_eq!(outcome.events[0].kind, "connection_open_ack");
    assert_eq!(outcome.events[0].attributes[3].value, "conn-1");
    assert_eq!(
        chain_a.connections.get(&id("conn-0")),
        Some(&ConnectionEnd {
            state: ConnectionState::Open,
            client_id: id("C0"),
            counterparty: ConnectionCounterparty {
                client_id: id("C1"),
                connection_id: Some(id("conn-1")),
            },
            versions: vec![1],
        })
    );

    // Chain B confirms with a proof of conn-0 in Open.
    let confirm = confirm_conn_1();
    let request = confirm.proof_request(&chain_b).unwrap();
    assert!(connection_claim_holds(&request, &chain_a));
    let outcome = confirm.execute(&mut chain_b, &agreed()).unwrap();
    assert_eq!(outcome.events[0].kind, "connection_open_confirm");
    assert_eq!(chain_b.connections.get(&id("conn-1")).unwrap().state, ConnectionState::Open);
}

#[test]
fn connection_init_is_checked() {
    let chain = chain_with_client("C0", 90);
    let mut malformed = init_conn_0();
    malformed.connection_id = id("bad id");
    assert_eq!(malformed.check_stateless(&no_context()), Err(Error::MalformedAction));
    let mut no_versions = init_conn_0();
    no_versions.versions = Vec::new();
    assert_eq!(no_versions.check_stateless(&no_context()), Err(Error::MalformedAction));
    let mut unknown_version = init_conn_0();
    unknown_version.versions = vec![1, 2];
    assert_eq!(unknown_version.check_stateless(&no_context()), Err(Error::MalformedAction));

    let mut no_client = init_conn_0();
    no_client.client_id = id("C9");
    assert_eq!(no_client.check_stateful(&chain, &agreed()), Err(Error::InvalidStateTransition));
}

#[test]
fn connection_cannot_be_opened_twice() {
    let mut chain = chain_with_client("C0", 90);
    init_conn_0().execute(&mut chain, &agreed()).unwrap();
    assert_eq!(init_conn_0().check_stateful(&chain, &agreed()), Err(Error::InvalidStateTransition));
    assert_eq!(
        init_conn_0().execute(&mut chain, &agreed()).unwrap_err(),
        Error::InvalidStateTransition
    );
    let mut again = try_conn_1();
    again.connection_id = id("conn-0");
    again.client_id = id("C0");
    assert_eq!(again.check_stateful(&chain, &agreed()), Err(Error::InvalidStateTransition));
}

#[test]
fn connection_try_needs_a_verified_proof_at_a_trusted_height() {
    let mut chain_b = chain_with_client("C1", 100);
    let open_try = try_conn_1();
    assert_eq!(
        open_try.check_stateful(&chain_b, &proof_refused()),
        Err(Error::ProofVerificationFailure)
    );
    assert_eq!(
        open_try.execute(&mut chain_b, &proof_refused()).unwrap_err(),
        Error::ProofVerificationFailure
    );
    assert!(chain_b.connections.get(&id("conn-1")).is_none());

    let mut too_high = try_conn_1();
    too_high.proof_height = Height::new(0, 101);
    assert!(too_high.proof_request(&chain_b).is_none());
    assert_eq!(too_high.check_stateful(&chain_b, &agreed()), Err(Error::ProofVerificationFailure));

    let mut no_proof = try_conn_1();
    no_proof.proof = Vec::new();
    assert_eq!(no_proof.check_stateless(&no_context()), Err(Error::MalformedAction));
    let mut no_height = try_conn_1();
    no_height.proof_height = Height::zero();
    assert_eq!(no_height.check_stateless(&no_context()), Err(Error::MalformedAction));
    let mut no_common_version = try_conn_1();
    no_common_version.counterparty_versions = vec![2, 3];
    assert_eq!(no_common_version.check_stateless(&no_context()), Err(Error::MalformedAction));
    let mut unknown_client = try_conn_1();
    unknown_client.client_id = id("C7");
    assert_eq!(unknown_client.check_stateful(&chain_b, &agreed()), Err(Error::InvalidStateTransition));
}

#[test]
fn connection_steps_need_their_predecessor_state() {
    let (mut chain_a, mut chain_b) = connected_chains();
    // Both ends are open: no step applies any more.
    assert_eq!(ack_conn_0().check_stateful(&chain_a, &agreed()), Err(Error::InvalidStateTransition));
    assert_eq!(
        ack_conn_0().execute(&mut chain_a, &agreed()).unwrap_err(),
        Error::InvalidStateTransition
    );
    assert_eq!(
        confirm_conn_1().check_stateful(&chain_b, &agreed()),
        Err(Error::InvalidStateTransition)
    );
    assert_eq!(
        confirm_conn_1().execute(&mut chain_b, &agreed()).unwrap_err(),
        Error::InvalidStateTransition
    );
    assert_eq!(chain_a.connections.get(&id("conn-0")).unwrap().state, ConnectionState::Open);
    assert_eq!(chain_b.connections.get(&id("conn-1")).unwrap().state, ConnectionState::Open);

    // An end in Init is not confirmed; an end in TryOpen is not acknowledged.
    let mut fresh_a = chain_with_client("C0", 90);
    init_conn_0().execute(&mut fresh_a, &agreed()).unwrap();
    let mut confirm = confirm_conn_1();
    confirm.connection_id = id("conn-0");
    assert_eq!(confirm.check_stateful(&fresh_a, &agreed()), Err(Error::InvalidStateTransition));
    let mut fresh_b = chain_with_client("C1", 100);
    try_conn_1().execute(&mut fresh_b, &agreed()).unwrap();
    let mut ack = ack_conn_0();
    ack.connection_id = id("conn-1");
    assert_eq!(ack.check_stateful(&fresh_b, &agreed()), Err(Error::InvalidStateTransition));

    // A step for a connection that does not exist.
    let mut missing = ack_conn_0();
    missing.connection_id = id("conn-5");
    assert_eq!(missing.check_stateful(&fresh_a, &agreed()), Err(Error::InvalidStateTransition));
    assert!(missing.proof_request(&fresh_a).is_none());
}

#[test]
fn connection_ack_takes_only_a_proposed_version() {
    let mut chain_a = chain_with_client("C0", 90);
    init_conn_0().execute(&mut chain_a, &agreed()).unwrap();
    let mut ack = ack_conn_0();
    ack.version = 2;
    assert_eq!(ack.check_stateless(&no_context()), Err(Error::MalformedAction));
    assert_eq!(ack.check_stateful(&chain_a, &agreed()), Err(Error::InvalidStateTransition));
}

fn chan_init() -> MsgChannelOpenInit {
    MsgChannelOpenInit {
        port_id: id("transfer"),
        channel_id: id("chan-A"),
        ordering: Order::Unordered,
        connection_id: id("conn-0"),
        counterparty_port_id: id("transfer"),
    }
}

fn chan_try() -> MsgChannelOpenTry {
    MsgChannelOpenTry {
        port_id: id("transfer"),
        channel_id: id("chan-B"),
        ordering: Order::Unordered,
        connection_id: id("conn-1"),
        counterparty_port_id: id("transfer"),
        counterparty_channel_id: id("chan-A"),
        proof: vec![1],
        proof_height: Height::new(0, 100),
    }
}

fn chan_ack() -> MsgChannelOpenAck {
    MsgChannelOpenAck {
        port_id_on_a: id("transfer"),
        chan_id_on_a: id("chan-A"),
        chan_id_on_b: id("chan-B"),
        proof: vec![1],
        proof_height: Height::new(0, 90),
    }
}

fn chan_confirm() -> MsgChannelOpenConfirm {
    MsgChannelOpenConfirm {
        port_id: id("transfer"),
        channel_id: id("chan-B"),
        proof: vec![1],
        proof_height: Height::new(0, 100),
    }
}

fn key(port: &str, channel: &str) -> (Identifier, Identifier) {
    (id(port), id(channel))
}

#[test]
fn channel_handshake_between_two_chains() {
    let (mut chain_a, mut chain_b) = connected_chains();

    let init = chan_init();
    assert_eq!(init.check_stateless(&no_context()), Ok(()));
    assert!(init.proof_request(&chain_a).is_none());
    let outcome = init.execute(&mut chain_a, &agreed()).unwrap();
    assert_eq!(outcome.events[0].kind, "channel_open_init");
    assert_eq!(
        outcome.callback,
        Some(AppCall { application: Application::Transfer, stage: Stage::ChannelOpenInit })
    );
    assert_eq!(
        chain_a.channels.get(&key("transfer", "chan-A")),
        Some(&ChannelEnd {
            state: ChannelState::Init,
            ordering: Order::Unordered,
            counterparty: ChannelCounterparty { port_id: id("transfer"), channel_id: None },
            connection_id: id("conn-0"),
        })
    );
    assert_eq!(chain_a.next_sequence_send.get(&key("transfer", "chan-A")), Some(&1));

    let open_try = chan_try();
    assert_eq!(open_try.check_stateless(&no_context()), Ok(()));
    let request = open_try.proof_request(&chain_b).unwrap();
    assert_eq!(request.client_id, id("C1"));
    assert!(channel_claim_holds(&request, &chain_a));
    let outcome = open_try.execute(&mut chain_b, &agreed()).unwrap();
    assert_eq!(outcome.events[0].kind, "channel_open_try");
    assert_eq!(outcome.callback.unwrap().stage, Stage::ChannelOpenTry);
    let end_b = chain_b.channels.get(&key("transfer", "chan-B")).unwrap();
    assert_eq!(end_b.state, ChannelState::TryOpen);
    assert_eq!(end_b.counterparty.channel_id, Some(id("chan-A")));

    let ack = chan_ack();
    assert_eq!(ack.check_stateless(&no_context()), Ok(()));
    let request = ack.proof_request(&chain_a).unwrap();
    assert!(channel_claim_holds(&request, &chain_b));
    assert_eq!(ack.check_stateful(&chain_a, &agreed()), Ok(()));
    let outcome = ack.execute(&mut chain_a, &agreed()).unwrap();
    assert_eq!(outcome.events[0].kind, "channel_open_ack");
    assert_eq!(outcome.events[0].attributes[3].value, "chan-B");
    assert_eq!(outcome.callback.unwrap().stage, Stage::ChannelOpenAck);
    let end_a = chain_a.channels.get(&key("transfer", "chan-A")).unwrap();
    assert_eq!(end_a.state, ChannelState::Open);
    assert_eq!(end_a.counterparty.channel_id, Some(id("chan-B")));

    let confirm = chan_confirm();
    let request = confirm.proof_request(&chain_b).unwrap();
    assert!(channel_claim_holds(&request, &chain_a));
    let outcome = confirm.execute(&mut chain_b, &agreed()).unwrap();
    assert_eq!(outcome.events[0].kind, "channel_open_confirm");
    assert_eq!(chain_b.channels.get(&key("transfer", "chan-B")).unwrap().state, ChannelState::Open);

    // Chain A closes; chain B confirms; neither end opens again.
    let close = MsgChannelCloseInit { port_id: id("transfer"), channel_id: id("chan-A") };
    assert_eq!(close.check_stateless(&no_context()), Ok(()));
    let outcome = close.execute(&mut chain_a, &agreed()).unwrap();
    assert_eq!(outcome.events[0].kind, "channel_close_init");
    assert_eq!(chain_a.channels.get(&key("transfer", "chan-A")).unwrap().state, ChannelState::Closed);
    let close_confirm = MsgChannelCloseConfirm {
        port_id: id("transfer"),
        channel_id: id("chan-B"),
        proof: vec![9],
        proof_height: Height::new(0, 100),
    };
    let request = close_confirm.proof_request(&chain_b).unwrap();
    assert!(channel_claim_holds(&request, &chain_a));
    let outcome = close_confirm.execute(&mut chain_b, &agreed()).unwrap();
    assert_eq!(outcome.events[0].kind, "channel_close_confirm");
    assert_eq!(chain_b.channels.get(&key("transfer", "chan-B")).unwrap().state, ChannelState::Closed);

    assert_eq!(close.check_stateful(&chain_a, &agreed()), Err(Error::InvalidStateTransition));
    assert_eq!(chan_ack().check_stateful(&chain_a, &agreed()), Err(Error::InvalidStateTransition));
    assert_eq!(chan_init().check_stateful(&chain_a, &agreed()), Err(Error::InvalidStateTransition));
    assert_eq!(chan_confirm().check_stateful(&chain_b, &agreed()), Err(Error::InvalidStateTransition));
    assert_eq!(
        chan_confirm().execute(&mut chain_b, &agreed()).unwrap_err(),
        Error::InvalidStateTransition
    );
    assert_eq!(chain_b.channels.get(&key("transfer", "chan-B")).unwrap().state, ChannelState::Closed);
}

#[test]
fn channel_open_ack_on_another_port_is_an_invalid_port() {
    let (mut chain_a, _chain_b) = connected_chains();
    chan_init().execute(&mut chain_a, &agreed()).unwrap();
    let before = chain_a.channels.duplicate();

    let mut ack = chan_ack();
    ack.port_id_on_a = id("oracle");
    assert_eq!(ack.check_stateful(&chain_a, &agreed()), Err(Error::InvalidPort));
    assert_eq!(ack.execute(&mut chain_a, &agreed()).unwrap_err(), Error::InvalidPort);
    assert!(ack.proof_request(&chain_a).is_none());
    // Whatever else is wrong with it, the port is what is told.
    ack.chan_id_on_a = id("no-such-channel");
    assert_eq!(ack.check_stateful(&chain_a, &proof_refused()), Err(Error::InvalidPort));
    assert_eq!(ack.execute(&mut chain_a, &proof_refused()).unwrap_err(), Error::InvalidPort);

    assert_eq!(
        chain_a.channels.get(&key("transfer", "chan-A")),
        before.get(&key("transfer", "chan-A"))
    );
    assert_eq!(chain_a.channels.get(&key("transfer", "chan-A")).unwrap().state, ChannelState::Init);
    assert!(chain_a.channels.get(&key("oracle", "chan-A")).is_none());
}

#[test]
fn channel_steps_are_checked() {
    let (mut chain_a, chain_b) = connected_chains();
    let mut other_port = chan_init();
    other_port.port_id = id("oracle");
    assert_eq!(other_port.check_stateful(&chain_a, &agreed()), Err(Error::InvalidPort));
    let mut no_connection = chan_init();
    no_connection.connection_id = id("conn-7");
    assert_eq!(no_connection.check_stateful(&chain_a, &agreed()), Err(Error::InvalidStateTransition));
    let mut malformed = chan_init();
    malformed.channel_id = id("");
    assert_eq!(malformed.check_stateless(&no_context()), Err(Error::MalformedAction));

    assert_eq!(chan_init().check_stateful(&chain_a, &app_refuses()), Err(Error::ApplicationRejected));
    assert_eq!(
        chan_init().execute(&mut chain_a, &app_refuses()).unwrap_err(),
        Error::ApplicationRejected
    );
    assert!(chain_a.channels.get(&key("transfer", "chan-A")).is_none());

    assert_eq!(chan_try().check_stateful(&chain_b, &proof_refused()), Err(Error::ProofVerificationFailure));
    assert_eq!(chan_try().check_stateful(&chain_b, &app_refuses()), Err(Error::ApplicationRejected));
    let mut early = chan_try();
    early.proof_height = Height::new(0, 101);
    assert_eq!(early.check_stateful(&chain_b, &agreed()), Err(Error::ProofVerificationFailure));

    // A channel over a connection that is not open yet.
    let mut half_open = chain_with_client("C1", 100);
    try_conn_1().execute(&mut half_open, &agreed()).unwrap();
    assert_eq!(chan_try().check_stateful(&half_open, &agreed()), Err(Error::InvalidStateTransition));
    // Init only needs the connection to exist.
    let mut init_on_b = chan_init();
    init_on_b.connection_id = id("conn-1");
    assert_eq!(init_on_b.check_stateful(&half_open, &agreed()), Ok(()));

    // Ack and confirm for a channel that is not there.
    assert_eq!(chan_ack().check_stateful(&chain_a, &agreed()), Err(Error::InvalidStateTransition));
    assert_eq!(chan_confirm().check_stateful(&chain_b, &agreed()), Err(Error::InvalidStateTransition));
}
