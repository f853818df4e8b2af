use penumbra_ibc::action::{check_all_stateful, check_all_stateless, deliver, Action, Transaction};
use penumbra_ibc::channel::{MsgChannelOpenAck, MsgChannelOpenInit};
use penumbra_ibc::connection::{MsgConnectionOpenAck, MsgConnectionOpenInit, MsgConnectionOpenTry};
use penumbra_ibc::error::Error;
use penumbra_ibc::handler::{ActionHandler, Evidence};
use penumbra_ibc::ident::Identifier;
use penumbra_ibc::position::PositionClose;
use penumbra_ibc::state::ChainState;
use penumbra_ibc::types::{ClientState, ClientType, ConnectionState, Height, Order};

fn id(text: &str) -> Identifier {
    Identifier::new(text)
}

fn agreed() -> Evidence {
    Evidence::agreed()
}

fn chain_with_client(client: &str, height: u64) -> ChainState {
    let mut state = ChainState::new();
    state.clients.insert(
        id(client),
        ClientState { client_type: ClientType::Tendermint, latest_height: Height::new(0, height) },
    );
    state
}

fn init(connection: &str) -> MsgConnectionOpenInit {
    MsgConnectionOpenInit {
        connection_id: id(connection),
        client_id: id("C0"),
        counterparty_client_id: id("C1"),
        versions: vec![1],
    }
}

fn ack(connection: &str) -> MsgConnectionOpenAck {
    MsgConnectionOpenAck {
        connection_id: id(connection),
        counterparty_connection_id: id("conn-9"),
        version: 1,
        proof: vec![1],
        proof_height: Height::new(0, 50),
    }
}

#[test]
fn position_close_is_rejected_in_every_phase() {
    let close = PositionClose { position_id: vec![1, 2, 3] };
    let mut state = chain_with_client("C0", 50);
    let context = Transaction { actions: vec![Action::PositionClose(close.clone())] };
    assert_eq!(close.check_stateless(&context), Err(Error::FeatureDisabled));
    assert_eq!(close.check_stateful(&state, &agreed()), Err(Error::FeatureDisabled));
    assert_eq!(close.execute(&mut state, &agreed()).unwrap_err(), Error::FeatureDisabled);
    assert!(close.proof_request(&state).is_none());
    assert_eq!(Error::FeatureDisabled.message(), "lp actions not supported yet");
    // Nothing changed, and a transaction with it is rejected as a whole.
    assert!(state.clients.contains(&id("C0")));
    assert!(state.connections.get(&id("conn-0")).is_none());
    let transaction =
        Transaction { actions: vec![Action::ConnectionOpenInit(init("conn-0")), Action::PositionClose(close)] };
    let result = deliver(&mut state, &transaction, &vec![agreed(), agreed()]);
    assert_eq!(result.unwrap_err(), Error::FeatureDisabled);
    assert!(state.connections.get(&id("conn-0")).is_none());
}

#[test]
fn a_transaction_is_delivered_in_order() {
    let mut state = chain_with_client("C0", 50);
    let transaction = Transaction {
        actions: vec![Action::ConnectionOpenInit(init("conn-0")), Action::ConnectionOpenInit(init("conn-1"))],
    };
    assert_eq!(check_all_stateless(&transaction), Ok(()));
    assert_eq!(check_all_stateful(&state, &transaction, &vec![agreed(), agreed()]), Ok(()));
    let outcomes = deliver(&mut state, &transaction, &vec![agreed(), agreed()]).unwrap();
    assert_eq!(outcomes.len(), 2);
    assert_eq!(outcomes[0].events[0].attributes[0].value, "conn-0");
    assert_eq!(outcomes[1].events[0].attributes[0].value, "conn-1");
    assert_eq!(state.connections.get(&id("conn-0")).unwrap().state, ConnectionState::Init);
    assert_eq!(state.connections.get(&id("conn-1")).unwrap().state, ConnectionState::Init);

    let empty = Transaction { actions: Vec::new() };
    assert_eq!(deliver(&mut state, &empty, &Vec::new()).unwrap().len(), 0);
}

#[test]
fn stateful_checks_read_the_state_before_the_transaction() {
    let mut state = chain_with_client("C0", 50);
    // The acknowledgement passes only once conn-0 is in Init, which the
    // first action of the same transaction would bring about: too late.
    let transaction = Transaction {
        actions: vec![Action::ConnectionOpenInit(init("conn-0")), Action::ConnectionOpenAck(ack("conn-0"))],
    };
    let evidence = vec![agreed(), agreed()];
    assert_eq!(check_all_stateful(&state, &transaction, &evidence), Err(Error::InvalidStateTransition));
    assert_eq!(deliver(&mut state, &transaction, &evidence).unwrap_err(), Error::InvalidStateTransition);
    assert!(state.connections.get(&id("conn-0")).is_none());
}

#[test]
fn a_failed_execution_leaves_no_trace_and_replays() {
    let mut state = chain_with_client("C0", 50);
    // Each Init passes against the snapshot; executed in order, the second
    // finds conn-0 taken.
    let transaction = Transaction {
        actions: vec![
            Action::ConnectionOpenInit(init("conn-5")),
            Action::ConnectionOpenInit(init("conn-0")),
            Action::ConnectionOpenInit(init("conn-0")),
        ],
    };
    let evidence = vec![agreed(), agreed(), agreed()];
    assert_eq!(check_all_stateful(&state, &transaction, &evidence), Ok(()));
    for _ in 0..3 {
        assert_eq!(deliver(&mut state, &transaction, &evidence).unwrap_err(), Error::InvalidStateTransition);
        assert!(state.connections.get(&id("conn-5")).is_none());
        assert!(state.connections.get(&id("conn-0")).is_none());
        assert!(state.clients.contains(&id("C0")));
    }
}

#[test]
fn the_first_failing_action_decides_the_error() {
    let mut state = chain_with_client("C0", 50);
    let mut malformed = init("conn-0");
    malformed.versions = Vec::new();
    let transaction = Transaction {
        actions: vec![
            Action::ConnectionOpenAck(ack("conn-3")),
            Action::ConnectionOpenInit(malformed),
            Action::PositionClose(PositionClose { position_id: Vec::new() }),
        ],
    };
    let evidence = vec![agreed(), agreed(), agreed()];
    // Stateless checks come first, and the malformed action is the first to
    // fail one.
    assert_eq!(check_all_stateless(&transaction), Err(Error::MalformedAction));
    assert_eq!(deliver(&mut state, &transaction, &evidence).unwrap_err(), Error::MalformedAction);
    // Evidence must be there for every action.
    let short = Transaction { actions: vec![Action::ConnectionOpenInit(init("conn-0"))] };
    assert_eq!(deliver(&mut state, &short, &Vec::new()).unwrap_err(), Error::MalformedAction);
    assert_eq!(check_all_stateful(&state, &short, &Vec::new()), Err(Error::MalformedAction));
    assert!(state.connections.get(&id("conn-0")).is_none());
}

#[test]
fn actions_dispatch_to_their_messages() {
    let mut state = chain_with_client("C0", 50);
    let context = Transaction { actions: Vec::new() };
    let action = Action::ConnectionOpenInit(init("conn-0"));
    assert_eq!(action.check_stateless(&context), Ok(()));
    assert_eq!(action.check_stateful(&state, &agreed()), Ok(()));
    assert!(action.proof_request(&state).is_none());
    let outcome = action.execute(&mut state, &agreed()).unwrap();
    assert_eq!(outcome.events[0].kind, "connection_open_init");

    let open_try = Action::ConnectionOpenTry(MsgConnectionOpenTry {
        connection_id: id("conn-1"),
        client_id: id("C0"),
        counterparty_client_id: id("C1"),
        counterparty_connection_id: id("conn-0"),
        counterparty_versions: vec![1],
        proof: vec![1],
        proof_height: Height::new(0, 50),
    });
    assert!(open_try.proof_request(&state).is_some());

    let channel = Action::ChannelOpenInit(MsgChannelOpenInit {
        port_id: id("transfer"),
        channel_id: id("chan-A"),
        ordering: Order::Ordered,
        connection_id: id("conn-0"),
        counterparty_port_id: id("transfer"),
    });
    assert_eq!(channel.check_stateful(&state, &agreed()), Ok(()));
    let wrong_port = Action::ChannelOpenAck(MsgChannelOpenAck {
        port_id_on_a: id("not-transfer"),
        chan_id_on_a: id("chan-A"),
        chan_id_on_b: id("chan-B"),
        proof: vec![1],
        proof_height: Height::new(0, 50),
    });
    assert_eq!(wrong_port.check_stateless(&context), Ok(()));
    assert_eq!(wrong_port.check_stateful(&state, &agreed()), Err(Error::InvalidPort));
    assert_eq!(wrong_port.execute(&mut state, &agreed()).unwrap_err(), Error::InvalidPort);
}

#[test]
fn a_copy_of_the_state_is_independent() {
    let mut state = chain_with_client("C0", 50);
    state.begin_block(Height::new(1, 7), 99);
    let snapshot = state.duplicate();
    init("conn-0").execute(&mut state, &agreed()).unwrap();
    assert!(state.connections.contains(&id("conn-0")));
    assert!(!snapshot.connections.contains(&id("conn-0")));
    assert_eq!(snapshot.host_height, Height::new(1, 7));
    assert_eq!(snapshot.host_timestamp, 99);
    assert!(snapshot.clients.contains(&id("C0")));
}
