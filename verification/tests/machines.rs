use udsplitter::client::{select_reply, ClientAction, ClientEvent, Config, Session};
use udsplitter::dial::{Dial, DialAction, DialEvent};
use udsplitter::fault::{Complaint, Fault};
use udsplitter::negotiation::{Negotiation, NegotiationAction, NegotiationEvent};
use udsplitter::protocol::{Address, Command, Reply, SocketAddress, Target, METHOD_NONE};
use udsplitter::relay::{Relay, RelayAction, RelayEvent};
use udsplitter::remote::{Remote, RemoteAction, RemoteEvent};
use udsplitter::server::{
    needed_half, spare_half, ConnHalf, HalfKind, ServerAction, ServerEvent, Stream,
};
use udsplitter::server;
use udsplitter::session_id::Direction;
use udsplitter::session_table::{Entry, SessionTable};

/// Errors of the layers below are numbers here.
type Code = u8;

fn somewhere() -> Address {
    Address::DomainAddress(b"example.org".to_vec(), 443)
}

fn negotiate(events: Vec<NegotiationEvent<Code>>) -> Vec<NegotiationAction<Code>> {
    let (mut state, first) = Negotiation::begin();
    let mut actions = vec![first];
    for event in events {
        assert!(state.is_ready_for(&event));
        let (next, action) = state.step(event);
        state = next;
        actions.push(action);
    }
    assert!(matches!(state, Negotiation::Finished));
    actions
}

#[test]
fn a_connect_command_is_accepted() {
    assert_eq!(
        negotiate(vec![
            NegotiationEvent::Authenticated,
            NegotiationEvent::Requested(Command::Connect, somewhere()),
        ]),
        vec![
            NegotiationAction::Authenticate,
            NegotiationAction::AwaitCommand,
            NegotiationAction::Finish(Ok(somewhere())),
        ]
    );
}

#[test]
fn other_commands_are_refused() {
    for command in [Command::Bind, Command::Associate] {
        assert_eq!(
            negotiate(vec![
                NegotiationEvent::Authenticated,
                NegotiationEvent::Requested(command, somewhere()),
                NegotiationEvent::Replied,
                NegotiationEvent::ShutDown,
            ]),
            vec![
                NegotiationAction::Authenticate,
                NegotiationAction::AwaitCommand,
                NegotiationAction::Reply(Reply::CommandNotSupported, Address::unspecified()),
                NegotiationAction::ShutDown,
                NegotiationAction::Finish(Err(Fault::Own(Complaint::UnimplementedCommand))),
            ]
        );
    }
}

#[test]
fn failures_of_a_negotiation_shut_it_down() {
    assert_eq!(
        negotiate(vec![NegotiationEvent::Failed(1), NegotiationEvent::ShutDown]),
        vec![
            NegotiationAction::Authenticate,
            NegotiationAction::ShutDown,
            NegotiationAction::Finish(Err(Fault::Outside(1))),
        ]
    );
    assert_eq!(
        negotiate(vec![
            NegotiationEvent::Authenticated,
            NegotiationEvent::Failed(2),
            NegotiationEvent::ShutDown,
        ])
        .pop(),
        Some(NegotiationAction::Finish(Err(Fault::Outside(2))))
    );
    assert_eq!(
        negotiate(vec![
            NegotiationEvent::Authenticated,
            NegotiationEvent::Requested(Command::Bind, somewhere()),
            NegotiationEvent::Failed(3),
            NegotiationEvent::ShutDown,
        ])
        .pop(),
        Some(NegotiationAction::Finish(Err(Fault::Outside(3))))
    );
}

#[test]
fn a_negotiation_knows_what_can_happen() {
    let (state, _) = Negotiation::<Code>::begin();
    assert!(state.is_ready_for(&NegotiationEvent::Authenticated));
    assert!(state.is_ready_for(&NegotiationEvent::Failed(0)));
    assert!(!state.is_ready_for(&NegotiationEvent::Replied));
    assert!(!state.is_ready_for(&NegotiationEvent::ShutDown));
    assert!(!state.is_ready_for(&NegotiationEvent::Requested(Command::Connect, somewhere())));
    assert!(!Negotiation::<Code>::Finished.is_ready_for(&NegotiationEvent::Failed(0)));
}

fn dial(events: Vec<DialEvent<Code>>) -> Vec<DialAction<Code>> {
    let (mut state, first) = Dial::begin(somewhere());
    let mut actions = vec![first];
    for event in events {
        assert!(state.is_ready_for(&event));
        let (next, action) = state.step(event);
        state = next;
        actions.push(action);
    }
    assert!(matches!(state, Dial::Finished));
    actions
}

#[test]
fn a_dial_that_succeeds() {
    assert_eq!(
        dial(vec![
            DialEvent::Connected,
            DialEvent::Sent,
            DialEvent::MethodChosen(0),
            DialEvent::Sent,
            DialEvent::Answered(Reply::Succeeded),
        ]),
        vec![
            DialAction::Connect,
            DialAction::Greet(METHOD_NONE),
            DialAction::AwaitMethod,
            DialAction::Request(Command::Connect, somewhere()),
            DialAction::AwaitReply,
            DialAction::Finish(Ok(Reply::Succeeded)),
        ]
    );
}

#[test]
fn a_dial_that_is_refused_is_shut_down() {
    let mut actions = dial(vec![
        DialEvent::Connected,
        DialEvent::Sent,
        DialEvent::MethodChosen(0),
        DialEvent::Sent,
        DialEvent::Answered(Reply::HostUnreachable),
        DialEvent::ShutDown,
    ]);
    assert_eq!(actions.pop(), Some(DialAction::Finish(Ok(Reply::HostUnreachable))));
    assert_eq!(actions.pop(), Some(DialAction::ShutDown));
}

#[test]
fn an_upstream_that_wants_authentication_is_given_up() {
    for method in [1, 2, 0xff] {
        let mut actions = dial(vec![
            DialEvent::Connected,
            DialEvent::Sent,
            DialEvent::MethodChosen(method),
            DialEvent::PeerNamed("127.0.0.2:1081".to_string()),
            DialEvent::ShutDown,
        ]);
        assert_eq!(
            actions.pop(),
            Some(DialAction::Finish(Err(Fault::Own(Complaint::NoAcceptableMethod(
                "127.0.0.2:1081".to_string()
            )))))
        );
        assert_eq!(actions.pop(), Some(DialAction::ShutDown));
        assert_eq!(actions.pop(), Some(DialAction::NamePeer));
    }
}

#[test]
fn a_failure_ends_a_dial_at_once() {
    for passed in 0..5 {
        let mut events = vec![
            DialEvent::Connected,
            DialEvent::Sent,
            DialEvent::MethodChosen(0),
            DialEvent::Sent,
        ];
        events.truncate(passed);
        events.push(DialEvent::Failed(9));
        let mut actions = dial(events);
        assert_eq!(actions.len(), passed + 2);
        assert_eq!(actions.pop(), Some(DialAction::Finish(Err(Fault::Outside(9)))));
    }
}

#[test]
fn a_remote_connection_is_handed_over() {
    let (state, first) = Remote::<Code>::begin(&somewhere());
    assert_eq!(first, RemoteAction::Connect(Target::Host("example.org".to_string(), 443)));
    assert!(state.is_ready_for(&RemoteEvent::Connected));
    assert!(!state.is_ready_for(&RemoteEvent::ShutDown));
    let (state, action) = state.step(RemoteEvent::Connected);
    assert_eq!(state, Remote::Finished);
    assert_eq!(action, RemoteAction::Finish(Ok(())));
}

#[test]
fn a_remote_connection_that_fails_shuts_the_stream_down() {
    let (state, _) = Remote::<Code>::begin(&somewhere());
    let (state, action) = state.step(RemoteEvent::Failed(4));
    assert_eq!(action, RemoteAction::ShutDown);
    assert!(state.is_ready_for(&RemoteEvent::ShutDown));
    assert!(!state.is_ready_for(&RemoteEvent::Connected));
    let (state, action) = state.step(RemoteEvent::ShutDown);
    assert_eq!(state, Remote::Finished);
    assert_eq!(action, RemoteAction::Finish(Err(4)));
}

#[test]
fn one_reply_is_made_of_two() {
    let ok = Reply::Succeeded;
    let bad = Reply::ConnectionRefused;
    let worse = Reply::TtlExpired;
    assert_eq!(select_reply(ok, ok), (ok, None));
    assert_eq!(select_reply(bad, ok), (bad, Some(Direction::Up)));
    assert_eq!(select_reply(ok, worse), (worse, Some(Direction::Down)));
    assert_eq!(select_reply(bad, worse), (bad, Some(Direction::Up)));
}

fn client(
    events: Vec<ClientEvent<Address, Code>>,
) -> Vec<ClientAction<Address, Code>> {
    let (mut session, first) = Session::begin("upper".to_string(), "lower".to_string(), 42);
    let mut actions = vec![first];
    for event in events {
        assert!(session.is_ready_for(&event));
        let (next, action) = session.step(event);
        session = next;
        actions.push(action);
    }
    actions
}

#[test]
fn a_client_session_that_succeeds() {
    assert_eq!(
        client(vec![
            ClientEvent::Negotiated(Ok(somewhere())),
            ClientEvent::Dialed(Ok(Reply::Succeeded), Ok(Reply::Succeeded)),
            ClientEvent::Replied,
            ClientEvent::Relayed,
        ]),
        vec![
            ClientAction::Negotiate,
            ClientAction::Dial { up: somewhere(), down: somewhere() },
            ClientAction::Reply(Reply::Succeeded, somewhere()),
            ClientAction::Relay(42),
            ClientAction::Finish(Ok(())),
        ]
    );
}

#[test]
fn a_refused_client_is_told_and_shut_down() {
    for (up, down, reply, blamed) in [
        (Reply::GeneralFailure, Reply::Succeeded, Reply::GeneralFailure, "upper"),
        (Reply::Succeeded, Reply::NetworkUnreachable, Reply::NetworkUnreachable, "lower"),
        (Reply::TtlExpired, Reply::GeneralFailure, Reply::TtlExpired, "upper"),
    ] {
        assert_eq!(
            client(vec![
                ClientEvent::Negotiated(Ok(somewhere())),
                ClientEvent::Dialed(Ok(up), Ok(down)),
                ClientEvent::Replied,
                ClientEvent::ShutDown,
            ]),
            vec![
                ClientAction::Negotiate,
                ClientAction::Dial { up: somewhere(), down: somewhere() },
                ClientAction::Reply(reply, somewhere()),
                ClientAction::ShutDown,
                ClientAction::Finish(Err(Fault::Own(Complaint::UnsuccessfulReply(
                    blamed.to_string()
                )))),
            ]
        );
    }
}

#[test]
fn faults_of_a_client_session_are_reported() {
    assert_eq!(
        client(vec![ClientEvent::Negotiated(Err(Fault::Outside(1)))]).pop(),
        Some(ClientAction::Finish(Err(Fault::Outside(1))))
    );
    for (up, down, reported) in [
        (Err(Fault::Outside(2)), Ok(Reply::Succeeded), 2),
        (Ok(Reply::Succeeded), Err(Fault::Outside(3)), 3),
        (Err(Fault::Outside(4)), Err(Fault::Outside(5)), 4),
    ] {
        let mut actions = client(vec![
            ClientEvent::Negotiated(Ok(somewhere())),
            ClientEvent::Dialed(up, down),
        ]);
        assert_eq!(actions.len(), 3);
        assert_eq!(actions.pop(), Some(ClientAction::Finish(Err(Fault::Outside(reported)))));
    }
    let mut actions = client(vec![
        ClientEvent::Negotiated(Ok(somewhere())),
        ClientEvent::Dialed(Ok(Reply::Succeeded), Ok(Reply::Succeeded)),
        ClientEvent::Failed(6),
        ClientEvent::ShutDown,
    ]);
    assert_eq!(actions.pop(), Some(ClientAction::Finish(Err(Fault::Outside(6)))));
    assert_eq!(actions.pop(), Some(ClientAction::ShutDown));
}

#[test]
fn a_client_session_knows_what_can_happen() {
    let (session, _) = Session::<Address, Code>::begin(String::new(), String::new(), 0);
    assert!(session.is_ready_for(&ClientEvent::Negotiated(Ok(somewhere()))));
    assert!(!session.is_ready_for(&ClientEvent::Replied));
    assert!(!session.is_ready_for(&ClientEvent::Relayed));
    assert!(!session.is_ready_for(&ClientEvent::Failed(0)));
    let config = Config {
        listen: "127.0.0.2:1080".to_string(),
        up: "127.0.0.2:1081".to_string(),
        down: "127.0.0.2:1081".to_string(),
    };
    assert_eq!(config.up, config.down);
}

fn relay(direction: Direction, events: Vec<RelayEvent>) -> Vec<RelayAction> {
    let (mut state, first) = Relay::begin(42, direction);
    let mut actions = vec![first];
    for event in events {
        assert!(state.is_ready_for(event));
        let (next, action) = state.step(event);
        state = next;
        actions.push(action);
    }
    actions
}

#[test]
fn relays_announce_copy_and_close() {
    let whole = vec![RelayEvent::Announced(true), RelayEvent::Copied, RelayEvent::Closed];
    assert_eq!(
        relay(Direction::Up, whole.clone()),
        vec![
            RelayAction::Announce(42),
            RelayAction::CopyUp,
            RelayAction::NotifyClosed,
            RelayAction::Finish,
        ]
    );
    assert_eq!(
        relay(Direction::Down, whole),
        vec![
            RelayAction::Announce(43),
            RelayAction::CopyDown,
            RelayAction::ShutDownClient,
            RelayAction::Finish,
        ]
    );
}

#[test]
fn relays_that_cannot_announce_only_close() {
    let short = vec![RelayEvent::Announced(false), RelayEvent::Closed];
    assert_eq!(
        relay(Direction::Up, short.clone()),
        vec![RelayAction::Announce(42), RelayAction::NotifyClosed, RelayAction::Finish]
    );
    assert_eq!(
        relay(Direction::Down, short),
        vec![RelayAction::Announce(43), RelayAction::ShutDownClient, RelayAction::Finish]
    );
}

fn stream(events: Vec<ServerEvent<Code>>) -> (Stream<Code>, Vec<ServerAction<Code>>) {
    let config = server::Config { listen: String::new(), timeout_ms: 750 };
    let (mut state, first) = Stream::begin(&config);
    let mut actions = vec![first];
    for event in events {
        assert!(state.is_ready_for(&event));
        let (next, action) = state.step(event);
        state = next;
        actions.push(action);
    }
    (state, actions)
}

#[test]
fn the_first_stream_connects_and_keeps_the_other_half() {
    for (id, kept, direction) in
        [(42, HalfKind::R, Direction::Up), (43, HalfKind::W, Direction::Down)]
    {
        let (_, actions) = stream(vec![
            ServerEvent::Negotiated(Ok(somewhere())),
            ServerEvent::Replied,
            ServerEvent::IdRead(id),
            ServerEvent::Opened,
            ServerEvent::Connected,
            ServerEvent::Copied,
        ]);
        assert_eq!(
            actions,
            vec![
                ServerAction::Negotiate,
                ServerAction::Reply(Reply::Succeeded, Address::unspecified()),
                ServerAction::ReadId(750),
                ServerAction::LookUp(id),
                ServerAction::Connect(somewhere()),
                ServerAction::KeepAndCopy(kept, direction),
                ServerAction::Finish(Ok(())),
            ]
        );
    }
}

#[test]
fn the_second_stream_needs_the_right_half() {
    for (id, kind, last) in [
        (42, HalfKind::W, ServerAction::Copy(Direction::Up)),
        (43, HalfKind::R, ServerAction::Copy(Direction::Down)),
        (
            42,
            HalfKind::R,
            ServerAction::Finish(Err(Fault::Own(Complaint::MismatchedConnection))),
        ),
        (
            43,
            HalfKind::W,
            ServerAction::Finish(Err(Fault::Own(Complaint::MismatchedConnection))),
        ),
    ] {
        let (_, mut actions) = stream(vec![
            ServerEvent::Negotiated(Ok(somewhere())),
            ServerEvent::Replied,
            ServerEvent::IdRead(id),
            ServerEvent::Resumed,
            ServerEvent::HalfTaken(kind),
        ]);
        assert_eq!(actions.pop(), Some(last));
        assert_eq!(actions.pop(), Some(ServerAction::TakeHalf));
    }
}

#[test]
fn faults_of_a_stream_are_reported() {
    let (_, mut actions) = stream(vec![ServerEvent::Negotiated(Err(Fault::Outside(1)))]);
    assert_eq!(actions.pop(), Some(ServerAction::Finish(Err(Fault::Outside(1)))));

    let (_, mut actions) = stream(vec![
        ServerEvent::Negotiated(Ok(somewhere())),
        ServerEvent::Failed(2),
        ServerEvent::ShutDown,
    ]);
    assert_eq!(actions.pop(), Some(ServerAction::Finish(Err(Fault::Outside(2)))));
    assert_eq!(actions.pop(), Some(ServerAction::ShutDown));

    let (_, mut actions) = stream(vec![
        ServerEvent::Negotiated(Ok(somewhere())),
        ServerEvent::Replied,
        ServerEvent::TimedOut,
    ]);
    assert_eq!(
        actions.pop(),
        Some(ServerAction::Finish(Err(Fault::Own(Complaint::IdTimeout))))
    );

    let (_, mut actions) = stream(vec![
        ServerEvent::Negotiated(Ok(somewhere())),
        ServerEvent::Replied,
        ServerEvent::IdRead(42),
        ServerEvent::Opened,
        ServerEvent::Failed(3),
    ]);
    assert_eq!(actions.pop(), Some(ServerAction::Finish(Err(Fault::Outside(3)))));
}

#[test]
fn halves_know_what_they_are() {
    assert_eq!(ConnHalf::<u8, u16>::R(1).kind(), HalfKind::R);
    assert_eq!(ConnHalf::<u8, u16>::W(1).kind(), HalfKind::W);
    assert_eq!(needed_half(Direction::Down), HalfKind::R);
    assert_eq!(needed_half(Direction::Up), HalfKind::W);
    assert_eq!(spare_half(Direction::Down), HalfKind::W);
    assert_eq!(spare_half(Direction::Up), HalfKind::R);
}

fn looking_up(id: u64) -> Stream<Code> {
    let (state, _) = stream(vec![
        ServerEvent::Negotiated(Ok(somewhere())),
        ServerEvent::Replied,
        ServerEvent::IdRead(id),
    ]);
    state
}

#[test]
fn a_stream_that_claims_a_taken_direction_ends_the_session() {
    let mut table: SessionTable<&str> = SessionTable::new();
    let (first, action, found) = looking_up(42).look_up(&mut table, 10, "slot");
    assert_eq!(action, ServerAction::Connect(somewhere()));
    assert_eq!(found, None);
    let (_, action) = first.step(ServerEvent::Connected);
    assert_eq!(action, ServerAction::KeepAndCopy(HalfKind::R, Direction::Up));

    let (second, action, found) = looking_up(42).look_up(&mut table, 20, "unused");
    assert_eq!(action, ServerAction::TakeHalf);
    assert_eq!(found, Some(Entry { born: 10, slot: "slot" }));
    let (_, action) = second.step(ServerEvent::HalfTaken(HalfKind::R));
    assert_eq!(
        action,
        ServerAction::Finish(Err(Fault::Own(Complaint::MismatchedConnection)))
    );
    assert_eq!(table.len(), 0);
}

#[test]
fn the_second_stream_is_given_up_if_nothing_is_left() {
    let empty: Option<ConnHalf<u8, u8>> = None;
    assert_eq!(ServerEvent::<Code>::from_slot(&empty), ServerEvent::NothingLeft);
    assert_eq!(
        ServerEvent::<Code>::from_slot(&Some(ConnHalf::<u8, u8>::R(1))),
        ServerEvent::HalfTaken(HalfKind::R)
    );
    assert_eq!(
        ServerEvent::<Code>::from_slot(&Some(ConnHalf::<u8, u8>::W(1))),
        ServerEvent::HalfTaken(HalfKind::W)
    );

    let mut table: SessionTable<&str> = SessionTable::new();
    let (first, _, _) = looking_up(42).look_up(&mut table, 10, "slot");
    let (_, action) = first.step(ServerEvent::Failed(5));
    assert_eq!(action, ServerAction::Finish(Err(Fault::Outside(5))));

    let (second, action, found) = looking_up(43).look_up(&mut table, 20, "unused");
    assert_eq!(action, ServerAction::TakeHalf);
    assert_eq!(found, Some(Entry { born: 10, slot: "slot" }));
    let event = ServerEvent::from_slot(&empty);
    assert!(second.is_ready_for(&event));
    let (_, action) = second.step(event);
    assert_eq!(action, ServerAction::Finish(Err(Fault::Own(Complaint::NothingLeft))));
    assert_eq!(table.len(), 0);
}

#[test]
fn a_split_connection_is_joined() {
    let (_, answer) = stream(vec![ServerEvent::Negotiated(Ok(somewhere()))]);
    let reply = match &answer[1] {
        ServerAction::Reply(reply, _) => *reply,
        _ => panic!("the server answers at once"),
    };
    let dialed = || {
        let mut actions = dial(vec![
            DialEvent::Connected,
            DialEvent::Sent,
            DialEvent::MethodChosen(METHOD_NONE),
            DialEvent::Sent,
            DialEvent::Answered(reply),
        ]);
        assert_eq!(actions[3], DialAction::Request(Command::Connect, somewhere()));
        match actions.pop() {
            Some(DialAction::Finish(outcome)) => outcome,
            _ => panic!("the dial is over"),
        }
    };
    let mut told = client(vec![
        ClientEvent::Negotiated(Ok(somewhere())),
        ClientEvent::Dialed(dialed(), dialed()),
        ClientEvent::Replied,
    ]);
    assert_eq!(told.pop(), Some(ClientAction::Relay(42)));
    assert_eq!(told.pop(), Some(ClientAction::Reply(Reply::Succeeded, somewhere())));

    let mut table: SessionTable<&str> = SessionTable::new();
    table.arrive(4, 1, "other");
    let (down, action, _) = looking_up(43).look_up(&mut table, 10, "slot");
    assert_eq!(action, ServerAction::Connect(somewhere()));
    table.arrive(6, 11, "another");
    table.sweep(12, 100);
    let (_, action) = down.step(ServerEvent::Connected);
    assert_eq!(action, ServerAction::KeepAndCopy(HalfKind::W, Direction::Down));
    let (up, _, found) = looking_up(42).look_up(&mut table, 20, "unused");
    assert_eq!(found, Some(Entry { born: 10, slot: "slot" }));
    let (_, action) = up.step(ServerEvent::HalfTaken(HalfKind::W));
    assert_eq!(action, ServerAction::Copy(Direction::Up));
    assert_eq!(table.len(), 2);
}

#[test]
fn hundred_sessions_pair_up() {
    const N_CONN: u64 = 100;

    let mut source = udsplitter::id_source::IdSource::from_seed([7; 32]);
    let mut table: SessionTable<u64> = SessionTable::new();
    let mut second_streams = Vec::new();
    for n in 0..N_CONN {
        let id = source.next_id();
        let (_, up) = Relay::begin(id, Direction::Up);
        let (_, down) = Relay::begin(id, Direction::Down);
        let (up, down) = match (up, down) {
            (RelayAction::Announce(up), RelayAction::Announce(down)) => (up, down),
            _ => panic!("a relay begins with its id"),
        };
        let (first, second) = if n % 3 == 0 { (down, up) } else { (up, down) };
        let (stream, action, found) = looking_up(first).look_up(&mut table, n as u128, n);
        assert_eq!(action, ServerAction::Connect(somewhere()));
        assert_eq!(found, None);
        let (_, action) = stream.step(ServerEvent::Connected);
        let kept = match action {
            ServerAction::KeepAndCopy(kept, direction) => {
                assert_eq!(direction == Direction::Down, n % 3 == 0);
                kept
            }
            _ => panic!("the first stream keeps a half"),
        };
        second_streams.push((n, second, kept));
    }
    assert_eq!(table.len(), N_CONN as usize);
    table.sweep(1000, 1001);
    second_streams.reverse();
    for (n, second, kept) in second_streams {
        let (stream, action, found) = looking_up(second).look_up(&mut table, 1000, 0);
        assert_eq!(action, ServerAction::TakeHalf);
        assert_eq!(found, Some(Entry { born: n as u128, slot: n }));
        let (_, action) = stream.step(ServerEvent::HalfTaken(kept));
        let direction = if n % 3 == 0 { Direction::Up } else { Direction::Down };
        assert_eq!(action, ServerAction::Copy(direction));
    }
    assert_eq!(table.len(), 0);
}

#[test]
fn addresses_of_sockets_pass_through_a_session() {
    let address =
        Address::SocketAddress(SocketAddress::V4 { ipv4: 0x7f000002, port: 1082 });
    let mut actions = client(vec![
        ClientEvent::Negotiated(Ok(address.clone())),
        ClientEvent::Dialed(Ok(Reply::Succeeded), Ok(Reply::Succeeded)),
    ]);
    assert_eq!(actions.pop(), Some(ClientAction::Reply(Reply::Succeeded, address)));
}
