use port_forward::copy_loop::{CopyEvent, CopyLoop, Direction, Operation, Phase};
use port_forward::dispatcher::{Arrival, Dispatch, Dispatcher};
use port_forward::relay::{Action, Event, Outcome, Session, Stage};
use port_forward::report::{pair_style, Notice, PairStyle, Severity, TextStyle, Tint};
use port_forward::session_id::{SessionCounter, FIRST_SESSION_ID};

const A: Direction = Direction::ClientToTarget;
const B: Direction = Direction::TargetToClient;

fn client() -> Option<String> {
    Some("127.0.0.1:50000".to_string())
}

fn target() -> Option<String> {
    Some("127.0.0.1:9001".to_string())
}

fn copy(direction: Direction, event: CopyEvent) -> Event {
    Event::Copy { direction, event }
}

fn read(direction: Direction, len: usize) -> Event {
    copy(direction, CopyEvent::ReadDone { len })
}

fn written(direction: Direction) -> Event {
    copy(direction, CopyEvent::WriteDone)
}

fn drive(start: Session, events: Vec<Event>) -> (Session, Vec<Action>, Vec<Notice>) {
    let mut session = start;
    let mut actions = Vec::new();
    let mut notices = Vec::new();
    for event in events {
        let (next, action, said) = session.step(event);
        session = next;
        actions.push(action);
        notices.extend(said);
    }
    (session, actions, notices)
}

fn relaying(id: u64) -> Session {
    let (session, actions, notices) = drive(
        Session::accepted(id, client()),
        vec![Event::Start, Event::Connected { target: target() }],
    );
    assert_eq!(actions, vec![Action::Connect, Action::StartCopying]);
    assert!(notices.is_empty());
    session
}

#[test]
fn counter_starts_at_one_and_counts_up() {
    assert_eq!(FIRST_SESSION_ID, 1);
    let mut counter = SessionCounter::new();
    assert_eq!(counter.peek(), 1);
    assert_eq!(counter.allocate(), 1);
    assert_eq!(counter.allocate(), 2);
    assert_eq!(counter.peek(), 3);
    assert_eq!(counter.allocate(), 3);
}

#[test]
fn many_accepts_get_distinct_increasing_ids() {
    let mut dispatcher = Dispatcher::new();
    let mut ids: Vec<u64> = Vec::new();
    for n in 0..1000u32 {
        if n % 7 == 3 {
            let answer = dispatcher.on_accept(Arrival::Failure { cause: "too many files".to_string() });
            assert_eq!(
                answer,
                Dispatch::Report { notice: Notice::AcceptFailed { cause: "too many files".to_string() } }
            );
        } else {
            match dispatcher.on_accept(Arrival::Connection { peer: client() }) {
                Dispatch::Spawn { session, notice } => {
                    assert_eq!(session.stage, Stage::Accepted);
                    assert_eq!(session.client, client());
                    assert_eq!(notice, Notice::Started { session: session.id, client: client() });
                    ids.push(session.id);
                },
                other => panic!("unexpected {:?}", other),
            }
        }
    }
    let expected: Vec<u64> = (1..=ids.len() as u64).collect();
    assert_eq!(ids, expected);
    assert!(ids.windows(2).all(|pair| pair[0] < pair[1]));
}

#[test]
fn accept_without_peer_address_still_spawns() {
    let mut dispatcher = Dispatcher::new();
    match dispatcher.on_accept(Arrival::Connection { peer: None }) {
        Dispatch::Spawn { session, notice } => {
            assert_eq!(session, Session::accepted(1, None));
            assert_eq!(notice, Notice::Started { session: 1, client: None });
            assert_eq!(notice.severity(), Severity::Event);
        },
        other => panic!("unexpected {:?}", other),
    }
}

#[test]
fn failed_accept_is_a_warning_without_session() {
    let mut dispatcher = Dispatcher::new();
    match dispatcher.on_accept(Arrival::Failure { cause: "EMFILE".to_string() }) {
        Dispatch::Report { notice } => {
            assert_eq!(notice.severity(), Severity::Warning);
            assert_eq!(notice.session(), None);
        },
        other => panic!("unexpected {:?}", other),
    }
    // The failure used no identifier up.
    match dispatcher.on_accept(Arrival::Connection { peer: None }) {
        Dispatch::Spawn { session, .. } => assert_eq!(session.id, 1),
        other => panic!("unexpected {:?}", other),
    }
}

#[test]
fn session_walks_through_its_stages() {
    let session = Session::accepted(4, client());
    assert_eq!(session.stage, Stage::Accepted);
    let (session, action, notices) = session.step(Event::Start);
    assert_eq!(session.stage, Stage::Connecting);
    assert_eq!(action, Action::Connect);
    assert!(notices.is_empty());
    let (session, action, notices) = session.step(Event::Connected { target: target() });
    assert_eq!(
        session.stage,
        Stage::Relaying {
            target: target(),
            client_to_target: CopyLoop::new(),
            target_to_client: CopyLoop::new()
        }
    );
    assert_eq!(action, Action::StartCopying);
    assert!(notices.is_empty());
    assert!(!session.is_closed());
    let (session, action, _) = session.step(read(A, 0));
    assert_eq!(action, Action::Close);
    assert!(session.is_closed());
    assert_eq!(session.id, 4);
    assert_eq!(session.client, client());
}

#[test]
fn echo_of_three_bytes_gives_two_chunk_notices() {
    // The client sends "abc"; the target echoes it.
    let (session, actions, notices) = drive(
        relaying(1),
        vec![read(A, 3), written(A), read(B, 3), written(B)],
    );
    assert_eq!(
        actions,
        vec![
            Action::Write { direction: A, len: 3 },
            Action::Read { direction: A },
            Action::Write { direction: B, len: 3 },
            Action::Read { direction: B },
        ]
    );
    assert_eq!(
        notices,
        vec![
            Notice::Chunk { session: 1, direction: A, client: client(), target: target(), len: 3 },
            Notice::Chunk { session: 1, direction: B, client: client(), target: target(), len: 3 },
        ]
    );
    assert!(notices.iter().all(|n| n.session() == Some(1) && n.severity() == Severity::Event));
    assert!(!session.is_closed());
}

#[test]
fn unreachable_target_closes_without_relaying() {
    let (session, actions, notices) = drive(
        Session::accepted(9, client()),
        vec![
            Event::Start,
            Event::ConnectFailed { cause: "connection refused".to_string() },
            read(A, 5),
            written(A),
            Event::Connected { target: target() },
            read(B, 0),
        ],
    );
    assert_eq!(
        actions,
        vec![
            Action::Connect,
            Action::Close,
            Action::Ignore,
            Action::Ignore,
            Action::Ignore,
            Action::Ignore
        ]
    );
    assert_eq!(
        notices,
        vec![Notice::ConnectFailed {
            session: 9,
            client: client(),
            cause: "connection refused".to_string()
        }]
    );
    assert_eq!(notices[0].severity(), Severity::Error);
    assert_eq!(
        session.stage,
        Stage::Closed(Outcome::ConnectFailed { cause: "connection refused".to_string() })
    );
}

#[test]
fn dispatcher_goes_on_after_a_failed_connect() {
    let mut dispatcher = Dispatcher::new();
    let first = match dispatcher.on_accept(Arrival::Connection { peer: client() }) {
        Dispatch::Spawn { session, .. } => session,
        other => panic!("unexpected {:?}", other),
    };
    let (first, _, _) = drive(
        first,
        vec![Event::Start, Event::ConnectFailed { cause: "unreachable".to_string() }],
    );
    assert!(first.is_closed());
    match dispatcher.on_accept(Arrival::Connection { peer: client() }) {
        Dispatch::Spawn { session, .. } => assert_eq!(session.id, 2),
        other => panic!("unexpected {:?}", other),
    }
}

#[test]
fn end_of_stream_closes_while_other_direction_writes() {
    // Direction B holds a chunk that it has read and not yet written when
    // direction A reaches the end of its stream.
    let (session, actions, notices) = drive(relaying(2), vec![read(B, 100), read(A, 0)]);
    assert_eq!(actions, vec![Action::Write { direction: B, len: 100 }, Action::Close]);
    assert_eq!(session.stage, Stage::Closed(Outcome::CleanEof { direction: A }));
    assert_eq!(notices, vec![Notice::Closed { session: 2, direction: A, client: client() }]);
    assert_eq!(notices[0].severity(), Severity::Event);

    // What the abandoned direction still reports falls on a closed session.
    let closed = session.clone();
    let (session, actions, notices) = drive(
        session,
        vec![
            copy(B, CopyEvent::WriteFailed { cause: "broken pipe".to_string() }),
            written(B),
            read(B, 0),
        ],
    );
    assert_eq!(actions, vec![Action::Ignore, Action::Ignore, Action::Ignore]);
    assert!(notices.is_empty());
    assert_eq!(session, closed);
}

#[test]
fn transfer_error_closes_while_other_direction_is_idle() {
    let (session, actions, notices) = drive(
        relaying(3),
        vec![
            read(A, 10),
            written(A),
            copy(A, CopyEvent::ReadFailed { cause: "connection reset by peer".to_string() }),
        ],
    );
    assert_eq!(actions[2], Action::Close);
    assert_eq!(
        session.stage,
        Stage::Closed(Outcome::Error {
            direction: A,
            operation: Operation::Read,
            cause: "connection reset by peer".to_string()
        })
    );
    assert_eq!(
        notices[1..].to_vec(),
        vec![
            Notice::TransferFailed {
                session: 3,
                direction: A,
                operation: Operation::Read,
                cause: "connection reset by peer".to_string()
            },
            Notice::Closed { session: 3, direction: A, client: client() },
        ]
    );
    assert_eq!(notices[1].severity(), Severity::Error);
    assert_eq!(notices[2].severity(), Severity::Event);
}

#[test]
fn write_error_on_the_way_back_names_its_direction() {
    let (session, _, notices) = drive(
        relaying(5),
        vec![read(B, 10), copy(B, CopyEvent::WriteFailed { cause: "broken pipe".to_string() })],
    );
    assert_eq!(
        session.stage,
        Stage::Closed(Outcome::Error {
            direction: B,
            operation: Operation::Write,
            cause: "broken pipe".to_string()
        })
    );
    assert_eq!(notices.len(), 2);
    assert_eq!(notices[1], Notice::Closed { session: 5, direction: B, client: client() });
}

#[test]
fn directions_do_not_disturb_each_other() {
    let (session, _, _) = drive(
        relaying(6),
        vec![read(A, 5), read(B, 7), written(B), written(A), read(B, 2)],
    );
    match session.stage {
        Stage::Relaying { client_to_target, target_to_client, .. } => {
            assert_eq!(client_to_target, CopyLoop { phase: Phase::Reading, total: 5 });
            assert_eq!(target_to_client, CopyLoop { phase: Phase::Writing { pending: 2 }, total: 7 });
        },
        other => panic!("unexpected {:?}", other),
    }
}

#[test]
fn events_before_their_stage_are_ignored() {
    let (session, actions, notices) = drive(
        Session::accepted(7, None),
        vec![
            read(A, 3),
            Event::Connected { target: None },
            Event::ConnectFailed { cause: "early".to_string() },
        ],
    );
    assert_eq!(actions, vec![Action::Ignore, Action::Ignore, Action::Ignore]);
    assert!(notices.is_empty());
    assert_eq!(session, Session::accepted(7, None));

    let (session, actions, _) = drive(relaying(8), vec![Event::Start, written(A)]);
    assert_eq!(actions, vec![Action::Ignore, Action::Ignore]);
    assert_eq!(session, relaying(8));
}

#[test]
fn notices_know_their_session_and_severity() {
    let started = Notice::Started { session: 11, client: None };
    let chunk = Notice::Chunk { session: 12, direction: A, client: None, target: None, len: 1 };
    let failed = Notice::TransferFailed {
        session: 13,
        direction: B,
        operation: Operation::Write,
        cause: String::new(),
    };
    let refused = Notice::ConnectFailed { session: 14, client: None, cause: String::new() };
    let closed = Notice::Closed { session: 15, direction: B, client: None };
    let accept = Notice::AcceptFailed { cause: String::new() };
    assert_eq!(started.session(), Some(11));
    assert_eq!(chunk.session(), Some(12));
    assert_eq!(failed.session(), Some(13));
    assert_eq!(refused.session(), Some(14));
    assert_eq!(closed.session(), Some(15));
    assert_eq!(accept.session(), None);
    assert_eq!(started.severity(), Severity::Event);
    assert_eq!(chunk.severity(), Severity::Event);
    assert_eq!(failed.severity(), Severity::Error);
    assert_eq!(refused.severity(), Severity::Error);
    assert_eq!(closed.severity(), Severity::Event);
    assert_eq!(accept.severity(), Severity::Warning);
}

#[test]
fn pair_style_towards_the_target() {
    let vivid = TextStyle { tint: Tint::Session, bold: true, dimmed: false };
    let muted = TextStyle { tint: Tint::BrightBlack, bold: true, dimmed: false };
    assert_eq!(
        pair_style(A, true, true),
        PairStyle { left: vivid, arrow: Tint::Blue, right: muted, dimmed: false }
    );
    let red = TextStyle { tint: Tint::Red, bold: true, dimmed: false };
    let dim_red = TextStyle { tint: Tint::Red, bold: true, dimmed: true };
    assert_eq!(
        pair_style(A, false, false),
        PairStyle { left: red, arrow: Tint::Blue, right: dim_red, dimmed: false }
    );
    assert_eq!(pair_style(A, false, true).left, red);
    assert_eq!(pair_style(A, false, true).right, muted);
}

#[test]
fn pair_style_towards_the_client() {
    let vivid = TextStyle { tint: Tint::Session, bold: true, dimmed: false };
    let muted = TextStyle { tint: Tint::BrightBlack, bold: true, dimmed: false };
    let red = TextStyle { tint: Tint::Red, bold: true, dimmed: false };
    let dim_red = TextStyle { tint: Tint::Red, bold: true, dimmed: true };
    assert_eq!(
        pair_style(B, true, true),
        PairStyle { left: muted, arrow: Tint::Cyan, right: vivid, dimmed: true }
    );
    // The left label follows the target, the right one the client.
    assert_eq!(
        pair_style(B, true, false),
        PairStyle { left: dim_red, arrow: Tint::Cyan, right: vivid, dimmed: true }
    );
    assert_eq!(
        pair_style(B, false, true),
        PairStyle { left: muted, arrow: Tint::Cyan, right: red, dimmed: true }
    );
}
