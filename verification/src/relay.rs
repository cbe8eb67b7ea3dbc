//! The life of one session.
//!
//! A session is accepted, connects to the target, relays in both directions
//! at once, and closes: `Accepted`, `Connecting`, `Relaying`, `Closed`. It
//! closes when the connect fails, or as soon as either direction ends,
//! cleanly or not; the other direction is then given up. A closed session
//! stays closed.
//!
//! `Session::step` is the whole of it: from the session and an event to the
//! session that follows, what to do next, and what to report.

use vstd::prelude::*;
use crate::copy_loop::copy_step;
use crate::copy_loop::CopyAction;
use crate::copy_loop::CopyEnd;
use crate::copy_loop::CopyEvent;
use crate::copy_loop::CopyLoop;
use crate::copy_loop::Direction;
use crate::copy_loop::Operation;
use crate::copy_loop::Phase;
use crate::report::Notice;

verus! {

/// How a session ended.
#[derive(Clone, Debug, PartialEq, Eq)]
pub enum Outcome {
    /// The source of `direction` reached the end of its stream.
    CleanEof { direction: Direction },
    /// A read or a write of `direction` failed.
    Error { direction: Direction, operation: Operation, cause: String },
    /// The target could not be reached: nothing was relayed.
    ConnectFailed { cause: String },
}

/// Where a session stands.
#[derive(Clone, Debug, PartialEq, Eq)]
pub enum Stage {
    /// The inbound connection is accepted; nothing else has happened.
    Accepted,
    /// The connect to the target is under way.
    Connecting,
    /// Both directions are running. `target` is the address of the outbound
    /// connection's peer, where it could be had.
    Relaying { target: Option<String>, client_to_target: CopyLoop, target_to_client: CopyLoop },
    /// The session is over.
    Closed(Outcome),
}

/// One proxied pairing of an inbound and an outbound connection.
#[derive(Clone, Debug, PartialEq, Eq)]
pub struct Session {
    /// The session's identifier.
    pub id: u64,
    /// The address of the inbound connection's peer, where it could be had.
    pub client: Option<String>,
    /// Where the session stands.
    pub stage: Stage,
}

/// What happened to a session.
#[derive(Clone, Debug, PartialEq, Eq)]
pub enum Event {
    /// The session's task has started.
    Start,
    /// The connect to the target succeeded. `target` is the address of the
    /// peer, where it could be had.
    Connected { target: Option<String> },
    /// The connect to the target failed.
    ConnectFailed { cause: String },
    /// A read or a write of one direction came to an end.
    Copy { direction: Direction, event: CopyEvent },
}

/// What is to be done for a session next.
#[derive(Clone, Copy, Debug, PartialEq, Eq, Structural)]
pub enum Action {
    /// Connect to the target.
    Connect,
    /// Start both directions: read on the inbound and on the outbound
    /// connection.
    StartCopying,
    /// Write the first `len` bytes that the last read of `direction` brought
    /// to that direction's sink, all of them.
    Write { direction: Direction, len: usize },
    /// Read again from the source of `direction`.
    Read { direction: Direction },
    /// Close every connection of the session and give up what is under way.
    Close,
    /// Nothing: the event came to a session that was not waiting for it.
    Ignore,
}

/// What follows an event: the session, the action, and the notices to
/// record, in their order.
pub struct Step {
    pub session: Session,
    pub action: Action,
    pub notices: Seq<Notice>,
}

/// The step that changes nothing.
pub open spec fn ignored(session: Session) -> Step {
    Step { session, action: Action::Ignore, notices: Seq::empty() }
}

/// The step that closes a session.
pub open spec fn closing(session: Session, outcome: Outcome, notices: Seq<Notice>) -> Step {
    Step {
        session: Session { id: session.id, client: session.client, stage: Stage::Closed(outcome) },
        action: Action::Close,
        notices,
    }
}

/// A relaying session's step on an event of one of its directions. That
/// direction's loop takes the event; the other loop is not touched. A write
/// that the loop asks for is passed on. A chunk that it reports is reported
/// with the session's peers, and the direction reads again. When the loop
/// stops, the session closes at once, whatever the other direction is doing:
/// cleanly on the end of the stream, else with the failure, which is
/// reported before the closing.
pub open spec fn relay_step(
    session: Session,
    target: Option<String>,
    client_to_target: CopyLoop,
    target_to_client: CopyLoop,
    direction: Direction,
    event: CopyEvent,
) -> Step {
    let own = match direction {
        Direction::ClientToTarget => client_to_target,
        Direction::TargetToClient => target_to_client,
    };
    let (moved, action) = copy_step(own, event);
    let still = Session {
        id: session.id,
        client: session.client,
        stage: match direction {
            Direction::ClientToTarget => Stage::Relaying {
                target,
                client_to_target: moved,
                target_to_client,
            },
            Direction::TargetToClient => Stage::Relaying {
                target,
                client_to_target,
                target_to_client: moved,
            },
        },
    };
    let closed = Notice::Closed { session: session.id, direction, client: session.client };
    match action {
        CopyAction::Write { len } => Step {
            session: still,
            action: Action::Write { direction, len },
            notices: Seq::empty(),
        },
        CopyAction::Record { len } => Step {
            session: still,
            action: Action::Read { direction },
            notices: seq![
                Notice::Chunk { session: session.id, direction, client: session.client, target, len },
            ],
        },
        CopyAction::Stop => match moved.phase {
            Phase::Finished(CopyEnd::Failed { operation, cause }) => closing(
                session,
                Outcome::Error { direction, operation, cause },
                seq![
                    Notice::TransferFailed { session: session.id, direction, operation, cause },
                    closed,
                ],
            ),
            _ => closing(session, Outcome::CleanEof { direction }, seq![closed]),
        },
        CopyAction::Ignore => ignored(session),
    }
}

/// The session's transition.
///
/// An accepted session starts by connecting. A connecting session begins to
/// relay when the connect succeeds, and closes with a report when it fails.
/// A relaying session takes the events of its two directions, as
/// `relay_step` says. Any other pairing of stage and event, and so every
/// event that reaches a closed session, changes nothing.
pub open spec fn session_step(session: Session, event: Event) -> Step {
    match (session.stage, event) {
        (Stage::Accepted, Event::Start) => Step {
            session: Session { id: session.id, client: session.client, stage: Stage::Connecting },
            action: Action::Connect,
            notices: Seq::empty(),
        },
        (Stage::Connecting, Event::Connected { target }) => Step {
            session: Session {
                id: session.id,
                client: session.client,
                stage: Stage::Relaying {
                    target,
                    client_to_target: CopyLoop::spec_new(),
                    target_to_client: CopyLoop::spec_new(),
                },
            },
            action: Action::StartCopying,
            notices: Seq::empty(),
        },
        (Stage::Connecting, Event::ConnectFailed { cause }) => closing(
            session,
            Outcome::ConnectFailed { cause },
            seq![Notice::ConnectFailed { session: session.id, client: session.client, cause }],
        ),
        (
            Stage::Relaying { target, client_to_target, target_to_client },
            Event::Copy { direction, event },
        ) => relay_step(session, target, client_to_target, target_to_client, direction, event),
        _ => ignored(session),
    }
}

/// A copy of a peer's address.
fn same_peer(peer: &Option<String>) -> (copy: Option<String>)
    ensures
        copy == *peer,
{
    match peer {
        Some(address) => Some(address.clone()),
        None => None,
    }
}

impl Session {
    /// The session of a connection that was just accepted.
    pub open spec fn spec_accepted(id: u64, client: Option<String>) -> Session {
        Session { id, client, stage: Stage::Accepted }
    }

    /// The session of a connection that was just accepted, under the
    /// identifier `id`. `client` is the address of the connection's peer,
    /// where it could be had.
    #[verifier::when_used_as_spec(spec_accepted)]
    pub fn accepted(id: u64, client: Option<String>) -> (session: Session)
        ensures
            session == Session::spec_accepted(id, client),
    {
        Session { id, client, stage: Stage::Accepted }
    }

    /// Whether the session is over.
    pub open spec fn spec_is_closed(&self) -> bool {
        self.stage is Closed
    }

    /// Whether the session is over.
    #[verifier::when_used_as_spec(spec_is_closed)]
    pub fn is_closed(&self) -> (over: bool)
        ensures
            over == self.spec_is_closed(),
    {
        match &self.stage {
            Stage::Closed(_) => true,
            _ => false,
        }
    }

    /// Takes the session one event further: the session that follows, what to
    /// do next, and what to record.
    pub fn step(self, event: Event) -> (next: (Session, Action, Vec<Notice>))
        ensures
            next.0 == session_step(self, event).session,
            next.1 == session_step(self, event).action,
            next.2@ == session_step(self, event).notices,
    {
        let Session { id, client, stage } = self;
        let mut notices: Vec<Notice> = Vec::new();
        match stage {
            Stage::Accepted => match event {
                Event::Start => (
                    Session { id, client, stage: Stage::Connecting },
                    Action::Connect,
                    notices,
                ),
                _ => (Session { id, client, stage: Stage::Accepted }, Action::Ignore, notices),
            },
            Stage::Connecting => match event {
                Event::Connected { target } => (
                    Session {
                        id,
                        client,
                        stage: Stage::Relaying {
                            target,
                            client_to_target: CopyLoop::new(),
                            target_to_client: CopyLoop::new(),
                        },
                    },
                    Action::StartCopying,
                    notices,
                ),
                Event::ConnectFailed { cause } => {
                    notices.push(
                        Notice::ConnectFailed {
                            session: id,
                            client: same_peer(&client),
                            cause: cause.clone(),
                        },
                    );
                    (
                        Session {
                            id,
                            client,
                            stage: Stage::Closed(Outcome::ConnectFailed { cause }),
                        },
                        Action::Close,
                        notices,
                    )
                },
                _ => (Session { id, client, stage: Stage::Connecting }, Action::Ignore, notices),
            },
            Stage::Relaying { target, client_to_target, target_to_client } => match event {
                Event::Copy { direction, event } => Session::relay(
                    id,
                    client,
                    target,
                    client_to_target,
                    target_to_client,
                    direction,
                    event,
                ),
                _ => (
                    Session {
                        id,
                        client,
                        stage: Stage::Relaying { target, client_to_target, target_to_client },
                    },
                    Action::Ignore,
                    notices,
                ),
            },
            Stage::Closed(outcome) => (
                Session { id, client, stage: Stage::Closed(outcome) },
                Action::Ignore,
                notices,
            ),
        }
    }

    /// The step of a relaying session on an event of one of its directions.
    fn relay(
        id: u64,
        client: Option<String>,
        target: Option<String>,
        client_to_target: CopyLoop,
        target_to_client: CopyLoop,
        direction: Direction,
        event: CopyEvent,
    ) -> (next: (Session, Action, Vec<Notice>))
        ensures
            ({
                let session = Session {
                    id,
                    client,
                    stage: Stage::Relaying { target, client_to_target, target_to_client },
                };
                let step = relay_step(
                    session,
                    target,
                    client_to_target,
                    target_to_client,
                    direction,
                    event,
                );
                &&& next.0 == step.session
                &&& next.1 == step.action
                &&& next.2@ == step.notices
            }),
    {
        let mut notices: Vec<Notice> = Vec::new();
        let (own, other) = match direction {
            Direction::ClientToTarget => (client_to_target, target_to_client),
            Direction::TargetToClient => (target_to_client, client_to_target),
        };
        let (moved, action) = own.step(event);
        match action {
            CopyAction::Stop => {
                match moved.phase {
                    Phase::Finished(CopyEnd::Failed { operation, cause }) => {
                        notices.push(
                            Notice::TransferFailed {
                                session: id,
                                direction,
                                operation,
                                cause: cause.clone(),
                            },
                        );
                        notices.push(
                            Notice::Closed { session: id, direction, client: same_peer(&client) },
                        );
                        assert(notices@ =~= seq![notices@[0], notices@[1]]);
                        (
                            Session {
                                id,
                                client,
                                stage: Stage::Closed(
                                    Outcome::Error { direction, operation, cause },
                                ),
                            },
                            Action::Close,
                            notices,
                        )
                    },
                    _ => {
                        notices.push(
                            Notice::Closed { session: id, direction, client: same_peer(&client) },
                        );
                        assert(notices@ =~= seq![notices@[0]]);
                        (
                            Session {
                                id,
                                client,
                                stage: Stage::Closed(Outcome::CleanEof { direction }),
                            },
                            Action::Close,
                            notices,
                        )
                    },
                }
            },
            CopyAction::Ignore => {
                let stage = match direction {
                    Direction::ClientToTarget => Stage::Relaying {
                        target,
                        client_to_target: moved,
                        target_to_client: other,
                    },
                    Direction::TargetToClient => Stage::Relaying {
                        target,
                        client_to_target: other,
                        target_to_client: moved,
                    },
                };
                (Session { id, client, stage }, Action::Ignore, notices)
            },
            CopyAction::Write { len } => {
                let stage = match direction {
                    Direction::ClientToTarget => Stage::Relaying {
                        target,
                        client_to_target: moved,
                        target_to_client: other,
                    },
                    Direction::TargetToClient => Stage::Relaying {
                        target,
                        client_to_target: other,
                        target_to_client: moved,
                    },
                };
                (Session { id, client, stage }, Action::Write { direction, len }, notices)
            },
            CopyAction::Record { len } => {
                notices.push(
                    Notice::Chunk {
                        session: id,
                        direction,
                        client: same_peer(&client),
                        target: same_peer(&target),
                        len,
                    },
                );
                assert(notices@ =~= seq![notices@[0]]);
                let stage = match direction {
                    Direction::ClientToTarget => Stage::Relaying {
                        target,
                        client_to_target: moved,
                        target_to_client: other,
                    },
                    Direction::TargetToClient => Stage::Relaying {
                        target,
                        client_to_target: other,
                        target_to_client: moved,
                    },
                };
                (Session { id, client, stage }, Action::Read { direction }, notices)
            },
        }
    }
}

} // verus!
