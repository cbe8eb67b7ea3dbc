//! What the forwarder reports, and how a report is to look.
//!
//! The forwarder writes no log itself. At fixed points in a session's life it
//! hands out a `Notice`; whoever runs it records each notice as an event, a
//! warning or an error, under the session's identifier where it has one.

use vstd::prelude::*;
use crate::copy_loop::Direction;
use crate::copy_loop::Operation;

verus! {

/// The three ways in which a notice is recorded.
#[derive(Clone, Copy, Debug, PartialEq, Eq, Structural)]
pub enum Severity {
    Event,
    Warning,
    Error,
}

/// Something that the forwarder reports. A peer is given by its address, or
/// by `None` where the address could not be had.
#[derive(Clone, Debug, PartialEq, Eq)]
pub enum Notice {
    /// A connection was accepted and its session begins.
    Started { session: u64, client: Option<String> },
    /// A chunk of `len` bytes went from one peer to the other.
    Chunk {
        session: u64,
        direction: Direction,
        client: Option<String>,
        target: Option<String>,
        len: usize,
    },
    /// A read or a write failed in the middle of a transfer.
    TransferFailed { session: u64, direction: Direction, operation: Operation, cause: String },
    /// The target could not be reached.
    ConnectFailed { session: u64, client: Option<String>, cause: String },
    /// The session is over; `direction` is the one that ended it.
    Closed { session: u64, direction: Direction, client: Option<String> },
    /// The listener failed to accept a connection.
    AcceptFailed { cause: String },
}

impl Notice {
    /// How the notice is recorded: failures of a session as errors, a failed
    /// accept as a warning, everything else as an event.
    pub open spec fn spec_severity(&self) -> Severity {
        match self {
            Notice::TransferFailed { .. } => Severity::Error,
            Notice::ConnectFailed { .. } => Severity::Error,
            Notice::AcceptFailed { .. } => Severity::Warning,
            _ => Severity::Event,
        }
    }

    /// How the notice is recorded.
    #[verifier::when_used_as_spec(spec_severity)]
    pub fn severity(&self) -> (severity: Severity)
        ensures
            severity == self.spec_severity(),
    {
        match self {
            Notice::TransferFailed { .. } => Severity::Error,
            Notice::ConnectFailed { .. } => Severity::Error,
            Notice::AcceptFailed { .. } => Severity::Warning,
            _ => Severity::Event,
        }
    }

    /// The session that the notice is recorded under: every notice but that
    /// of a failed accept belongs to one.
    pub open spec fn spec_session(&self) -> Option<u64> {
        match self {
            Notice::Started { session, .. } => Some(*session),
            Notice::Chunk { session, .. } => Some(*session),
            Notice::TransferFailed { session, .. } => Some(*session),
            Notice::ConnectFailed { session, .. } => Some(*session),
            Notice::Closed { session, .. } => Some(*session),
            Notice::AcceptFailed { .. } => None,
        }
    }

    /// The session that the notice is recorded under.
    #[verifier::when_used_as_spec(spec_session)]
    pub fn session(&self) -> (session: Option<u64>)
        ensures
            session == self.spec_session(),
    {
        match self {
            Notice::Started { session, .. } => Some(*session),
            Notice::Chunk { session, .. } => Some(*session),
            Notice::TransferFailed { session, .. } => Some(*session),
            Notice::ConnectFailed { session, .. } => Some(*session),
            Notice::Closed { session, .. } => Some(*session),
            Notice::AcceptFailed { .. } => None,
        }
    }
}

/// A colour of the text of a report.
#[derive(Clone, Copy, Debug, PartialEq, Eq, Structural)]
pub enum Tint {
    /// The colour that the palette gives the session.
    Session,
    Red,
    BrightBlack,
    Blue,
    Cyan,
}

/// How a piece of text is set.
#[derive(Clone, Copy, Debug, PartialEq, Eq, Structural)]
pub struct TextStyle {
    pub tint: Tint,
    pub bold: bool,
    pub dimmed: bool,
}

/// How the pair of addresses of a chunk report is set: the client's label on
/// the left, an arrow in the direction of the transfer, the target's label
/// on the right.
#[derive(Clone, Copy, Debug, PartialEq, Eq, Structural)]
pub struct PairStyle {
    /// The style of the client's label.
    pub left: TextStyle,
    /// The colour of the arrow.
    pub arrow: Tint,
    /// The style of the target's label.
    pub right: TextStyle,
    /// Whether the whole pair is dimmed on top of that.
    pub dimmed: bool,
}

/// The style of the side that stands out: the session's colour, or red where
/// the peer that decides is unknown.
pub open spec fn vivid(known: bool) -> TextStyle {
    TextStyle { tint: if known { Tint::Session } else { Tint::Red }, bold: true, dimmed: false }
}

/// The style of the side that stands back: bright black, or a dimmed red
/// where the peer that decides is unknown.
pub open spec fn muted(known: bool) -> TextStyle {
    TextStyle { tint: if known { Tint::BrightBlack } else { Tint::Red }, bold: true, dimmed: !known }
}

/// The style of an address pair.
///
/// From client to target the client's label stands out and the target's
/// stands back, each by whether its own peer is known, and the arrow is
/// blue. From target to client the sides change roles but not what decides
/// them: the client's label stands back by whether the target is known, the
/// target's label stands out by whether the client is known, the arrow is
/// cyan, and the whole pair is dimmed.
pub open spec fn pair_style_of(
    direction: Direction,
    client_known: bool,
    target_known: bool,
) -> PairStyle {
    match direction {
        Direction::ClientToTarget => PairStyle {
            left: vivid(client_known),
            arrow: Tint::Blue,
            right: muted(target_known),
            dimmed: false,
        },
        Direction::TargetToClient => PairStyle {
            left: muted(target_known),
            arrow: Tint::Cyan,
            right: vivid(client_known),
            dimmed: true,
        },
    }
}

/// The style of the address pair of a chunk report.
pub fn pair_style(direction: Direction, client_known: bool, target_known: bool) -> (style:
    PairStyle)
    ensures
        style == pair_style_of(direction, client_known, target_known),
{
    let out = TextStyle {
        tint: if client_known {
            Tint::Session
        } else {
            Tint::Red
        },
        bold: true,
        dimmed: false,
    };
    let back = TextStyle {
        tint: if target_known {
            Tint::BrightBlack
        } else {
            Tint::Red
        },
        bold: true,
        dimmed: !target_known,
    };
    match direction {
        Direction::ClientToTarget => PairStyle {
            left: out,
            arrow: Tint::Blue,
            right: back,
            dimmed: false,
        },
        Direction::TargetToClient => PairStyle {
            left: back,
            arrow: Tint::Cyan,
            right: out,
            dimmed: true,
        },
    }
}

} // verus!
