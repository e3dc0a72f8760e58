//! The life of a session as a state machine.
//!
//! `Disconnected -> Connecting -> Connected`, or `Connecting -> Error`. A
//! connected session becomes `Disconnected` when it is disconnected or the
//! remote side ends the stream, and `Error` when a read or a write fails.
//! Nothing reaches `Connected` but through `Connecting`, and nothing leaves
//! `Disconnected` or `Error` but a new connect request or a disconnect.

use vstd::prelude::*;
use vstd::string::*;
use crate::text::str_equal;
use crate::ConnectionStatus;

verus! {

/// A status with its message as a sequence of characters.
pub enum StatusModel {
    Connected,
    Disconnected,
    Connecting,
    Error(Seq<char>),
}

impl View for ConnectionStatus {
    type V = StatusModel;

    open spec fn view(&self) -> StatusModel {
        match self {
            ConnectionStatus::Connected => StatusModel::Connected,
            ConnectionStatus::Disconnected => StatusModel::Disconnected,
            ConnectionStatus::Connecting => StatusModel::Connecting,
            ConnectionStatus::Error(message) => StatusModel::Error(message@),
        }
    }
}

/// What can happen to a session.
#[derive(Debug, Clone, PartialEq, Eq)]
pub enum SessionEvent {
    /// The caller asks for a connection.
    ConnectRequested,
    /// Transport, authentication and channel are up.
    Established,
    /// The connect attempt failed; the text says why.
    ConnectFailed(String),
    /// The caller asks for the session to end.
    DisconnectRequested,
    /// A read of zero bytes: the remote side ended the stream.
    RemoteEof,
    /// A read or a write failed; the text says why.
    IoFailed(String),
}

/// An event with its text as a sequence of characters.
pub enum EventModel {
    ConnectRequested,
    Established,
    ConnectFailed(Seq<char>),
    DisconnectRequested,
    RemoteEof,
    IoFailed(Seq<char>),
}

impl View for SessionEvent {
    type V = EventModel;

    open spec fn view(&self) -> EventModel {
        match self {
            SessionEvent::ConnectRequested => EventModel::ConnectRequested,
            SessionEvent::Established => EventModel::Established,
            SessionEvent::ConnectFailed(why) => EventModel::ConnectFailed(why@),
            SessionEvent::DisconnectRequested => EventModel::DisconnectRequested,
            SessionEvent::RemoteEof => EventModel::RemoteEof,
            SessionEvent::IoFailed(why) => EventModel::IoFailed(why@),
        }
    }
}

/// The status that `event` leads to from `status`, or `None` where the event
/// has no place in that status.
pub open spec fn transition(status: StatusModel, event: EventModel) -> Option<StatusModel> {
    match (status, event) {
        (StatusModel::Disconnected, EventModel::ConnectRequested) => Some(StatusModel::Connecting),
        (StatusModel::Error(_), EventModel::ConnectRequested) => Some(StatusModel::Connecting),
        (StatusModel::Connecting, EventModel::Established) => Some(StatusModel::Connected),
        (StatusModel::Connecting, EventModel::ConnectFailed(why)) => Some(StatusModel::Error(why)),
        (StatusModel::Connected, EventModel::RemoteEof) => Some(StatusModel::Disconnected),
        (StatusModel::Connected, EventModel::IoFailed(why)) => Some(StatusModel::Error(why)),
        (StatusModel::Connected, EventModel::DisconnectRequested) => Some(
            StatusModel::Disconnected,
        ),
        (StatusModel::Error(_), EventModel::DisconnectRequested) => Some(StatusModel::Disconnected),
        (StatusModel::Disconnected, EventModel::DisconnectRequested) => Some(
            StatusModel::Disconnected,
        ),
        _ => None,
    }
}

/// The status after `event`: where the event has no place, the status stays.
pub open spec fn status_after(status: StatusModel, event: EventModel) -> StatusModel {
    match transition(status, event) {
        Some(next) => next,
        None => status,
    }
}

/// The status that `event` leads to, or `None` where it has no place in
/// `status`.
pub fn next_status(status: &ConnectionStatus, event: SessionEvent) -> (next: Option<
    ConnectionStatus,
>)
    ensures
        match next {
            Some(to) => transition(status@, event@) == Some(to@),
            None => transition(status@, event@) is None,
        },
{
    match (status, event) {
        (ConnectionStatus::Disconnected, SessionEvent::ConnectRequested) => Some(
            ConnectionStatus::Connecting,
        ),
        (ConnectionStatus::Error(_), SessionEvent::ConnectRequested) => Some(
            ConnectionStatus::Connecting,
        ),
        (ConnectionStatus::Connecting, SessionEvent::Established) => Some(
            ConnectionStatus::Connected,
        ),
        (ConnectionStatus::Connecting, SessionEvent::ConnectFailed(why)) => Some(
            ConnectionStatus::Error(why),
        ),
        (ConnectionStatus::Connected, SessionEvent::RemoteEof) => Some(
            ConnectionStatus::Disconnected,
        ),
        (ConnectionStatus::Connected, SessionEvent::IoFailed(why)) => Some(
            ConnectionStatus::Error(why),
        ),
        (ConnectionStatus::Connected, SessionEvent::DisconnectRequested) => Some(
            ConnectionStatus::Disconnected,
        ),
        (ConnectionStatus::Error(_), SessionEvent::DisconnectRequested) => Some(
            ConnectionStatus::Disconnected,
        ),
        (ConnectionStatus::Disconnected, SessionEvent::DisconnectRequested) => Some(
            ConnectionStatus::Disconnected,
        ),
        _ => None,
    }
}

/// A copy of `status`.
pub fn copy_status(status: &ConnectionStatus) -> (copy: ConnectionStatus)
    ensures
        copy@ == status@,
{
    match status {
        ConnectionStatus::Connected => ConnectionStatus::Connected,
        ConnectionStatus::Disconnected => ConnectionStatus::Disconnected,
        ConnectionStatus::Connecting => ConnectionStatus::Connecting,
        ConnectionStatus::Error(message) => ConnectionStatus::Error(message.clone()),
    }
}

/// The name under which a status is sent to the user interface.
pub open spec fn label_of(status: StatusModel) -> Seq<char> {
    match status {
        StatusModel::Connected => "connected"@,
        StatusModel::Disconnected => "disconnected"@,
        StatusModel::Connecting => "connecting"@,
        StatusModel::Error(_) => "error"@,
    }
}

/// The name under which `status` is sent to the user interface.
pub fn status_label(status: &ConnectionStatus) -> (label: &'static str)
    ensures
        label@ == label_of(status@),
{
    match status {
        ConnectionStatus::Connected => "connected",
        ConnectionStatus::Disconnected => "disconnected",
        ConnectionStatus::Connecting => "connecting",
        ConnectionStatus::Error(_) => "error",
    }
}

/// The status that a label and an optional message stand for: the three
/// names `connecting`, `connected` and `disconnected` are themselves; any
/// other label is an error, with `message` as its text, or `Unknown error`
/// where there is none.
pub open spec fn status_of_label(label: Seq<char>, message: Option<Seq<char>>) -> StatusModel {
    if label == "connecting"@ {
        StatusModel::Connecting
    } else if label == "connected"@ {
        StatusModel::Connected
    } else if label == "disconnected"@ {
        StatusModel::Disconnected
    } else {
        StatusModel::Error(
            match message {
                Some(text) => text,
                None => "Unknown error"@,
            },
        )
    }
}

/// Reads a status from its label and message.
pub fn status_from_label(label: &str, message: Option<&str>) -> (status: ConnectionStatus)
    ensures
        status@ == status_of_label(
            label@,
            match message {
                Some(text) => Some(text@),
                None => None,
            },
        ),
{
    if str_equal(label, "connecting") {
        ConnectionStatus::Connecting
    } else if str_equal(label, "connected") {
        ConnectionStatus::Connected
    } else if str_equal(label, "disconnected") {
        ConnectionStatus::Disconnected
    } else {
        match message {
            Some(text) => ConnectionStatus::Error(String::from_str(text)),
            None => ConnectionStatus::Error(String::from_str("Unknown error")),
        }
    }
}

/// Nothing becomes `Connected` but from `Connecting`.
pub proof fn law_connected_only_through_connecting(status: StatusModel, event: EventModel)
    requires
        transition(status, event) == Some(StatusModel::Connected),
    ensures
        status is Connecting,
{
}

/// `Disconnected` and `Error` are left only by a connect request, which leads
/// to `Connecting`: nothing is retried by itself.
pub proof fn law_terminal_states_wait_for_the_caller(status: StatusModel, event: EventModel)
    requires
        status is Disconnected || status is Error,
        transition(status, event) is Some,
    ensures
        event is ConnectRequested && transition(status, event) == Some(StatusModel::Connecting)
            || event is DisconnectRequested && transition(status, event) == Some(
            StatusModel::Disconnected,
        ),
{
}

/// The label of a status reads back as that status, the message of an error
/// included.
pub proof fn law_label_reads_back(status: StatusModel)
    ensures
        status_of_label(
            label_of(status),
            match status {
                StatusModel::Error(text) => Some(text),
                _ => None,
            },
        ) == status,
{
    reveal_strlit("connected");
    reveal_strlit("disconnected");
    reveal_strlit("connecting");
    reveal_strlit("error");
    assert("disconnected"@.len() == 12);
    assert("connecting"@.len() == 10);
    assert("error"@.len() == 5);
}

} // verus!
