//! Message broker names and connection rules.

use vstd::prelude::*;

verus! {

/// The broker's default exchange (its name is empty).
pub const DEFAULT_EXCHANGE: &'static str = "";

/// Queue bound to the tracker events exchange.
pub const TRACKER_EVENTS_QUEUE: &'static str = "tracker";

/// Queue of requests to the mailer service.
pub const MAILER_QUEUE: &'static str = "mailer";

/// Exchange of tracker events such as positions and alerts.
pub const TRACKER_EVENTS_EXCHANGE: &'static str = "tracker_events";

/// Exchange of email events such as clicks, opens and reports.
pub const EMAIL_EVENTS_EXCHANGE: &'static str = "email_events";

/// Declaring the exchanges and queues the application needs must succeed:
/// a failure there means the broker is configured differently from the
/// code, which no retry fixes. Only a success may be passed on.
pub fn panic_on_err<T, E>(result: Result<T, E>)
    requires
        result is Ok,
{
}

/// What the reconnection task does on each check of the connection.
#[derive(Clone, Copy, Debug, PartialEq, Eq)]
pub enum ConnectionCheck {
    /// The connection is up: check again later.
    KeepConnection,
    /// Drop the connection and channels and connect again.
    Reconnect,
}

/// Decides the reconnection task's step: `connected` is the status of the
/// current connection, if there is one.
pub fn check_connection(connected: Option<bool>) -> (c: ConnectionCheck)
    ensures
        c == ConnectionCheck::KeepConnection <==> connected == Some(true),
{
    match connected {
        Some(true) => ConnectionCheck::KeepConnection,
        _ => ConnectionCheck::Reconnect,
    }
}

} // verus!
