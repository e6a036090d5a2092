/// Argument values and the typed argument records of the four tools.
pub mod args;
/// An in-memory file store modelling what the handlers operate on.
pub mod fsmodel;
/// The pure part of the four filesystem tools: rendering and wrapping.
pub mod handlers;
/// The uniform success/failure envelope for tool invocations.
pub mod outcome;
/// The tool registry: lookup, validation, dispatch.
pub mod router;
/// The schema validator for raw argument payloads.
pub mod schema;
/// The per-connection handshake state machine.
pub mod session;
/// Decimal rendering, lexicographic order, and a verified sort.
pub mod text;
/// The duplex transport's session bookkeeping and shutdown coordination.
pub mod transport;
