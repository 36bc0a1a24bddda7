//! The server: the contract that every action meets, typed messages, the
//! registry of methods, the lifecycle and the service that handles one
//! message at a time.

pub mod action;
pub mod laws;
pub mod lifecycle;
pub mod message;
pub mod registry;
pub mod service;
pub mod state;

pub use self::action::{
    Ack, Action, NoParams, NoResponse, NotificationAction, Reply, RequestAction, Response,
};
pub use self::lifecycle::{
    get_root_path, try_get_root_path, ExitNotification, InitializeRequest, InitializeResponse,
    ShutdownRequest,
};
pub use self::message::{Notification, RawMessage, Request};
pub use self::registry::{Method, Role};
pub use self::service::{Dispatched, Handled, LsService, Next, ServerStateChange};
pub use self::state::{Lifecycle, LsState, LsStateView};
