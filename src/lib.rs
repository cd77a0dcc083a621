pub mod config;
pub mod laws;
pub mod manager;
pub mod session;
pub mod wireguard;

pub use config::{is_host_name, is_ipv6_literal, IpRange, TunnelConfig, KEY_LEN};
pub use manager::{SessionManager, DEFAULT_FAILURE_THRESHOLD};
pub use session::{Action, EngineStart, EngineStatus, Input, SessionError, SessionEvent, SessionState};
pub use wireguard::WireGuardService;
