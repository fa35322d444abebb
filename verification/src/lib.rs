//! Session management core: a per-request key-value record with a mutation
//! status, a configuration builder that derives the session cookie, and a
//! protocol engine that turns a finished record into the exact sequence of
//! store operations plus the cookie header to attach.

pub mod builder;
pub mod data;
pub mod engine;
pub mod errors;
pub mod idgen;
pub mod record;
pub mod session;
pub mod storage;

pub use builder::BuilderView;
pub use builder::CookieView;
pub use builder::RefreshStrategy;
pub use builder::SameSitePolicy;
pub use builder::SessionBuilder;
pub use builder::SessionCookie;
pub use data::SessionData;
pub use engine::StoreOp;
pub use engine::StoreOpView;
pub use errors::SessionError;
pub use idgen::RandKey;
pub use record::RecordView;
pub use record::SessionInner;
pub use record::SessionStatus;
pub use session::Session;
pub use session::SessionDepotExt;
pub use storage::encode_session_data;
pub use storage::load_from_payload;
pub use storage::prefixed_key;
pub use storage::session_data_from_payload;
