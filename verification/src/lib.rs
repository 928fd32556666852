//! Stand-ins for system facilities: a call recorder that replays scripted
//! answers, and the commit-or-rollback protocol around a transactional
//! resource, with the plain data that commands, requests and environment
//! variables are made of.

pub mod cmd;
pub mod env;
pub mod http;
pub mod mock;
pub mod postgres;
pub mod strmap;
pub mod text;
pub mod uuid;

pub use crate::cmd::Command;
pub use crate::cmd::CommandOutput;
pub use crate::http::HttpRequest;
pub use crate::http::HttpResponse;
pub use crate::mock::Mock;
pub use crate::mock::MockFn;
pub use crate::mock::Script;
pub use crate::postgres::transactional;
pub use crate::postgres::MockPostgresClient;
pub use crate::postgres::MockPostgresTransaction;
pub use crate::postgres::PostgresClient;
pub use crate::postgres::PostgresError;
pub use crate::postgres::PostgresResult;
pub use crate::postgres::PostgresTransaction;
pub use crate::strmap::StringMap;
pub use crate::uuid::DefaultUuidGenerator;
pub use crate::uuid::UuidGenerator;
