pub mod config;
pub mod frontend;
pub mod middleware;
pub mod routes;

pub use config::{Configuration, Startup, StartupError};
pub use frontend::FrontendState;
pub use middleware::{cors_policy, security_headers, CorsPolicy, Header};
pub use routes::{Handler, Method, RouteTable};
