//! Middleware building blocks for an HTTP service pipeline: a type-indexed
//! request context, a correlation-id provider, a context-injection layer, a
//! permissive stub authenticator, and a shared-service factory adapter.

pub mod add_context;
pub mod auth;
pub mod context;
pub mod make;
pub mod xspan;

pub use add_context::AddContextMakeService;
pub use add_context::AddContextService;
pub use auth::AllowAllAuthenticator;
pub use auth::AuthData;
pub use auth::Authorization;
pub use auth::MakeAllowAllAuthenticator;
pub use auth::RcBound;
pub use auth::Scopes;
pub use context::ContextBuilder;
pub use context::EmptyContext;
pub use context::Has;
pub use context::Push;
pub use make::IntoMakeService;
pub use xspan::XSpanIdString;
