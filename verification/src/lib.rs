//! A stub HTTP server core: an ordered list of mock rules is loaded from a
//! YAML configuration document, and each inbound request (method, path) is
//! answered with the canned response of the first rule that matches it, or
//! with a fixed failure response when none does.

pub mod dispatch;
pub mod document;
pub mod laws;
pub mod load;
pub mod model;

pub use dispatch::find_mock_result;
pub use dispatch::resolve;
pub use load::load_mocks;
pub use load::LoadError;
pub use model::Header;
pub use model::Matcher;
pub use model::Method;
pub use model::Mock;
pub use model::Response;
