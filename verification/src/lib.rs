pub mod aggregate;
pub mod date;
pub mod discovery;
pub mod driver;
pub mod error;
pub mod extract;
pub mod flow;
pub mod kepco;
pub mod locator;
pub mod login;
pub mod parsers;
pub mod period;
pub mod pp;
pub mod record;
pub mod request;
pub mod response;
pub mod response_errors;
pub mod text;
pub mod user_info;
pub mod wait;
