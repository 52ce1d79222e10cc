pub mod json;
pub mod request;
pub mod response;
pub mod text;
