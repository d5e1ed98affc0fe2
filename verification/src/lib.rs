pub mod campaigns;
pub mod catalog;
pub mod error;
pub mod http;
pub mod ident;
pub mod jobs;
pub mod loyalty;
pub mod notifications;
pub mod privacy;
pub mod text;
pub mod time;
pub mod validation;
