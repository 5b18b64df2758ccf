//! A mail dispatch core for a small office mailing tool.
//!
//! The library owns the state of one compose session: an ordered list of
//! validated recipients and at most one attachment path. It validates
//! addresses and attachment paths, merges ad-hoc recipients, and builds a
//! plain outbound-message value that a thin shell hands to an SMTP
//! transport. Beside the dispatch core stand the roster of named contacts,
//! the list of ad-hoc addresses typed in directly, and the static
//! configuration record.

pub mod config;
pub mod email;
pub mod laws;
pub mod mail_list;
pub mod mail_sender;
pub mod media_type;
pub mod other_mail_list;
pub mod paths;
pub mod person;
