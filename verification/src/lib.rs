//! Routes a URL to one of several configured web browsers.
//!
//! The configuration holds a set of named browser commands, an ordered list
//! of regular-expression rules, and a default browser name.  The first rule
//! whose pattern matches the URL selects the browser; the resolver turns the
//! selected name into an executable path plus argument list, and the launch
//! plan appends the URL as the final argument.

pub mod cli;
pub mod pattern;
pub mod routing;
pub mod settings;
pub mod util;
