//! The rules by which URLs, files and application bundles are opened on macOS
//! "the way Finder would", and by which the application that handles a scheme,
//! a bundle identifier or a display name is picked.
//!
//! Core Foundation, Launch Services and Spotlight do the work and are reached
//! from the shell around this crate. What is decided before a system call and
//! after it is here: how a string is read as a URL or a path, the text of the
//! Spotlight query, which error a failed launch reports, and which of the
//! applications that were found are handed back. Every function takes what
//! the system answered as plain values and says what follows from it.

pub mod error;
pub mod launch;
pub mod lookup;
pub mod openable;
pub mod query;

pub use crate::error::{OSStatus, OpenError};
pub use crate::launch::{launched, open, open_complex, remap_app, remap_multiopenable, LaunchSpec};
pub use crate::lookup::{
    app_accept_url, app_accept_urls, app_for_bundle_id, app_for_bundle_id_accepting_urls,
    app_for_name, app_for_name_accepting_urls, app_for_scheme, apps_for_bundle_id,
    apps_for_bundle_id_accepting_urls, apps_for_name, apps_for_name_accepting_urls,
    apps_for_scheme,
};
pub use crate::openable::{
    all_openable, scheme_url, url, url_parsed, url_probed, Reading, Source, UrlFault,
};
pub use crate::query::name_query;
