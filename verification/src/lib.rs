//! Errors of a YAML schema validator, the paths that locate them in a document,
//! and the decisions of its command-line front end.
pub mod text;
pub mod breadcrumb;
pub mod errors;
pub mod yaml;
pub mod cli;
pub mod run;

pub use breadcrumb::{Breadcrumb, BreadcrumbSegment};
pub use cli::{Error, Opt, collect_documents, load_source, read_failure};
pub use errors::generic::GenericError;
pub use errors::schema::{SchemaError, SchemaErrorKind};
pub use run::{Outcome, Request, Run, Stage};
