//! Declarative HTTP route tables with a verified core.
//!
//! A route is declared as a template string made of literal text and
//! `{name}` parameter placeholders. Entries are collected into ordered,
//! uniquely named tables; tables nest to form a tree. From a table and a
//! registry of named customizers, [`build`] emits the dispatch table that
//! an HTTP serving layer mounts, and [`route_resolver`] reconstructs a
//! concrete path from a chain of entries and a list of parameter values.

pub mod builder;
pub mod error;
pub mod registry;
pub mod resolve;
pub mod table;
pub mod template;

pub use builder::{build, DispatchEntry, DispatchTable};
pub use error::{BuildError, DefinitionError, ParseRouteError, RouteResolverError};
pub use registry::{CustomizerKind, CustomizerRegistry};
pub use resolve::{resolve_route, route_resolver, RouteParameters};
pub use table::{EntryKind, Method, RouteEntry, RouteTable};
pub use template::{parse_route_into_components, render_components, Route, RouteComponent};
