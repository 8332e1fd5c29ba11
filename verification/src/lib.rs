//! Server-side core of a bookmark manager: route dispatch, a component
//! renderer producing full HTML documents, an embedded static-asset server,
//! and a persistence layer for `Link` records, all with verified contracts.
pub mod assets;
pub mod error;
pub mod handlers;
pub mod render;
pub mod route;
pub mod store;
pub mod text;
