//! Client-side catalog browsing and search core: filter compilation, facet
//! extraction and a lazy forward-only pagination engine.

pub mod cursor;
pub mod error;
pub mod facet;
pub mod locale;
pub mod options;
pub mod pagination;
pub mod request;
pub mod search;

pub use crate::pagination::Pagination;
pub use crate::search::{Crunchyroll, QueryResults, SimulcastSeason, SimulcastSeasonLocalization};
