//! Catalog of game-unit ("ship") statistics: parsing scraped stat tables
//! into typed records, classifying each record into one of three tactical
//! lines, and ordering a line by a chosen numeric attribute.
//!
//! - [`ship`] — the record model: `Ship`, its class, armor tier, sort keys,
//!   and the total class-to-line mapping.
//! - [`text`] — verified text utilities: string equality, lenient decimal
//!   parsing, substring replacement.
//! - [`labels`] — parsing and rendering the enums' text labels.
//! - [`parse`] — the table parser: header stripping, fixed-width cell
//!   groups, fail-fast enum cells, synthesized icon references.
//! - [`lines`] — the keyed record collection, the classifier that
//!   partitions it, and the session state.
//! - [`sort`] — the stable descending sorter.
//! - [`scrape`] — the acquisition orchestrator over fetched markup, with
//!   the HTML extraction behind a trusted wrapper.

pub mod ship;
pub mod text;
pub mod labels;
pub mod parse;
pub mod lines;
pub mod sort;
pub mod scrape;
