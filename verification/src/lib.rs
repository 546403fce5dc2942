//! Conversion of manga-reader backups between the Neko and Kotatsu formats.
//!
//! The conversion engine is [`convert::MangaConverter`]. It takes the manga of
//! an origin backup one by one, resolves the source of each to the canonical
//! name of a parser ([`resolve`]), corrects its URLs and identifiers
//! ([`script_interface`], [`correction`]), derives the identifiers of the
//! target format ([`ident`]) and enters the records into the result
//! ([`tally`]). What holds of every run is stated in [`laws`].
//!
//! Around the engine stand the registry of sources ([`extensions`]), the
//! knowledge base of parsers and its extraction ([`parsers`]), the archive
//! formats ([`archive`]), the reverse direction ([`reverse`]), the source
//! filter of a configuration ([`config`]) and what a command-line run decides
//! and reports ([`command`], [`report`]).

pub mod archive;
pub mod command;
pub mod config;
pub mod convert;
pub mod correction;
pub mod extensions;
pub mod ident;
pub mod kotatsu;
pub mod laws;
pub mod manga;
pub mod neko;
pub mod parsers;
pub mod report;
pub mod resolve;
pub mod reverse;
pub mod script_interface;
pub mod sort;
pub mod tally;
pub mod text;
pub mod urls;

pub use archive::update_parsers;
pub use convert::MangaConverter;
pub use correction::{correct_identifier, correct_url};
pub use ident::get_kotatsu_id;
pub use report::ConversionError;
pub use sort::{CategorySortType, J2KMangaSort};
pub use tally::MangaConversionResult;
