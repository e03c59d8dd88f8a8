//! Image acquisition, caching, and optimization for a markdown-to-clipboard
//! converter.
//!
//! The library turns an image reference (a local path, a remote URL, or a
//! data URI) into ready-to-embed bytes with a correct MIME type: it
//! classifies references, sniffs binary formats from leading bytes,
//! plans and finishes loads, deduplicates remote work through a cache
//! keyed by a stable hash of the reference, and decides how images are
//! re-encoded.  Configuration merging and the small text helpers used by
//! the output renderers live here as well.
//!
//! File and network reads themselves are performed by the surrounding
//! application; every decision about them is made and verified here.

pub mod cache;
pub mod config;
pub mod escape;
pub mod formats;
pub mod image;
pub mod optimize;
pub mod table;
pub mod text;
