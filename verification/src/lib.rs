//! Canonical (NFD) and compatibility (NFKD) decomposing normalization of
//! well-formed UTF-8 text, driven by compact lookup tables.
//!
//! A [`DecomposingNormalizer`] holds the tables of one normalization form.
//! Its [`normalize`](DecomposingNormalizer::normalize) walks over the bytes
//! of the input: text that needs no change is copied as it is, every other
//! character is replaced by its decomposition, and runs of combining marks
//! are put into canonical order.
//!
//! Every executable function carries a contract over the mathematical model
//! in [`model`], and the laws of normalization are proved in [`laws`]:
//! idempotence, ASCII passthrough, canonical order, stability, the
//! arithmetic of Hangul syllables and the bound on the length of a
//! decomposition.
//!
//! - [`codepoint`]: a scalar value packed with its combining class
//! - [`decomposition`]: descriptors and their encoding in table words
//! - [`hangul`]: arithmetic decomposition of Hangul syllables
//! - [`reader`]: a cursor over the bytes of a UTF-8 string
//! - [`text`]: appending characters to the output
//! - [`data`]: the tables as data, their validation and their packed form
//! - [`nfd_words`], [`nfkd_words`]: the baked tables of the two forms
//! - [`normalizer`]: the normalizer with UTF-8 output
//! - [`codepoints`]: normalization into packed codepoints
//! - [`stats`]: the report on groups of codepoints
//! - [`model`]: the model of tables, decomposition and canonical ordering
//! - [`ordering`], [`feeding`], [`progress`], [`bits`]: lemmas
//! - [`laws`]: the laws
pub mod bits;
pub mod codepoint;
pub mod codepoints;
pub mod data;
pub mod decomposition;
pub mod feeding;
pub mod hangul;
pub mod laws;
pub mod model;
pub mod nfd_words;
pub mod nfkd_words;
pub mod normalizer;
pub mod ordering;
pub mod progress;
pub mod reader;
pub mod stats;
pub mod text;

pub use codepoint::Codepoint;
pub use data::DecompositionData;
pub use decomposition::parse_data_value;
pub use decomposition::DecompositionValue;
pub use hangul::decompose_hangul;
pub use hangul::decompose_hangul_syllable;
pub use hangul::decompose_hangul_syllable_u32;
pub use nfd_words::new_nfd;
pub use nfd_words::nfd;
pub use nfd_words::nfd_normalizer;
pub use nfd_words::try_new_nfd;
pub use nfkd_words::new_nfkd;
pub use nfkd_words::nfkd;
pub use nfkd_words::nfkd_normalizer;
pub use nfkd_words::try_new_nfkd;
pub use normalizer::from_baked;
pub use normalizer::DecomposingNormalizer;
pub use reader::CharsIter;
pub use stats::format_codepoint_groups;
