//! Archive handling: format detection from file names, extraction of archive
//! bytes into per-entry actions, session bookkeeping over an extracted tree,
//! and repacking into a chosen archive format, together with the content
//! classification and component status types that surround it.

pub mod archive_type;
pub mod pack;
pub mod report;
pub mod status;
pub mod supported_format;
pub mod codec;
pub mod content;
pub mod content_data;
pub mod content_kind;
pub mod content_metadata;
pub mod data_reference;
pub mod data_sensitivity;
pub mod data_structure_kind;
pub mod entry;
pub mod error;
pub mod extract;
pub mod handlers;
pub mod session;
pub mod source;
pub mod text;

pub use archive_type::ArchiveType;
pub use error::Error;
pub use handlers::TarArchiveBuilder;
pub use handlers::TarArchiveHandler;
pub use handlers::TarEntryInfo;
pub use handlers::ZipArchiveBuilder;
pub use handlers::ZipArchiveHandler;
pub use handlers::ZipEntryInfo;
pub use session::ArchiveHandler;
pub use source::ArchiveFile;
