//! `conrig` locates, loads and saves a single application's configuration
//! file across several interchangeable serialization formats.
//!
//! The entry point is [`ConfigPathMetadata`]: a declarative description of an
//! application's identity, the base names its configuration file may carry,
//! extra files and folders to search, and ordering options.  From that
//! description the library enumerates every candidate path in a strict,
//! deterministic priority order, selects the first candidate that exists, and
//! hands back a handle on which typed read, write and read-or-create
//! operations are available.
//!
//! The library itself performs no disk access.  Callers probe the candidate
//! paths the library computes and pass the outcome back in as plain data: a
//! [`parser::FileSnapshot`] holds the observed files, and write operations
//! return a [`parser::WriteRequest`] describing the single file the caller
//! should persist.  All path ordering, tie-breaking and format dispatch logic
//! is pure and carries machine-checked contracts.

pub mod error;
pub mod laws;
pub mod parser;
pub mod path;

pub use error::{ConrigError, FileSystemError, LangError};
pub use parser::{detect_file_format, FileFormat};
pub use path::{ConfigOption, ConfigPathMetadata, ConfigType, ProjectPath};
