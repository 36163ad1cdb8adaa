//! Incremental download of a cloud photo library into a dated directory tree.
//!
//! The library holds the decisions and formats of the sync: PKCE material and
//! token-exchange parameters, the redirect listener's claim-once hand-off, the
//! search request body and its pagination, the directory cursor, and the
//! destination layout and write quota of the writer. The network and the file
//! system are driven by the caller, which hands plain values back.

pub mod text;
pub mod callback;
pub mod cursor;
pub mod error;
pub mod search;
pub mod token;
pub mod writer;

pub use callback::{extract_code, CallbackReply, CodeSlot};
pub use cursor::{date_from_names, last_entry, CursorStep, DateCursor, YearMonthDay};
pub use error::Error;
pub use search::{gather, Album, Media, MediaFetcher, MediaMetadata, Pagination, PAGE_SIZE};
pub use token::{gen_code_challenge, TokenFetcher};
pub use writer::{progress_label, Destination, FileStep, MediaWriter, WriteSession};
