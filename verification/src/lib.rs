//! Client-side orchestration for a catbox command-line tool.
//!
//! The crate decides; its caller performs. Every batch is a state machine
//! that is handed the outcome of the last command and answers with the next
//! one, so that the network, the secret store and the terminal stay outside.
//!
//! * [`normalize`] brings album and file references into canonical form.
//! * [`session`] caches the one shared session.
//! * [`pipeline`] keeps at most [`CEILING`] tasks of a batch in flight.
//! * [`upload`] uploads a list of local files and collects their URLs.
//! * [`album`] adds remote files to an album.
//! * [`listing`] renders what a listing prints.

pub mod album;
pub mod error;
pub mod listing;
pub mod normalize;
pub mod pipeline;
pub mod session;
pub mod text;
pub mod upload;
pub mod url;

pub use album::{add_to_album, AddToAlbum, AlbumCommand, AlbumEvent};
pub use error::{Error, ErrorKind};
pub use normalize::{normalize_album, normalize_file, normalize_files, AlbumReference, FileReference};
pub use pipeline::{Pipeline, TaskState, CEILING};
pub use session::{Access, UserInstance};
pub use upload::{upload_files, Upload, UploadCommand, UploadEvent};
