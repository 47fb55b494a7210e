mod bridge;
mod dir;
mod error;
mod file;

pub use bridge::{lemma_offload_unavailable_distinguishable, resolution, resolve, FsOperation, OffloadEvent};
pub use dir::{create_dir, create_dir_all, remove_dir};
pub use error::{blocking_err, Error, ErrorKind, OperationError};
pub use file::{remove_file, rename, File, OpenOptions};
