//! The filesystem as modelled by 9P2000: the wire-format bitfield codecs
//! (permissions, file-type flags, open modes), the composite value types
//! (`FileMode`, `Qid`, `Stat`), and the capability traits describing the
//! operations a directory or file endpoint must honor.

pub mod dir;
pub mod error;
pub mod file_type;
pub mod fs;
pub mod mem;
pub mod mode;
pub mod open;
pub mod perm;
pub mod qid;
pub mod registry;

pub use dir::ChildEntry;
pub use dir::MemDir;
pub use error::Vfs9Error;
pub use fs::Directory;
pub use fs::DirectoryOrFile;
pub use fs::File;
pub use fs::FsEntity;
pub use fs::IoUnit;
pub use mem::MemFile;
pub use file_type::FileType;
pub use mode::FileMode;
pub use open::OpenMode;
pub use open::OpenSubMode;
pub use perm::IndividualPermissions;
pub use perm::Permissions;
pub use qid::Qid;
pub use qid::Stat;
pub use registry::ExclusionRegistry;
