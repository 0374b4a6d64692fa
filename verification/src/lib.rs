//! Decoder for the on-disk layout of VDFS4 flash filesystem images.
//!
//! The crate reads an image held in memory: the fixed records at the start of
//! the volume, the regions that the extended superblock points to, and the
//! blocks of the B-trees region with the catalog entries found in them.

pub mod btree;
pub mod catalog;
pub mod endian;
pub mod error;
pub mod events;
pub mod image;
pub mod layout;
pub mod reader;
pub mod superblock;
pub mod tables;
pub mod tag;
pub mod text;
pub mod volume;
pub mod walk_laws;
pub mod walker;

pub use crate::btree::Vdfs4GenNodeDescr;
pub use crate::btree::Vdfs4RawBtreeHead;
pub use crate::catalog::Vdfs4CatTreeKey;
pub use crate::catalog::Vdfs4CatalogFileRecord;
pub use crate::catalog::Vdfs4CatalogFolderRecord;
pub use crate::catalog::Vdfs4Timespec;
pub use crate::error::DecodeError;
pub use crate::events::Event;
pub use crate::image::Report;
pub use crate::image::inspect;
pub use crate::reader::ByteReader;
pub use crate::reader::read_exact;
pub use crate::superblock::Vdfs4ExtendedSuperBlock;
pub use crate::superblock::Vdfs4SuperBlock;
pub use crate::tables::Vdfs4BaseTable;
pub use crate::text::string_from_bytes;
pub use crate::volume::Vdfs4VolumeBegins;
pub use crate::walker::Walker;
pub use crate::walker::walk;
