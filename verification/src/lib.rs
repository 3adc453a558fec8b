//! Read-only access to a FAT32 volume on a block device: listing a
//! directory, moving into a subdirectory, and reading a whole file as text.
//!
//! Only short 8.3 names are decoded, only the first sector of a directory is
//! scanned, and nothing is cached: every operation reads the device anew.

pub mod disque;
pub mod fat;
pub mod octets;
pub mod repertoire;
pub mod structs;
pub mod systeme;
pub mod texte;

pub use disque::Disque;
pub use systeme::SystemeFichier;
