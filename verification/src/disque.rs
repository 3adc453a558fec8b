//! The block device under the driver: a reader of whole sectors.

use vstd::prelude::*;
use crate::fat::TAILLE_SECTEUR;

verus! {

/// How a read of one sector ends: the bytes left in the buffer, or the
/// device's error.
pub type Lecture = Result<Seq<u8>, &'static str>;

/// How a call of `lire_secteur` ended, as a `Lecture`.
pub open spec fn lecture(retour: Result<(), &'static str>, tampon: Seq<u8>) -> Lecture {
    match retour {
        Ok(_) => Ok(tampon),
        Err(e) => Err(e),
    }
}

/// A device that is read one whole sector at a time.
///
/// The driver never looks at a device but through `lire_secteur`, and its
/// contracts speak of what those reads may give through `issue`. A device
/// that says nothing of itself keeps the default, under which every outcome
/// is possible; one that knows its content can state it there, and the
/// driver's contracts then speak of that content.
pub trait Disque {
    /// Whether a read of sector `idx` may end in `lu`.
    open spec fn issue(&self, idx: u64, lu: Lecture) -> bool {
        true
    }

    /// Reads sector `idx` into `tampon`, which the driver hands over with the
    /// size of a sector.
    fn lire_secteur(&self, idx: u64, tampon: &mut [u8]) -> (retour: Result<(), &'static str>)
        requires
            old(tampon)@.len() == TAILLE_SECTEUR,
        ensures
            self.issue(idx, lecture(retour, final(tampon)@)),
    ;
}

} // verus!
