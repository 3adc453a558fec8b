//! The file allocation table: where the entry of a cluster lies, what it
//! holds, and when a chain ends.

use vstd::prelude::*;
use crate::octets::{lire_u32, mot32};

verus! {

/// Size in bytes of a sector, and of every buffer handed to the disk.
pub const TAILLE_SECTEUR: usize = 512;

/// Size in bytes of one entry of the table.
pub const TAILLE_ENTREE_FAT: u64 = 4;

/// An entry at or above this value ends a chain.
pub const FIN_DE_CHAINE: u32 = 0x0FFF_FFF8;

/// The 28 low bits of an entry, the only ones that count.
pub const MASQUE_FAT: u32 = 0x0FFF_FFFF;

/// Byte offset of the entry of `cluster` from the start of the table.
pub open spec fn decalage_fat(cluster: u32) -> int {
    cluster * TAILLE_ENTREE_FAT
}

/// Sector of the table, counted from its first, that holds the entry of
/// `cluster`.
pub open spec fn spec_secteur_relatif(cluster: u32) -> int {
    decalage_fat(cluster) / (TAILLE_SECTEUR as int)
}

/// Position of the entry of `cluster` inside its sector.
pub open spec fn spec_position_dans_secteur(cluster: u32) -> int {
    decalage_fat(cluster) % (TAILLE_SECTEUR as int)
}

/// Successor of `cluster` according to `table`, the sector of the table that
/// holds its entry: the little-endian 32-bit entry, reduced to its 28 low bits.
pub open spec fn spec_entree_fat(table: Seq<u8>, cluster: u32) -> int {
    mot32(table, spec_position_dans_secteur(cluster)) % 0x1000_0000
}

/// `valeur`, read from the table, ends the chain.
pub open spec fn spec_est_fin_de_chaine(valeur: u32) -> bool {
    valeur >= FIN_DE_CHAINE
}

/// Sector of the table, counted from its first, that holds the entry of
/// `cluster`.
pub fn secteur_relatif(cluster: u32) -> (secteur: u64)
    ensures
        secteur == spec_secteur_relatif(cluster),
        secteur <= 0x1FF_FFFF,
{
    (cluster as u64 * TAILLE_ENTREE_FAT) / (TAILLE_SECTEUR as u64)
}

/// Reads the successor of `cluster` out of the sector of the table that holds
/// its entry.
pub fn entree_fat(table: &[u8], cluster: u32) -> (suivant: u32)
    requires
        table@.len() == TAILLE_SECTEUR,
    ensures
        suivant == spec_entree_fat(table@, cluster),
        suivant <= MASQUE_FAT,
{
    let c: u64 = cluster as u64;
    assert((c * 4) % 512 <= 508) by (bit_vector)
        requires
            c <= 0xFFFF_FFFF,
    ;
    let position: usize = ((c * TAILLE_ENTREE_FAT) % (TAILLE_SECTEUR as u64)) as usize;
    let brut: u32 = lire_u32(table, position);
    assert(brut & 0x0FFF_FFFF == brut % 0x1000_0000) by (bit_vector);
    assert(brut & 0x0FFF_FFFF <= 0x0FFF_FFFF) by (bit_vector);
    brut & MASQUE_FAT
}

/// Whether `valeur`, read from the table, ends the chain.
#[verifier::when_used_as_spec(spec_est_fin_de_chaine)]
pub fn est_fin_de_chaine(valeur: u32) -> (fin: bool)
    ensures
        fin == spec_est_fin_de_chaine(valeur),
{
    valeur >= FIN_DE_CHAINE
}

} // verus!
