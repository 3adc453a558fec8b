//! The two on-disk records of a FAT32 volume that the driver decodes: the BIOS
//! Parameter Block of the boot sector and the 32-byte directory entry.
//!
//! Both are decoded field by field from fixed byte offsets, multi-byte
//! integers little-endian, so the result does not depend on the host's
//! alignment or byte order.

use vstd::prelude::*;
use crate::octets::{lire_champ, lire_u16, lire_u32, mot16, mot32};
use crate::texte::{ligne, nom_complet, spec_ligne, spec_nom_complet, spec_texte_champ, texte_champ};

verus! {

/// Number of bytes of the boot sector that the BIOS Parameter Block covers.
pub const TAILLE_BPB: usize = 90;

/// Number of bytes of a directory entry.
pub const TAILLE_ENTREE: usize = 32;

/// Attribute bit that marks a subdirectory.
pub const ATTR_DOSSIER: u8 = 0x10;

/// Attribute value of a long-name continuation entry.
pub const ATTR_NOM_LONG: u8 = 0x0F;

/// First name byte of the entry that ends a directory.
pub const MARQUE_FIN: u8 = 0x00;

/// First name byte of a deleted entry.
pub const MARQUE_SUPPRIME: u8 = 0xE5;

/// BIOS Parameter Block: the geometry of a FAT32 volume, as stored at the
/// start of its boot sector.
#[derive(Copy, Clone, Debug)]
pub struct BiosParameterBlock {
    pub jmp_boot: [u8; 3],
    pub oem_name: [u8; 8],
    pub bytes_per_sector: u16,
    pub sectors_per_cluster: u8,
    pub reserved_sectors: u16,
    pub num_fats: u8,
    pub root_entry_count: u16,
    pub total_sectors_16: u16,
    pub media: u8,
    pub fat_size_16: u16,
    pub sectors_per_track: u16,
    pub num_heads: u16,
    pub hidden_sectors: u32,
    pub total_sectors_32: u32,
    pub fat_size_32: u32,
    pub ext_flags: u16,
    pub fs_version: u16,
    pub root_cluster: u32,
    pub fs_info: u16,
    pub backup_boot_sector: u16,
    pub reserved: [u8; 12],
    pub drive_number: u8,
    pub reserved1: u8,
    pub boot_signature: u8,
    pub vol_id: u32,
    pub vol_label: [u8; 11],
    pub fs_type: [u8; 8],
}

impl BiosParameterBlock {
    /// `self` is what the first `TAILLE_BPB` bytes of `s` decode to: each
    /// field holds the bytes at its own offset.
    pub open spec fn decode_de(self, s: Seq<u8>) -> bool {
        &&& self.jmp_boot@ == s.subrange(0, 3)
        &&& self.oem_name@ == s.subrange(3, 11)
        &&& self.bytes_per_sector == mot16(s, 11)
        &&& self.sectors_per_cluster == s[13]
        &&& self.reserved_sectors == mot16(s, 14)
        &&& self.num_fats == s[16]
        &&& self.root_entry_count == mot16(s, 17)
        &&& self.total_sectors_16 == mot16(s, 19)
        &&& self.media == s[21]
        &&& self.fat_size_16 == mot16(s, 22)
        &&& self.sectors_per_track == mot16(s, 24)
        &&& self.num_heads == mot16(s, 26)
        &&& self.hidden_sectors == mot32(s, 28)
        &&& self.total_sectors_32 == mot32(s, 32)
        &&& self.fat_size_32 == mot32(s, 36)
        &&& self.ext_flags == mot16(s, 40)
        &&& self.fs_version == mot16(s, 42)
        &&& self.root_cluster == mot32(s, 44)
        &&& self.fs_info == mot16(s, 48)
        &&& self.backup_boot_sector == mot16(s, 50)
        &&& self.reserved@ == s.subrange(52, 64)
        &&& self.drive_number == s[64]
        &&& self.reserved1 == s[65]
        &&& self.boot_signature == s[66]
        &&& self.vol_id == mot32(s, 67)
        &&& self.vol_label@ == s.subrange(71, 82)
        &&& self.fs_type@ == s.subrange(82, 90)
    }

    /// First sector of the file allocation table.
    pub open spec fn spec_debut_fat(&self) -> int {
        self.reserved_sectors as int
    }

    /// First sector of the data region, which follows all copies of the table.
    pub open spec fn spec_debut_donnees(&self) -> int {
        self.reserved_sectors + self.num_fats * self.fat_size_32
    }

    /// Decodes the block from the start of a boot sector. No signature or
    /// magic value is checked: any bytes are taken as they stand.
    pub fn depuis_octets(data: &[u8]) -> (bpb: Self)
        requires
            data@.len() >= TAILLE_BPB,
        ensures
            bpb.decode_de(data@),
    {
        BiosParameterBlock {
            jmp_boot: lire_champ::<3>(data, 0),
            oem_name: lire_champ::<8>(data, 3),
            bytes_per_sector: lire_u16(data, 11),
            sectors_per_cluster: data[13],
            reserved_sectors: lire_u16(data, 14),
            num_fats: data[16],
            root_entry_count: lire_u16(data, 17),
            total_sectors_16: lire_u16(data, 19),
            media: data[21],
            fat_size_16: lire_u16(data, 22),
            sectors_per_track: lire_u16(data, 24),
            num_heads: lire_u16(data, 26),
            hidden_sectors: lire_u32(data, 28),
            total_sectors_32: lire_u32(data, 32),
            fat_size_32: lire_u32(data, 36),
            ext_flags: lire_u16(data, 40),
            fs_version: lire_u16(data, 42),
            root_cluster: lire_u32(data, 44),
            fs_info: lire_u16(data, 48),
            backup_boot_sector: lire_u16(data, 50),
            reserved: lire_champ::<12>(data, 52),
            drive_number: data[64],
            reserved1: data[65],
            boot_signature: data[66],
            vol_id: lire_u32(data, 67),
            vol_label: lire_champ::<11>(data, 71),
            fs_type: lire_champ::<8>(data, 82),
        }
    }

    /// First sector of the file allocation table: it follows the reserved
    /// sectors.
    pub fn debut_fat(&self) -> (secteur: u64)
        ensures
            secteur == self.spec_debut_fat(),
    {
        self.reserved_sectors as u64
    }

    /// First sector of the data region.
    pub fn debut_donnees(&self) -> (secteur: u64)
        ensures
            secteur == self.spec_debut_donnees(),
            secteur <= 0xFFFF + 0xFF * 0xFFFF_FFFF,
    {
        let copies: u64 = self.num_fats as u64;
        let taille: u64 = self.fat_size_32 as u64;
        assert(copies * taille <= 0xFF * 0xFFFF_FFFF) by (nonlinear_arith)
            requires
                copies <= 0xFF,
                taille <= 0xFFFF_FFFF,
        ;
        self.reserved_sectors as u64 + copies * taille
    }
}

/// One 32-byte record of a directory: a short 8.3 name, attributes,
/// timestamps, the first cluster in two halves, and the size in bytes.
#[derive(Copy, Clone, Debug)]
pub struct DirEntry {
    pub name: [u8; 8],
    pub ext: [u8; 3],
    pub attributes: u8,
    pub reserved: u8,
    pub create_time_tenth: u8,
    pub create_time: u16,
    pub create_date: u16,
    pub last_access_date: u16,
    pub cluster_high: u16,
    pub write_time: u16,
    pub write_date: u16,
    pub cluster_low: u16,
    pub file_size: u32,
}

impl DirEntry {
    /// `self` is what the first `TAILLE_ENTREE` bytes of `s` decode to.
    pub open spec fn decode_de(self, s: Seq<u8>) -> bool {
        &&& self.name@ == s.subrange(0, 8)
        &&& self.ext@ == s.subrange(8, 11)
        &&& self.attributes == s[11]
        &&& self.reserved == s[12]
        &&& self.create_time_tenth == s[13]
        &&& self.create_time == mot16(s, 14)
        &&& self.create_date == mot16(s, 16)
        &&& self.last_access_date == mot16(s, 18)
        &&& self.cluster_high == mot16(s, 20)
        &&& self.write_time == mot16(s, 22)
        &&& self.write_date == mot16(s, 24)
        &&& self.cluster_low == mot16(s, 26)
        &&& self.file_size == mot32(s, 28)
    }

    /// The entry names a subdirectory.
    pub open spec fn spec_est_dossier(&self) -> bool {
        self.attributes & ATTR_DOSSIER != 0
    }

    /// Number of the first cluster: the high half above the low half.
    pub open spec fn spec_premier_cluster(&self) -> u32 {
        (0x1_0000 * self.cluster_high + self.cluster_low) as u32
    }

    /// Text of the name field.
    pub open spec fn spec_nom(&self) -> Seq<char> {
        spec_texte_champ(self.name@)
    }

    /// Text of the extension field.
    pub open spec fn spec_extension(&self) -> Seq<char> {
        spec_texte_champ(self.ext@)
    }

    /// The composed `name.ext` under which the entry is listed and found.
    pub open spec fn spec_nom_complet(&self) -> Seq<char> {
        spec_nom_complet(self.spec_nom(), self.spec_extension())
    }

    /// The line that lists the entry.
    pub open spec fn spec_ligne(&self) -> Seq<char> {
        spec_ligne(self.spec_est_dossier(), self.spec_nom_complet())
    }

    /// Decodes one directory record.
    pub fn depuis_octets(data: &[u8]) -> (entree: Self)
        requires
            data@.len() >= TAILLE_ENTREE,
        ensures
            entree.decode_de(data@),
    {
        DirEntry {
            name: lire_champ::<8>(data, 0),
            ext: lire_champ::<3>(data, 8),
            attributes: data[11],
            reserved: data[12],
            create_time_tenth: data[13],
            create_time: lire_u16(data, 14),
            create_date: lire_u16(data, 16),
            last_access_date: lire_u16(data, 18),
            cluster_high: lire_u16(data, 20),
            write_time: lire_u16(data, 22),
            write_date: lire_u16(data, 24),
            cluster_low: lire_u16(data, 26),
            file_size: lire_u32(data, 28),
        }
    }

    /// Whether the entry names a subdirectory.
    #[verifier::when_used_as_spec(spec_est_dossier)]
    pub fn est_dossier(&self) -> (oui: bool)
        ensures
            oui == self.spec_est_dossier(),
    {
        (self.attributes & ATTR_DOSSIER) != 0
    }

    /// Name of the entry, without its padding.
    pub fn nom(&self) -> (texte: String)
        ensures
            texte@ == self.spec_nom(),
    {
        texte_champ(self.name.as_slice())
    }

    /// Extension of the entry, without its padding.
    pub fn extension(&self) -> (texte: String)
        ensures
            texte@ == self.spec_extension(),
    {
        texte_champ(self.ext.as_slice())
    }

    /// Composed `name.ext`, or the bare name when there is no extension.
    pub fn nom_complet(&self) -> (texte: String)
        ensures
            texte@ == self.spec_nom_complet(),
    {
        let nom: String = self.nom();
        let ext: String = self.extension();
        nom_complet(nom.as_str(), ext.as_str())
    }

    /// Line that lists the entry: directory marker, space, composed name.
    pub fn ligne(&self) -> (texte: String)
        ensures
            texte@ == self.spec_ligne(),
    {
        let complet: String = self.nom_complet();
        ligne(self.est_dossier(), complet.as_str())
    }

    /// Number of the first cluster of the file or directory.
    #[verifier::when_used_as_spec(spec_premier_cluster)]
    pub fn premier_cluster(&self) -> (cluster: u32)
        ensures
            cluster == self.spec_premier_cluster(),
            cluster == 0x1_0000 * self.cluster_high + self.cluster_low,
    {
        0x1_0000 * (self.cluster_high as u32) + self.cluster_low as u32
    }
}

} // verus!
