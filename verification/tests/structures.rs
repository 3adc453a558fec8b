use fat32::fat::{entree_fat, est_fin_de_chaine, secteur_relatif, FIN_DE_CHAINE, TAILLE_SECTEUR};
use fat32::octets::{lire_champ, lire_u16, lire_u32};
use fat32::structs::{BiosParameterBlock, DirEntry, TAILLE_BPB, TAILLE_ENTREE};

fn secteur_de_boot() -> [u8; 512] {
    let mut s = [0u8; 512];
    for i in 0..90 {
        s[i] = (i as u8) + 1;
    }
    s
}

#[test]
fn entiers_petit_boutistes() {
    let data = [0x34u8, 0x12, 0x78, 0x56, 0xFF, 0xFF, 0xFF, 0xFF];
    assert_eq!(lire_u16(&data, 0), 0x1234);
    assert_eq!(lire_u16(&data, 1), 0x7812);
    assert_eq!(lire_u16(&data, 6), 0xFFFF);
    assert_eq!(lire_u32(&data, 0), 0x5678_1234);
    assert_eq!(lire_u32(&data, 4), 0xFFFF_FFFF);
    assert_eq!(lire_u32(&data, 2), 0xFFFF_5678);
}

#[test]
fn champ_copie_a_sa_position() {
    let data = [1u8, 2, 3, 4, 5, 6];
    let champ: [u8; 3] = lire_champ::<3>(&data, 2);
    assert_eq!(champ, [3, 4, 5]);
    let tout: [u8; 6] = lire_champ::<6>(&data, 0);
    assert_eq!(tout, data);
    let rien: [u8; 0] = lire_champ::<0>(&data, 6);
    assert_eq!(rien.len(), 0);
}

#[test]
fn bpb_decode_chaque_champ_a_son_decalage() {
    let s = secteur_de_boot();
    let b = BiosParameterBlock::depuis_octets(&s);
    assert_eq!(b.jmp_boot, [1, 2, 3]);
    assert_eq!(b.oem_name, [4, 5, 6, 7, 8, 9, 10, 11]);
    assert_eq!(b.bytes_per_sector, 0x0D0C);
    assert_eq!(b.sectors_per_cluster, 14);
    assert_eq!(b.reserved_sectors, 0x100F);
    assert_eq!(b.num_fats, 17);
    assert_eq!(b.root_entry_count, 0x1312);
    assert_eq!(b.total_sectors_16, 0x1514);
    assert_eq!(b.media, 22);
    assert_eq!(b.fat_size_16, 0x1817);
    assert_eq!(b.sectors_per_track, 0x1A19);
    assert_eq!(b.num_heads, 0x1C1B);
    assert_eq!(b.hidden_sectors, 0x201F_1E1D);
    assert_eq!(b.total_sectors_32, 0x2423_2221);
    assert_eq!(b.fat_size_32, 0x2827_2625);
    assert_eq!(b.ext_flags, 0x2A29);
    assert_eq!(b.fs_version, 0x2C2B);
    assert_eq!(b.root_cluster, 0x302F_2E2D);
    assert_eq!(b.fs_info, 0x3231);
    assert_eq!(b.backup_boot_sector, 0x3433);
    assert_eq!(b.reserved, [53, 54, 55, 56, 57, 58, 59, 60, 61, 62, 63, 64]);
    assert_eq!(b.drive_number, 65);
    assert_eq!(b.reserved1, 66);
    assert_eq!(b.boot_signature, 67);
    assert_eq!(b.vol_id, 0x4746_4544);
    assert_eq!(b.vol_label, [72, 73, 74, 75, 76, 77, 78, 79, 80, 81, 82]);
    assert_eq!(b.fs_type, [83, 84, 85, 86, 87, 88, 89, 90]);
}

#[test]
fn bpb_accepte_le_minimum_d_octets() {
    let s = secteur_de_boot();
    let b = BiosParameterBlock::depuis_octets(&s[..TAILLE_BPB]);
    assert_eq!(b.fs_type, [83, 84, 85, 86, 87, 88, 89, 90]);
    assert_eq!(TAILLE_BPB, 90);
}

#[test]
fn bpb_sans_signature_est_decode_tel_quel() {
    let s = [0xFFu8; 512];
    let b = BiosParameterBlock::depuis_octets(&s);
    assert_eq!(b.bytes_per_sector, 0xFFFF);
    assert_eq!(b.sectors_per_cluster, 0xFF);
    assert_eq!(b.fat_size_32, 0xFFFF_FFFF);
    assert_eq!(b.root_cluster, 0xFFFF_FFFF);
}

#[test]
fn regions_calculees_depuis_le_bpb() {
    let mut s = [0u8; 512];
    s[11] = 0x00;
    s[12] = 0x02;
    s[13] = 1;
    s[14] = 32;
    s[16] = 2;
    s[36] = 2;
    s[44] = 2;
    let b = BiosParameterBlock::depuis_octets(&s);
    assert_eq!(b.bytes_per_sector, 512);
    assert_eq!(b.debut_fat(), 32);
    assert_eq!(b.debut_donnees(), 36);
    assert_eq!(b.root_cluster, 2);
}

#[test]
fn regions_aux_valeurs_extremes() {
    let s = [0xFFu8; 512];
    let b = BiosParameterBlock::depuis_octets(&s);
    assert_eq!(b.debut_fat(), 65535);
    assert_eq!(b.debut_donnees(), 65535 + 255 * 4_294_967_295u64);
    let z = BiosParameterBlock::depuis_octets(&[0u8; 512]);
    assert_eq!(z.debut_fat(), 0);
    assert_eq!(z.debut_donnees(), 0);
}

fn entree_brute() -> [u8; 32] {
    let mut e = [0u8; 32];
    for i in 0..32 {
        e[i] = 0x41 + i as u8;
    }
    e
}

#[test]
fn entree_decode_chaque_champ_a_son_decalage() {
    let brut = entree_brute();
    let e = DirEntry::depuis_octets(&brut);
    assert_eq!(&e.name, b"ABCDEFGH");
    assert_eq!(&e.ext, b"IJK");
    assert_eq!(e.attributes, 0x4C);
    assert_eq!(e.reserved, 0x4D);
    assert_eq!(e.create_time_tenth, 0x4E);
    assert_eq!(e.create_time, 0x504F);
    assert_eq!(e.create_date, 0x5251);
    assert_eq!(e.last_access_date, 0x5453);
    assert_eq!(e.cluster_high, 0x5655);
    assert_eq!(e.write_time, 0x5857);
    assert_eq!(e.write_date, 0x5A59);
    assert_eq!(e.cluster_low, 0x5C5B);
    assert_eq!(e.file_size, 0x605F_5E5D);
    assert_eq!(e.premier_cluster(), 0x5655_5C5B);
    assert_eq!(TAILLE_ENTREE, 32);
}

#[test]
fn premier_cluster_assemble_les_deux_moities() {
    let mut brut = [0u8; 32];
    brut[20] = 0x01;
    brut[26] = 0x02;
    assert_eq!(DirEntry::depuis_octets(&brut).premier_cluster(), 0x0001_0002);
    brut[20] = 0xFF;
    brut[21] = 0xFF;
    brut[26] = 0xFF;
    brut[27] = 0xFF;
    assert_eq!(DirEntry::depuis_octets(&brut).premier_cluster(), 0xFFFF_FFFF);
    let vide = [0u8; 32];
    assert_eq!(DirEntry::depuis_octets(&vide).premier_cluster(), 0);
}

#[test]
fn attribut_de_dossier() {
    let mut brut = [0x20u8; 32];
    brut[11] = 0x10;
    assert!(DirEntry::depuis_octets(&brut).est_dossier());
    brut[11] = 0x30;
    assert!(DirEntry::depuis_octets(&brut).est_dossier());
    brut[11] = 0x20;
    assert!(!DirEntry::depuis_octets(&brut).est_dossier());
    brut[11] = 0x0F;
    assert!(!DirEntry::depuis_octets(&brut).est_dossier());
    brut[11] = 0xFF;
    assert!(DirEntry::depuis_octets(&brut).est_dossier());
}

#[test]
fn noms_d_une_entree() {
    let mut brut = [0u8; 32];
    brut[..11].copy_from_slice(b"BONJOUR TXT");
    brut[11] = 0x20;
    let e = DirEntry::depuis_octets(&brut);
    assert_eq!(e.nom(), "BONJOUR");
    assert_eq!(e.extension(), "TXT");
    assert_eq!(e.nom_complet(), "BONJOUR.TXT");
    assert_eq!(e.ligne(), "      BONJOUR.TXT");

    brut[..11].copy_from_slice(b"DOCS       ");
    brut[11] = 0x10;
    let d = DirEntry::depuis_octets(&brut);
    assert_eq!(d.nom(), "DOCS");
    assert_eq!(d.extension(), "");
    assert_eq!(d.nom_complet(), "DOCS");
    assert_eq!(d.ligne(), "<DOS> DOCS");
}

#[test]
fn position_dans_la_table() {
    assert_eq!(secteur_relatif(0), 0);
    assert_eq!(secteur_relatif(127), 0);
    assert_eq!(secteur_relatif(128), 1);
    assert_eq!(secteur_relatif(3), 0);
    assert_eq!(secteur_relatif(0x4000_0000), 0x80_0000);
    assert_eq!(secteur_relatif(0xFFFF_FFFF), 0x1FF_FFFF);
}

#[test]
fn entree_de_la_table_masquee_a_28_bits() {
    let mut table = [0u8; 512];
    table[12] = 0xFF;
    table[13] = 0xFF;
    table[14] = 0xFF;
    table[15] = 0xFF;
    assert_eq!(entree_fat(&table, 3), 0x0FFF_FFFF);
    table[16] = 0x78;
    table[17] = 0x56;
    table[18] = 0x34;
    table[19] = 0xF2;
    assert_eq!(entree_fat(&table, 4), 0x0234_5678);
    assert_eq!(entree_fat(&table, 4 + 128), 0x0234_5678);
    assert_eq!(entree_fat(&table, 5), 0);
    table[508] = 0x05;
    assert_eq!(entree_fat(&table, 127), 5);
    assert_eq!(entree_fat(&table, 0xFFFF_FFFF), 5);
    assert_eq!(TAILLE_SECTEUR, 512);
}

#[test]
fn marqueur_de_fin_de_chaine() {
    assert!(!est_fin_de_chaine(0));
    assert!(!est_fin_de_chaine(0x0FFF_FFF7));
    assert!(est_fin_de_chaine(0x0FFF_FFF8));
    assert!(est_fin_de_chaine(0x0FFF_FFFF));
    assert_eq!(FIN_DE_CHAINE, 0x0FFF_FFF8);
}
