//! Scan of one directory sector.
//!
//! A sector is cut into consecutive 32-byte records. The scan stops at the
//! first record whose name starts with `0x00`; before that it passes over
//! deleted records, long-name records and records whose name is blank, and
//! keeps the others in the order in which they lie on disk.

use vstd::prelude::*;
use vstd::slice::slice_subrange;
use crate::structs::{DirEntry, ATTR_DOSSIER, ATTR_NOM_LONG, MARQUE_FIN, MARQUE_SUPPRIME, TAILLE_ENTREE};
use crate::texte::{spec_ligne, spec_nom_complet, spec_texte_champ};

verus! {

/// Number of whole records in a buffer.
pub open spec fn nombre_enregistrements(s: Seq<u8>) -> int {
    s.len() as int / (TAILLE_ENTREE as int)
}

/// Bytes of record `i`.
pub open spec fn enregistrement(s: Seq<u8>, i: int) -> Seq<u8> {
    s.subrange(TAILLE_ENTREE * i, TAILLE_ENTREE * i + TAILLE_ENTREE)
}

/// The record ends the directory.
pub open spec fn termine(r: Seq<u8>) -> bool {
    r[0] == MARQUE_FIN
}

/// The record is a deleted entry.
pub open spec fn supprime(r: Seq<u8>) -> bool {
    r[0] == MARQUE_SUPPRIME
}

/// The record is a long-name continuation.
pub open spec fn nom_long(r: Seq<u8>) -> bool {
    r[11] == ATTR_NOM_LONG
}

/// Text of the record's name field.
pub open spec fn nom_de(r: Seq<u8>) -> Seq<char> {
    spec_texte_champ(r.subrange(0, 8))
}

/// Text of the record's extension field.
pub open spec fn extension_de(r: Seq<u8>) -> Seq<char> {
    spec_texte_champ(r.subrange(8, 11))
}

/// Composed `name.ext` of the record.
pub open spec fn complet_de(r: Seq<u8>) -> Seq<char> {
    spec_nom_complet(nom_de(r), extension_de(r))
}

/// Line that lists the record.
pub open spec fn ligne_de(r: Seq<u8>) -> Seq<char> {
    spec_ligne(r[11] & ATTR_DOSSIER != 0, complet_de(r))
}

/// The scan reaches record `i`: it lies in the buffer and neither it nor any
/// record before it ends the directory.
pub open spec fn atteint(s: Seq<u8>, i: int) -> bool {
    &&& 0 <= i < nombre_enregistrements(s)
    &&& forall|j: int| 0 <= j <= i ==> !termine(#[trigger] enregistrement(s, j))
}

/// The scan keeps record `i`: it is reached, neither deleted nor a long-name
/// record, and its name is not blank.
pub open spec fn retenu(s: Seq<u8>, i: int) -> bool {
    &&& atteint(s, i)
    &&& !supprime(enregistrement(s, i))
    &&& !nom_long(enregistrement(s, i))
    &&& nom_de(enregistrement(s, i)).len() > 0
}

/// Positions of the records kept among the first `k`, in disk order.
pub open spec fn retenus_avant(s: Seq<u8>, k: int) -> Seq<int> {
    Seq::new(k as nat, |i: int| i).filter(|i: int| retenu(s, i))
}

/// Positions of the records that the scan of `s` keeps, in disk order.
pub open spec fn retenus(s: Seq<u8>) -> Seq<int> {
    retenus_avant(s, nombre_enregistrements(s))
}

/// Lines of the listing of `s`: one per kept record, in disk order.
pub open spec fn lignes(s: Seq<u8>) -> Seq<Seq<char>> {
    retenus(s).map_values(|i: int| ligne_de(enregistrement(s, i)))
}

/// Record `i` is kept and its composed name is exactly `cible`.
pub open spec fn correspond(s: Seq<u8>, cible: Seq<char>, i: int) -> bool {
    retenu(s, i) && complet_de(enregistrement(s, i)) == cible
}

/// Record `i` is the first one that is kept and named `cible`.
pub open spec fn premier_correspondant(s: Seq<u8>, cible: Seq<char>, i: int) -> bool {
    &&& correspond(s, cible, i)
    &&& forall|j: int| 0 <= j < i ==> !correspond(s, cible, j)
}

/// No record of `s` is kept and named `cible`.
pub open spec fn aucun_correspondant(s: Seq<u8>, cible: Seq<char>) -> bool {
    forall|i: int| !correspond(s, cible, i)
}

/// `trouve` is what a lookup of `cible` in `s` yields: the decoded first
/// match, or nothing when no kept record bears that name.
pub open spec fn resultat_recherche(s: Seq<u8>, cible: Seq<char>, trouve: Option<DirEntry>) -> bool {
    match trouve {
        Some(e) => exists|i: int| #[trigger]
            premier_correspondant(s, cible, i) && e.decode_de(enregistrement(s, i)),
        None => aucun_correspondant(s, cible),
    }
}

proof fn lemme_retenus_pas(s: Seq<u8>, k: int)
    requires
        0 <= k,
    ensures
        retenus_avant(s, k + 1) == if retenu(s, k) {
            retenus_avant(s, k).push(k)
        } else {
            retenus_avant(s, k)
        },
{
    let tous: Seq<int> = Seq::new((k + 1) as nat, |i: int| i);
    assert(tous.drop_last() =~= Seq::new(k as nat, |i: int| i));
    assert(tous.last() == k);
    reveal(Seq::filter);
}

proof fn lemme_retenus_apres_fin(s: Seq<u8>, fin: int, k: int)
    requires
        0 <= fin <= k,
        fin < nombre_enregistrements(s) ==> termine(enregistrement(s, fin)),
    ensures
        retenus_avant(s, k) == retenus_avant(s, fin),
    decreases k - fin,
{
    if k > fin {
        lemme_retenus_apres_fin(s, fin, k - 1);
        lemme_retenus_pas(s, k - 1);
    }
}

proof fn lemme_retenus_contenu(s: Seq<u8>, k: int, i: int)
    requires
        0 <= k,
    ensures
        retenus_avant(s, k).contains(i) <==> 0 <= i < k && retenu(s, i),
        forall|a: int, b: int|
            0 <= a < b < retenus_avant(s, k).len() ==> retenus_avant(s, k)[a] < retenus_avant(
                s,
                k,
            )[b],
        forall|a: int| 0 <= a < retenus_avant(s, k).len() ==> 0 <= #[trigger] retenus_avant(s, k)[a] < k,
    decreases k,
{
    if k == 0 {
        reveal(Seq::filter);
        assert(retenus_avant(s, 0) =~= Seq::<int>::empty());
    } else {
        lemme_retenus_contenu(s, k - 1, i);
        lemme_retenus_pas(s, k - 1);
        let avant: Seq<int> = retenus_avant(s, k - 1);
        if retenu(s, k - 1) {
            let tout: Seq<int> = avant.push(k - 1);
            assert(tout.last() == k - 1);
            if avant.contains(i) {
                let a: int = choose|a: int| 0 <= a < avant.len() && avant[a] == i;
                assert(tout[a] == i);
            }
            if i == k - 1 {
                assert(tout[tout.len() - 1] == i);
            }
        }
    }
}

/// The kept positions are exactly the positions of the records that the scan
/// keeps, each once and in disk order.
pub proof fn loi_entrees_gardees(s: Seq<u8>)
    ensures
        forall|i: int| retenus(s).contains(i) <==> retenu(s, i),
        forall|a: int, b: int| 0 <= a < b < retenus(s).len() ==> retenus(s)[a] < retenus(s)[b],
{
    let n: int = nombre_enregistrements(s);
    assert forall|i: int| retenus(s).contains(i) <==> retenu(s, i) by {
        lemme_retenus_contenu(s, n, i);
    }
    lemme_retenus_contenu(s, n, 0);
}

/// Number of records that the scan of `s` keeps.
pub open spec fn nombre_retenus(s: Seq<u8>) -> nat {
    Set::new(|i: int| retenu(s, i)).len()
}

/// The listing has as many lines as there are records that lie before the
/// first end-of-directory record and are neither deleted, nor long-name
/// records, nor blank-named.
pub proof fn loi_nombre_de_lignes(s: Seq<u8>)
    ensures
        lignes(s).len() == nombre_retenus(s),
        retenus(s).len() == nombre_retenus(s),
{
    loi_entrees_gardees(s);
    assert(retenus(s).no_duplicates());
    assert(retenus(s).to_set() =~= Set::new(|i: int| retenu(s, i)));
    retenus(s).unique_seq_to_set();
}

/// A record whose name starts with `0x00` ends the scan: neither it nor any
/// record after it is kept, whatever it holds.
pub proof fn loi_fin_de_repertoire(s: Seq<u8>, fin: int, i: int)
    requires
        0 <= fin <= i,
        termine(enregistrement(s, fin)),
    ensures
        !retenu(s, i),
        !retenus(s).contains(i),
        retenus(s) == retenus_avant(s, fin),
{
    loi_entrees_gardees(s);
    let n: int = nombre_enregistrements(s);
    if fin <= n {
        lemme_retenus_apres_fin(s, fin, n);
    } else {
        lemme_retenus_apres_fin(s, n, fin);
    }
}

/// A deleted record, and a long-name record that does not itself end the
/// directory, is never kept and does not end the scan: whether a later
/// record is kept is decided by that record and by where the other records
/// end the directory.
pub proof fn loi_enregistrements_ignores(s: Seq<u8>, i: int, j: int)
    requires
        0 <= i < j,
        supprime(enregistrement(s, i)) || (nom_long(enregistrement(s, i)) && !termine(
            enregistrement(s, i),
        )),
    ensures
        !retenu(s, i),
        !retenus(s).contains(i),
        retenu(s, j) <==> {
            &&& j < nombre_enregistrements(s)
            &&& forall|k: int| 0 <= k <= j && k != i ==> !termine(#[trigger] enregistrement(s, k))
            &&& !supprime(enregistrement(s, j))
            &&& !nom_long(enregistrement(s, j))
            &&& nom_de(enregistrement(s, j)).len() > 0
        },
{
    loi_entrees_gardees(s);
}

/// A lookup yields only an entry whose composed name is `cible`, character
/// for character: the bare name when the entry has no extension, else the
/// name, a dot and the extension.
pub proof fn loi_recherche_exacte(s: Seq<u8>, cible: Seq<char>, e: DirEntry)
    requires
        resultat_recherche(s, cible, Some(e)),
    ensures
        e.spec_nom_complet() == cible,
        e.spec_nom().len() > 0,
        e.spec_extension().len() == 0 ==> cible == e.spec_nom(),
        e.spec_extension().len() > 0 ==> cible == e.spec_nom() + seq!['.'] + e.spec_extension(),
{
}

/// Decodes the records that the scan of `secteur` keeps, in disk order.
pub fn entrees_du_secteur(secteur: &[u8]) -> (entrees: Vec<DirEntry>)
    ensures
        entrees@.len() == retenus(secteur@).len(),
        forall|k: int|
            0 <= k < entrees@.len() ==> (#[trigger] entrees@[k]).decode_de(
                enregistrement(secteur@, retenus(secteur@)[k]),
            ),
{
    let n: usize = secteur.len() / TAILLE_ENTREE;
    let mut entrees: Vec<DirEntry> = Vec::new();
    let mut i: usize = 0;
    proof {
        lemme_retenus_contenu(secteur@, 0, 0);
    }
    while i < n
        invariant
            i <= n,
            TAILLE_ENTREE * n <= secteur.len(),
            n == nombre_enregistrements(secteur@),
            forall|j: int| 0 <= j < i ==> !termine(#[trigger] enregistrement(secteur@, j)),
            entrees@.len() == retenus_avant(secteur@, i as int).len(),
            forall|k: int|
                0 <= k < entrees@.len() ==> (#[trigger] entrees@[k]).decode_de(
                    enregistrement(secteur@, retenus_avant(secteur@, i as int)[k]),
                ),
        decreases n - i,
    {
        let brut: &[u8] = slice_subrange(secteur, i * TAILLE_ENTREE, i * TAILLE_ENTREE + TAILLE_ENTREE);
        let e: DirEntry = DirEntry::depuis_octets(brut);
        proof {
            lemme_retenus_pas(secteur@, i as int);
        }
        if e.name[0] == MARQUE_FIN {
            proof {
                lemme_retenus_apres_fin(secteur@, i as int, n as int);
            }
            return entrees;
        }
        if e.name[0] != MARQUE_SUPPRIME && e.attributes != ATTR_NOM_LONG {
            let nom: String = e.nom();
            if !nom.as_str().is_empty() {
                entrees.push(e);
            }
        }
        i += 1;
    }
    entrees
}

/// Lists a directory sector: one line per kept record, in disk order.
pub fn lister_secteur(secteur: &[u8]) -> (liste: Vec<String>)
    ensures
        liste.deep_view() == lignes(secteur@),
        liste@.len() == nombre_retenus(secteur@),
{
    let entrees: Vec<DirEntry> = entrees_du_secteur(secteur);
    let mut liste: Vec<String> = Vec::new();
    let mut k: usize = 0;
    while k < entrees.len()
        invariant
            k <= entrees@.len(),
            liste@.len() == k,
            entrees@.len() == retenus(secteur@).len(),
            forall|a: int|
                0 <= a < entrees@.len() ==> (#[trigger] entrees@[a]).decode_de(
                    enregistrement(secteur@, retenus(secteur@)[a]),
                ),
            forall|a: int| 0 <= a < k ==> (#[trigger] liste@[a])@ == lignes(secteur@)[a],
        decreases entrees@.len() - k,
    {
        let texte: String = entrees[k].ligne();
        liste.push(texte);
        k += 1;
    }
    proof {
        loi_nombre_de_lignes(secteur@);
        assert(liste.deep_view() =~= lignes(secteur@));
    }
    liste
}

/// Looks `cible` up in a directory sector: the first kept record whose
/// composed name is exactly `cible`, compared character by character.
pub fn chercher_dans_secteur(secteur: &[u8], cible: &str) -> (trouve: Option<DirEntry>)
    ensures
        resultat_recherche(secteur@, cible@, trouve),
{
    let entrees: Vec<DirEntry> = entrees_du_secteur(secteur);
    let voulu: String = cible.to_owned();
    let mut k: usize = 0;
    proof {
        loi_entrees_gardees(secteur@);
    }
    while k < entrees.len()
        invariant
            k <= entrees@.len(),
            voulu@ == cible@,
            entrees@.len() == retenus(secteur@).len(),
            forall|a: int|
                0 <= a < entrees@.len() ==> (#[trigger] entrees@[a]).decode_de(
                    enregistrement(secteur@, retenus(secteur@)[a]),
                ),
            forall|a: int|
                0 <= a < k ==> complet_de(enregistrement(secteur@, #[trigger] retenus(secteur@)[a]))
                    != cible@,
            forall|i: int| retenus(secteur@).contains(i) <==> retenu(secteur@, i),
            forall|a: int, b: int|
                0 <= a < b < retenus(secteur@).len() ==> retenus(secteur@)[a] < retenus(
                    secteur@,
                )[b],
        decreases entrees@.len() - k,
    {
        let e: DirEntry = entrees[k];
        let complet: String = e.nom_complet();
        if complet == voulu {
            proof {
                let i: int = retenus(secteur@)[k as int];
                assert(retenus(secteur@).contains(i));
                assert forall|j: int| 0 <= j < i implies !correspond(secteur@, cible@, j) by {
                    if retenu(secteur@, j) {
                        assert(retenus(secteur@).contains(j));
                        let a: int = choose|a: int|
                            0 <= a < retenus(secteur@).len() && retenus(secteur@)[a] == j;
                        assert(a < k);
                    }
                }
                assert(premier_correspondant(secteur@, cible@, i));
            }
            return Some(e);
        }
        k += 1;
    }
    proof {
        assert forall|i: int| !correspond(secteur@, cible@, i) by {
            if retenu(secteur@, i) {
                assert(retenus(secteur@).contains(i));
                let a: int = choose|a: int|
                    0 <= a < retenus(secteur@).len() && retenus(secteur@)[a] == i;
            }
        }
    }
    None
}

} // verus!
