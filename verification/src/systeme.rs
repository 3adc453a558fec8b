//! The filesystem session: a mounted FAT32 volume and its current directory.
//!
//! Every operation reads the device anew, and what it returns depends on what
//! those reads give. So each operation `f` comes with a predicate `issue_f`
//! that holds of a result exactly when some outcome of the reads that `f`
//! makes, each one possible by the device's own `Disque::issue`, leads to that
//! result. The predicates say which sectors are read, what is returned for
//! each outcome, and which error comes when.

use vstd::prelude::*;
use crate::disque::{Disque, Lecture};
use crate::fat::{entree_fat, secteur_relatif, spec_entree_fat, spec_secteur_relatif, FIN_DE_CHAINE, TAILLE_SECTEUR};
use crate::repertoire::{chercher_dans_secteur, lignes, lister_secteur, resultat_recherche};
use crate::structs::{BiosParameterBlock, DirEntry};
use crate::texte::{contenu_de, texte_fichier};

verus! {

/// Error of a lookup that found no entry of the given name.
pub const INTROUVABLE: &'static str = "Introuvable";

/// Error of a change of directory whose target is a file.
pub const PAS_UN_DOSSIER: &'static str = "Pas un dossier";

/// Error of a file read whose target is a directory.
pub const EST_UN_DOSSIER: &'static str = "Est un dossier";

/// Error of a file read whose cluster chain does not end.
pub const CHAINE_SANS_FIN: &'static str = "Chaine de clusters sans fin";

/// Number of links that a file read follows before it gives the chain up as
/// endless. A link leads on only to a cluster below `FIN_DE_CHAINE`, so a
/// chain with more links than this goes through some cluster twice.
pub const LIMITE_CHAINE: u32 = 0x0FFF_FFF8;

/// What a chain gathers when `debut` was read first and the rest of the
/// chain gathers `reste`.
pub open spec fn a_la_suite(debut: Seq<u8>, reste: Lecture) -> Lecture {
    match reste {
        Ok(fin) => Ok(debut + fin),
        Err(e) => Err(e),
    }
}

/// A mounted volume: the device, its geometry, the first sectors of its table
/// and of its data, and the current directory.
pub struct SystemeFichier<D: Disque> {
    disque: D,
    bpb: BiosParameterBlock,
    /// First sector of the file allocation table, as computed from the boot
    /// sector when the volume was mounted. The driver never changes it.
    pub debut_fat: u64,
    /// First sector of the data region, as computed from the boot sector
    /// when the volume was mounted. The driver never changes it.
    pub debut_donnees: u64,
    cluster_courant: u32,
}

impl<D: Disque> SystemeFichier<D> {
    /// The device.
    pub closed spec fn spec_disque(&self) -> &D {
        &self.disque
    }

    /// The geometry decoded when the volume was mounted.
    pub closed spec fn spec_bpb(&self) -> BiosParameterBlock {
        self.bpb
    }

    /// First sector of the file allocation table.
    pub closed spec fn spec_debut_fat(&self) -> u64 {
        self.debut_fat
    }

    /// First sector of the data region.
    pub closed spec fn spec_debut_donnees(&self) -> u64 {
        self.debut_donnees
    }

    /// First cluster of the current directory.
    pub closed spec fn spec_cluster_courant(&self) -> u32 {
        self.cluster_courant
    }

    /// Every sector that a 32-bit cluster number can lead to has a 64-bit
    /// number: the last sector of the table that holds an entry, and the
    /// sector of the last cluster at 255 sectors per cluster.
    pub open spec fn bien_forme(&self) -> bool {
        &&& self.spec_debut_fat() + 0x1FF_FFFF <= u64::MAX
        &&& self.spec_debut_donnees() + 0xFFFF_FFFF * 0xFF <= u64::MAX
    }

    /// First sector of `cluster`. Clusters are numbered from 2; a lower
    /// number is taken for 2.
    pub open spec fn spec_cluster_vers_secteur(&self, cluster: u32) -> int {
        self.spec_debut_donnees() + (if cluster >= 2 {
            cluster - 2
        } else {
            0
        }) * self.spec_bpb().sectors_per_cluster
    }

    /// Sector of the current directory: the first of its first cluster.
    pub open spec fn secteur_courant(&self) -> int {
        self.spec_cluster_vers_secteur(self.spec_cluster_courant())
    }

    /// Sector of the table that holds the entry of `cluster`.
    pub open spec fn secteur_fat(&self, cluster: u32) -> int {
        self.spec_debut_fat() + spec_secteur_relatif(cluster)
    }

    /// A read of sector `secteur` of the device, into a buffer of the size
    /// of a sector, may end in `lu`.
    pub open spec fn issue_secteur(&self, secteur: int, lu: Lecture) -> bool {
        &&& self.spec_disque().issue(secteur as u64, lu)
        &&& lu matches Ok(s) ==> s.len() == TAILLE_SECTEUR
    }

    /// `r` is what mounting `disque` returns for some outcome of the read of
    /// sector 0: a session on that device, with the geometry decoded from the
    /// sector, the two region starts computed from it and the root directory
    /// as current directory; or the device's error.
    pub open spec fn issue_montage(disque: D, r: Result<Self, &'static str>) -> bool {
        exists|lu: Lecture| #[trigger]
            disque.issue(0, lu) && match lu {
                Ok(s) => {
                    &&& s.len() == TAILLE_SECTEUR
                    &&& r matches Ok(fs)
                    &&& *fs.spec_disque() == disque
                    &&& fs.spec_bpb().decode_de(s)
                    &&& fs.spec_debut_fat() == fs.spec_bpb().spec_debut_fat()
                    &&& fs.spec_debut_donnees() == fs.spec_bpb().spec_debut_donnees()
                    &&& fs.spec_cluster_courant() == fs.spec_bpb().root_cluster
                    &&& fs.bien_forme()
                },
                Err(e) => r matches Err(x) && x == e,
            }
    }

    /// `r` is what a listing returns for some outcome of the read of the
    /// current directory's sector: the lines of that sector, or the device's
    /// error.
    pub open spec fn issue_liste(&self, r: Result<Seq<Seq<char>>, &'static str>) -> bool {
        exists|lu: Lecture| #[trigger]
            self.issue_secteur(self.secteur_courant(), lu) && r == match lu {
                Ok(s) => Ok::<Seq<Seq<char>>, &'static str>(lignes(s)),
                Err(e) => Err(e),
            }
    }

    /// `r` is what a lookup of `cible` returns for some outcome of the read
    /// of the current directory's sector: the first entry of that name,
    /// `INTROUVABLE` when the sector holds none, or the device's error.
    pub open spec fn issue_recherche(&self, cible: Seq<char>, r: Result<DirEntry, &'static str>) -> bool {
        exists|lu: Lecture| #[trigger]
            self.issue_secteur(self.secteur_courant(), lu) && match lu {
                Ok(s) => match r {
                    Ok(e) => resultat_recherche(s, cible, Some(e)),
                    Err(x) => x == INTROUVABLE && resultat_recherche(s, cible, None),
                },
                Err(e) => r == Err::<DirEntry, &'static str>(e),
            }
    }

    /// `r` is what a change of directory to `nom` returns, and `apres` the
    /// current directory that it leaves, for some outcome of the lookup: the
    /// entry's first cluster when the entry is a directory; else an error,
    /// and the current directory as it was.
    pub open spec fn issue_changement(&self, nom: Seq<char>, apres: u32, r: Result<(), &'static str>) -> bool {
        exists|trouve: Result<DirEntry, &'static str>| #[trigger]
            self.issue_recherche(nom, trouve) && match trouve {
                Ok(e) => if e.spec_est_dossier() {
                    r == Ok::<(), &'static str>(()) && apres == e.spec_premier_cluster()
                } else {
                    r == Err::<(), &'static str>(PAS_UN_DOSSIER) && apres
                        == self.spec_cluster_courant()
                },
                Err(e) => r == Err::<(), &'static str>(e) && apres == self.spec_cluster_courant(),
            }
    }

    /// `r` is what the table gives as successor of `cluster` for some outcome
    /// of the read of the sector that holds its entry.
    pub open spec fn issue_suivant(&self, cluster: u32, r: Result<u32, &'static str>) -> bool {
        exists|lu: Lecture| #[trigger]
            self.issue_secteur(self.secteur_fat(cluster), lu) && r == match lu {
                Ok(t) => Ok::<u32, &'static str>(spec_entree_fat(t, cluster) as u32),
                Err(e) => Err(e),
            }
    }

    /// `r` is what following the chain from `cluster` gathers, when at most
    /// `pas` links are followed, for some outcomes of the reads it makes. The
    /// first sector of the cluster is read, then its successor. Where the
    /// successor ends the chain, that sector is all; else it is followed by
    /// what the chain gathers from the successor on. The first error of the
    /// device ends the walk, and so does a successor that leads on when no
    /// link is left, with `CHAINE_SANS_FIN`.
    pub open spec fn issue_chaine(&self, cluster: u32, pas: nat, r: Lecture) -> bool
        decreases pas,
    {
        exists|donnees: Lecture| #[trigger]
            self.issue_secteur(self.spec_cluster_vers_secteur(cluster), donnees) && match donnees {
                Ok(d) => exists|suite: Result<u32, &'static str>| #[trigger]
                    self.issue_suivant(cluster, suite) && match suite {
                        Ok(suivant) => if suivant >= FIN_DE_CHAINE {
                            r == Ok::<Seq<u8>, &'static str>(d)
                        } else if pas == 0 {
                            r == Err::<Seq<u8>, &'static str>(CHAINE_SANS_FIN)
                        } else {
                            exists|reste: Lecture|
                                self.issue_chaine(suivant, (pas - 1) as nat, reste) && r
                                    == #[trigger] a_la_suite(d, reste)
                        },
                        Err(e) => r == Err::<Seq<u8>, &'static str>(e),
                    },
                Err(e) => r == Err::<Seq<u8>, &'static str>(e),
            }
    }

    /// `r` is what reading the content of the file of entry `e` returns for
    /// some outcome of the walk along its chain: the text of what the chain
    /// holds, cut to the recorded size, or the walk's error.
    pub open spec fn issue_contenu(&self, e: DirEntry, r: Result<Seq<char>, &'static str>) -> bool {
        exists|chaine: Lecture| #[trigger]
            self.issue_chaine(e.spec_premier_cluster(), LIMITE_CHAINE as nat, chaine)
                && match chaine {
                Ok(octets) => r matches Ok(texte) && contenu_de(octets, e.file_size, texte),
                Err(x) => r == Err::<Seq<char>, &'static str>(x),
            }
    }

    /// `r` is what a file read of `nom` returns for some outcomes of the
    /// reads it makes: the lookup's error; `EST_UN_DOSSIER` when the entry is
    /// a directory; else what reading the entry's content returns.
    pub open spec fn issue_lecture(&self, nom: Seq<char>, r: Result<Seq<char>, &'static str>) -> bool {
        exists|trouve: Result<DirEntry, &'static str>| #[trigger]
            self.issue_recherche(nom, trouve) && match trouve {
                Ok(e) => if e.spec_est_dossier() {
                    r == Err::<Seq<char>, &'static str>(EST_UN_DOSSIER)
                } else {
                    self.issue_contenu(e, r)
                },
                Err(e) => r == Err::<Seq<char>, &'static str>(e),
            }
    }

    /// A chain that is read to its end gathers whole sectors: one at least,
    /// and one more at most for each link followed.
    pub proof fn loi_longueur_de_chaine(&self, cluster: u32, pas: nat, octets: Seq<u8>)
        requires
            self.issue_chaine(cluster, pas, Ok(octets)),
        ensures
            octets.len() % TAILLE_SECTEUR as nat == 0,
            TAILLE_SECTEUR <= octets.len() <= TAILLE_SECTEUR * (pas + 1),
        decreases pas,
    {
        if pas > 0 {
            assert forall|debut: Seq<u8>, suivant: u32, reste: Lecture|
                Ok::<Seq<u8>, &'static str>(octets) == #[trigger] a_la_suite(debut, reste)
                    && #[trigger] self.issue_suivant(cluster, Ok(suivant)) && self.issue_chaine(
                    suivant,
                    (pas - 1) as nat,
                    reste,
                ) implies {
                &&& reste->Ok_0.len() % TAILLE_SECTEUR as nat == 0
                &&& TAILLE_SECTEUR <= reste->Ok_0.len() <= TAILLE_SECTEUR * pas
            } by {
                self.loi_longueur_de_chaine(suivant, (pas - 1) as nat, reste->Ok_0);
            }
        }
    }

    /// Mounts the volume on `disque`: reads sector 0, decodes the BIOS
    /// Parameter Block from it, computes where the table and the data start,
    /// and begins in the root directory. Fails only when the read does.
    pub fn initialiser(disque: D) -> (r: Result<Self, &'static str>)
        ensures
            Self::issue_montage(disque, r),
    {
        let mut tampon: [u8; TAILLE_SECTEUR] = [0u8; TAILLE_SECTEUR];
        match disque.lire_secteur(0, &mut tampon) {
            Ok(_) => {
                assert(disque.issue(0, Ok(tampon@)));
                let bpb: BiosParameterBlock = BiosParameterBlock::depuis_octets(tampon.as_slice());
                let debut_fat: u64 = bpb.debut_fat();
                let debut_donnees: u64 = bpb.debut_donnees();
                Ok(SystemeFichier { disque, bpb, debut_fat, debut_donnees, cluster_courant: bpb.root_cluster })
            },
            Err(e) => {
                assert(disque.issue(0, Err(e)));
                Err(e)
            },
        }
    }

    /// The device.
    pub fn disque(&self) -> (disque: &D)
        ensures
            disque == self.spec_disque(),
    {
        &self.disque
    }

    /// The geometry decoded when the volume was mounted.
    #[verifier::when_used_as_spec(spec_bpb)]
    pub fn bpb(&self) -> (bpb: BiosParameterBlock)
        ensures
            bpb == self.spec_bpb(),
    {
        self.bpb
    }

    /// First cluster of the current directory.
    #[verifier::when_used_as_spec(spec_cluster_courant)]
    pub fn cluster_courant(&self) -> (cluster: u32)
        ensures
            cluster == self.spec_cluster_courant(),
    {
        self.cluster_courant
    }

    /// First sector of `cluster`.
    pub fn cluster_vers_secteur(&self, cluster: u32) -> (secteur: u64)
        requires
            self.bien_forme(),
        ensures
            secteur == self.spec_cluster_vers_secteur(cluster),
    {
        let effectif: u64 = cluster.saturating_sub(2) as u64;
        let par_cluster: u64 = self.bpb.sectors_per_cluster as u64;
        assert(effectif * par_cluster <= 0xFFFF_FFFF * 0xFF) by (nonlinear_arith)
            requires
                effectif <= 0xFFFF_FFFF,
                par_cluster <= 0xFF,
        ;
        self.debut_donnees + effectif * par_cluster
    }

    /// Reads one sector of the device into a fresh buffer.
    fn lire(&self, secteur: u64) -> (r: Result<[u8; TAILLE_SECTEUR], &'static str>)
        ensures
            self.issue_secteur(
                secteur as int,
                match r {
                    Ok(tampon) => Ok(tampon@),
                    Err(e) => Err(e),
                },
            ),
    {
        let mut tampon: [u8; TAILLE_SECTEUR] = [0u8; TAILLE_SECTEUR];
        match self.disque.lire_secteur(secteur, &mut tampon) {
            Ok(_) => Ok(tampon),
            Err(e) => Err(e),
        }
    }

    /// Lists the current directory: one line per entry kept by the scan of
    /// its first sector. Fails only when the device does.
    pub fn lister_repertoire(&self) -> (r: Result<Vec<String>, &'static str>)
        requires
            self.bien_forme(),
        ensures
            self.issue_liste(
                match r {
                    Ok(liste) => Ok(liste.deep_view()),
                    Err(e) => Err(e),
                },
            ),
    {
        let secteur: u64 = self.cluster_vers_secteur(self.cluster_courant);
        match self.lire(secteur) {
            Ok(tampon) => {
                assert(self.issue_secteur(self.secteur_courant(), Ok(tampon@)));
                Ok(lister_secteur(tampon.as_slice()))
            },
            Err(e) => {
                assert(self.issue_secteur(self.secteur_courant(), Err(e)));
                Err(e)
            },
        }
    }

    /// Looks an entry up in the current directory by its exact composed name.
    pub fn trouver_entree(&self, cible: &str) -> (r: Result<DirEntry, &'static str>)
        requires
            self.bien_forme(),
        ensures
            self.issue_recherche(cible@, r),
    {
        let secteur: u64 = self.cluster_vers_secteur(self.cluster_courant);
        match self.lire(secteur) {
            Ok(tampon) => {
                assert(self.issue_secteur(self.secteur_courant(), Ok(tampon@)));
                match chercher_dans_secteur(tampon.as_slice(), cible) {
                    Some(e) => Ok(e),
                    None => Err(INTROUVABLE),
                }
            },
            Err(e) => {
                assert(self.issue_secteur(self.secteur_courant(), Err(e)));
                Err(e)
            },
        }
    }

    /// Makes the directory `nom` of the current directory the current one.
    /// On any error the current directory stays as it was. Nothing else of
    /// the session ever changes.
    pub fn changer_repertoire(&mut self, nom: &str) -> (r: Result<(), &'static str>)
        requires
            old(self).bien_forme(),
        ensures
            old(self).issue_changement(nom@, final(self).spec_cluster_courant(), r),
            r is Err ==> final(self).spec_cluster_courant() == old(self).spec_cluster_courant(),
            final(self).spec_disque() == old(self).spec_disque(),
            final(self).spec_bpb() == old(self).spec_bpb(),
            final(self).spec_debut_fat() == old(self).spec_debut_fat(),
            final(self).spec_debut_donnees() == old(self).spec_debut_donnees(),
    {
        match self.trouver_entree(nom) {
            Ok(e) => {
                if !e.est_dossier() {
                    return Err(PAS_UN_DOSSIER);
                }
                self.cluster_courant = e.premier_cluster();
                Ok(())
            },
            Err(e) => Err(e),
        }
    }

    /// Reads from the table the successor of `cluster`.
    pub fn cluster_suivant(&self, cluster: u32) -> (r: Result<u32, &'static str>)
        requires
            self.bien_forme(),
        ensures
            self.issue_suivant(cluster, r),
    {
        let secteur: u64 = self.debut_fat + secteur_relatif(cluster);
        match self.lire(secteur) {
            Ok(tampon) => {
                assert(self.issue_secteur(self.secteur_fat(cluster), Ok(tampon@)));
                Ok(entree_fat(tampon.as_slice(), cluster))
            },
            Err(e) => {
                assert(self.issue_secteur(self.secteur_fat(cluster), Err(e)));
                Err(e)
            },
        }
    }

    /// Gathers the sectors of the cluster chain that starts at `depart`: the
    /// first sector of each cluster, in chain order, until the table gives an
    /// end-of-chain value. Fails with the device's error when a read fails,
    /// and with `CHAINE_SANS_FIN` when the chain has not ended after
    /// `LIMITE_CHAINE` links.
    pub fn lire_chaine(&self, depart: u32) -> (r: Result<Vec<u8>, &'static str>)
        requires
            self.bien_forme(),
        ensures
            self.issue_chaine(
                depart,
                LIMITE_CHAINE as nat,
                match r {
                    Ok(octets) => Ok(octets@),
                    Err(e) => Err(e),
                },
            ),
    {
        let mut octets: Vec<u8> = Vec::new();
        let mut cluster: u32 = depart;
        let mut restant: u32 = LIMITE_CHAINE;
        proof {
            assert forall|fin: Lecture| a_la_suite(octets@, fin) == fin by {
                if let Ok(f) = fin {
                    assert(octets@ + f =~= f);
                }
            }
        }
        loop
            invariant
                self.bien_forme(),
                forall|fin: Lecture| #[trigger]
                    self.issue_chaine(cluster, restant as nat, fin) ==> self.issue_chaine(
                        depart,
                        LIMITE_CHAINE as nat,
                        a_la_suite(octets@, fin),
                    ),
            decreases restant,
        {
            let ghost avant: Seq<u8> = octets@;
            let secteur: u64 = self.cluster_vers_secteur(cluster);
            let tampon: [u8; TAILLE_SECTEUR] = match self.lire(secteur) {
                Ok(tampon) => tampon,
                Err(e) => {
                    assert(self.issue_secteur(self.spec_cluster_vers_secteur(cluster), Err(e)));
                    assert(self.issue_chaine(cluster, restant as nat, Err(e)));
                    return Err(e);
                },
            };
            assert(self.issue_secteur(self.spec_cluster_vers_secteur(cluster), Ok(tampon@)));
            octets.extend_from_slice(tampon.as_slice());
            assert(octets@ =~= avant + tampon@);
            let suivant: u32 = match self.cluster_suivant(cluster) {
                Ok(suivant) => suivant,
                Err(e) => {
                    assert(self.issue_suivant(cluster, Err(e)));
                    assert(self.issue_chaine(cluster, restant as nat, Err(e)));
                    return Err(e);
                },
            };
            assert(self.issue_suivant(cluster, Ok(suivant)));
            if suivant >= FIN_DE_CHAINE {
                assert(self.issue_chaine(cluster, restant as nat, Ok(tampon@)));
                return Ok(octets);
            }
            if restant == 0 {
                assert(self.issue_chaine(cluster, restant as nat, Err(CHAINE_SANS_FIN)));
                return Err(CHAINE_SANS_FIN);
            }
            proof {
                assert forall|fin: Lecture| #[trigger]
                    self.issue_chaine(suivant, (restant - 1) as nat, fin) implies self.issue_chaine(
                    depart,
                    LIMITE_CHAINE as nat,
                    a_la_suite(octets@, fin),
                ) by {
                    let ici: Lecture = a_la_suite(tampon@, fin);
                    assert(self.issue_chaine(suivant, ((restant as nat) - 1) as nat, fin));
                    assert(self.issue_chaine(cluster, restant as nat, ici));
                    if let Ok(f) = fin {
                        assert(avant + (tampon@ + f) =~= octets@ + f);
                    }
                    assert(a_la_suite(avant, ici) == a_la_suite(octets@, fin));
                }
            }
            restant = restant - 1;
            cluster = suivant;
        }
    }

    /// Reads the file `nom` of the current directory as text: the sectors of
    /// its cluster chain, cut to its recorded size, invalid UTF-8 replaced.
    pub fn lire_fichier(&self, nom: &str) -> (r: Result<String, &'static str>)
        requires
            self.bien_forme(),
        ensures
            self.issue_lecture(
                nom@,
                match r {
                    Ok(texte) => Ok(texte@),
                    Err(e) => Err(e),
                },
            ),
    {
        let e: DirEntry = match self.trouver_entree(nom) {
            Ok(e) => e,
            Err(x) => {
                assert(self.issue_recherche(nom@, Err(x)));
                return Err(x);
            },
        };
        assert(self.issue_recherche(nom@, Ok(e)));
        if e.est_dossier() {
            return Err(EST_UN_DOSSIER);
        }
        let depart: u32 = e.premier_cluster();
        match self.lire_chaine(depart) {
            Ok(octets) => {
                assert(self.issue_chaine(depart, LIMITE_CHAINE as nat, Ok(octets@)));
                let texte: String = texte_fichier(octets, e.file_size);
                assert(self.issue_contenu(e, Ok(texte@)));
                Ok(texte)
            },
            Err(x) => {
                assert(self.issue_chaine(depart, LIMITE_CHAINE as nat, Err(x)));
                assert(self.issue_contenu(e, Err(x)));
                Err(x)
            },
        }
    }
}

} // verus!
