//! Text taken from raw bytes: lossy decoding, trimmed name fields, the
//! composed `name.ext` of a directory entry and the line that lists it.

use vstd::prelude::*;
use vstd::string::StringExecFns;
use vstd::utf8::{
    decode_utf8, decode_utf8_encode_utf8, encode_utf8, encode_utf8_decode_utf8,
    encode_utf8_valid_utf8, is_ascii_chars, is_ascii_chars_encode_utf8, valid_utf8,
};

verus! {

/// The text that `String::from_utf8_lossy` makes of `octets`: the bytes read
/// as UTF-8, each invalid sequence replaced by U+FFFD.
pub uninterp spec fn texte_tolerant(octets: Seq<u8>) -> Seq<char>;

/// The text that `str::trim` leaves of `texte`: its leading and trailing
/// whitespace removed.
pub uninterp spec fn texte_rogne(texte: Seq<char>) -> Seq<char>;

/// Calls `String::from_utf8_lossy` and takes ownership of what it returns.
///
/// Trusted: the result is named `texte_tolerant`, and bytes that are valid
/// UTF-8 come back as the text they encode, as the function's documentation
/// says.
#[verifier::external_body]
pub(crate) fn decoder_tolerant(octets: &[u8]) -> (texte: String)
    ensures
        texte@ == texte_tolerant(octets@),
        valid_utf8(octets@) ==> texte@ == decode_utf8(octets@),
{
    String::from_utf8_lossy(octets).into_owned()
}

/// Calls `str::trim`.
///
/// Trusted: the result is named `texte_rogne`; nothing more is claimed of it.
#[verifier::external_body]
pub(crate) fn rogner(texte: &str) -> (reste: &str)
    ensures
        reste@ == texte_rogne(texte@),
{
    texte.trim()
}

/// Text of a fixed-width name field: decoded leniently, then trimmed.
pub open spec fn spec_texte_champ(octets: Seq<u8>) -> Seq<char> {
    texte_rogne(texte_tolerant(octets))
}

/// The name under which an entry is listed and looked up: the bare name when
/// there is no extension, else name, a dot, and the extension.
pub open spec fn spec_nom_complet(nom: Seq<char>, ext: Seq<char>) -> Seq<char> {
    if ext.len() == 0 {
        nom
    } else {
        nom + seq!['.'] + ext
    }
}

/// Five-character marker in front of a listed name: `<DOS>` for a
/// subdirectory, blanks otherwise.
pub open spec fn spec_marque(dossier: bool) -> Seq<char> {
    if dossier {
        seq!['<', 'D', 'O', 'S', '>']
    } else {
        seq![' ', ' ', ' ', ' ', ' ']
    }
}

/// One line of a listing: the marker, a space, the composed name.
pub open spec fn spec_ligne(dossier: bool, complet: Seq<char>) -> Seq<char> {
    spec_marque(dossier) + seq![' '] + complet
}

/// Decodes a fixed-width name field (the 8-byte name or the 3-byte extension).
pub fn texte_champ(octets: &[u8]) -> (texte: String)
    ensures
        texte@ == spec_texte_champ(octets@),
{
    let brut: String = decoder_tolerant(octets);
    rogner(brut.as_str()).to_owned()
}

/// Composes `name.ext`, or the bare name when the extension is empty.
pub fn nom_complet(nom: &str, ext: &str) -> (complet: String)
    ensures
        complet@ == spec_nom_complet(nom@, ext@),
{
    let mut complet: String = nom.to_owned();
    if !ext.is_empty() {
        proof {
            reveal_strlit(".");
            assert("."@ =~= seq!['.']);
        }
        complet.append(".");
        complet.append(ext);
    }
    complet
}

/// Builds the line that lists an entry.
pub fn ligne(dossier: bool, complet: &str) -> (texte: String)
    ensures
        texte@ == spec_ligne(dossier, complet@),
{
    proof {
        reveal_strlit("<DOS> ");
        reveal_strlit("      ");
        assert("<DOS> "@ =~= spec_marque(true) + seq![' ']);
        assert("      "@ =~= spec_marque(false) + seq![' ']);
    }
    let mut texte: String = if dossier {
        "<DOS> ".to_owned()
    } else {
        "      ".to_owned()
    };
    texte.append(complet);
    texte
}

/// The first `taille` bytes of `octets`, or all of them when there are fewer.
pub open spec fn tronque(octets: Seq<u8>, taille: u32) -> Seq<u8> {
    if taille <= octets.len() {
        octets.subrange(0, taille as int)
    } else {
        octets
    }
}

/// `texte` is the lenient decoding of `octets`: the named result of the
/// decoder and, for valid UTF-8, the very text that the bytes encode.
pub open spec fn decode_tolerant(octets: Seq<u8>, texte: Seq<char>) -> bool {
    &&& texte == texte_tolerant(octets)
    &&& valid_utf8(octets) ==> texte == decode_utf8(octets)
}

/// `texte` is the content of a file of `taille` bytes whose cluster chain
/// holds `octets`: what lies past the recorded size is dropped, the rest is
/// decoded leniently.
pub open spec fn contenu_de(octets: Seq<u8>, taille: u32, texte: Seq<char>) -> bool {
    decode_tolerant(tronque(octets, taille), texte)
}

/// Cuts the bytes gathered from a cluster chain down to the recorded size of
/// the file and decodes them as text, invalid sequences replaced.
pub fn texte_fichier(octets: Vec<u8>, taille: u32) -> (texte: String)
    ensures
        contenu_de(octets@, taille, texte@),
{
    let mut utiles: Vec<u8> = octets;
    utiles.truncate(taille as usize);
    decoder_tolerant(utiles.as_slice())
}

/// A file whose chain holds at least as many bytes as its recorded size, and
/// whose bytes up to that size are valid UTF-8, reads back as exactly those
/// bytes: the text is as long, in bytes, as the recorded size, however much
/// the last cluster holds beyond it.
pub proof fn loi_taille_du_contenu(octets: Seq<u8>, taille: u32, texte: Seq<char>)
    requires
        contenu_de(octets, taille, texte),
        taille <= octets.len(),
        valid_utf8(octets.subrange(0, taille as int)),
    ensures
        encode_utf8(texte) == octets.subrange(0, taille as int),
        encode_utf8(texte).len() == taille,
{
    decode_utf8_encode_utf8(octets.subrange(0, taille as int));
}

/// Every byte of `octets` is an ASCII character.
pub open spec fn octets_ascii(octets: Seq<u8>) -> bool {
    forall|i: int| 0 <= i < octets.len() ==> octets[i] < 0x80
}

/// The characters whose codes are the bytes of `octets`.
pub open spec fn caracteres(octets: Seq<u8>) -> Seq<char> {
    Seq::new(octets.len(), |i: int| octets[i] as char)
}

/// A file whose bytes up to its recorded size are ASCII reads back
/// character for character: one character per byte, with the byte's code.
pub proof fn loi_contenu_ascii(octets: Seq<u8>, taille: u32, texte: Seq<char>)
    requires
        contenu_de(octets, taille, texte),
        taille <= octets.len(),
        octets_ascii(octets.subrange(0, taille as int)),
    ensures
        texte == caracteres(octets.subrange(0, taille as int)),
        texte.len() == taille,
{
    let utiles: Seq<u8> = octets.subrange(0, taille as int);
    let lettres: Seq<char> = caracteres(utiles);
    assert(is_ascii_chars(lettres));
    is_ascii_chars_encode_utf8(lettres);
    assert(encode_utf8(lettres) =~= utiles);
    encode_utf8_valid_utf8(lettres);
    encode_utf8_decode_utf8(lettres);
}

} // verus!
