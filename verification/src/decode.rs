//! The encoding families and the classifier that tells them apart.
use vstd::prelude::*;

verus! {

/// The encoding families of the instruction set.
#[derive(Clone, Copy, Debug, PartialEq, Eq, Structural)]
pub enum Family {
    SMEM,
    SOP1,
    SOPC,
    SOPP,
    SOPK,
    SOP2,
    VOPP,
    VOP1,
    VOPD,
    VOPC,
    VOP2,
    VOP3,
    LDS,
    GLOBAL,
}

/// The family of a word: the first of the fixed prefixes, longest first,
/// that its most significant bits match.
pub open spec fn family_of(word: u32) -> Option<Family> {
    if word / 0x400_0000 == 0b111101 {
        Some(Family::SMEM)
    } else if word / 0x80_0000 == 0b101111101 {
        Some(Family::SOP1)
    } else if word / 0x80_0000 == 0b101111110 {
        Some(Family::SOPC)
    } else if word / 0x80_0000 == 0b101111111 {
        Some(Family::SOPP)
    } else if word / 0x1000_0000 == 0b1011 {
        Some(Family::SOPK)
    } else if word / 0x4000_0000 == 0b10 {
        Some(Family::SOP2)
    } else if word / 0x100_0000 == 0b11001100 {
        Some(Family::VOPP)
    } else if word / 0x200_0000 == 0b0111111 {
        Some(Family::VOP1)
    } else if word / 0x400_0000 == 0b110010 {
        Some(Family::VOPD)
    } else if word / 0x200_0000 == 0b0111110 {
        Some(Family::VOPC)
    } else if word / 0x8000_0000 == 0 {
        Some(Family::VOP2)
    } else if word / 0x400_0000 == 0b110101 {
        Some(Family::VOP3)
    } else if word / 0x400_0000 == 0b110110 {
        Some(Family::LDS)
    } else if word / 0x400_0000 == 0b110111 {
        Some(Family::GLOBAL)
    } else {
        None
    }
}

/// Whether a word is skipped while the execution mask is zero.
pub open spec fn is_predicated(word: u32) -> bool {
    ||| word / 0x200_0000 == 0b0111111
    ||| word / 0x400_0000 == 0b110010
    ||| word / 0x200_0000 == 0b0111110
    ||| word / 0x8000_0000 == 0
    ||| word / 0x400_0000 == 0b110101
}

/// Whether a word is skipped without any effect.
pub open spec fn is_noop(word: u32) -> bool {
    word == 0xbfb60003 || word / 0x10_0000 == 0xbf8
}

/// Classifies a word by its prefix.
pub fn classify(word: u32) -> (r: Option<Family>)
    ensures
        r == family_of(word),
{
    if word / 0x400_0000 == 0b111101 {
        Some(Family::SMEM)
    } else if word / 0x80_0000 == 0b101111101 {
        Some(Family::SOP1)
    } else if word / 0x80_0000 == 0b101111110 {
        Some(Family::SOPC)
    } else if word / 0x80_0000 == 0b101111111 {
        Some(Family::SOPP)
    } else if word / 0x1000_0000 == 0b1011 {
        Some(Family::SOPK)
    } else if word / 0x4000_0000 == 0b10 {
        Some(Family::SOP2)
    } else if word / 0x100_0000 == 0b11001100 {
        Some(Family::VOPP)
    } else if word / 0x200_0000 == 0b0111111 {
        Some(Family::VOP1)
    } else if word / 0x400_0000 == 0b110010 {
        Some(Family::VOPD)
    } else if word / 0x200_0000 == 0b0111110 {
        Some(Family::VOPC)
    } else if word / 0x8000_0000 == 0 {
        Some(Family::VOP2)
    } else if word / 0x400_0000 == 0b110101 {
        Some(Family::VOP3)
    } else if word / 0x400_0000 == 0b110110 {
        Some(Family::LDS)
    } else if word / 0x400_0000 == 0b110111 {
        Some(Family::GLOBAL)
    } else {
        None
    }
}

/// Whether the execution mask gates a word.
pub fn predicated(word: u32) -> (r: bool)
    ensures
        r == is_predicated(word),
{
    word / 0x200_0000 == 0b0111111 || word / 0x400_0000 == 0b110010 || word / 0x200_0000
        == 0b0111110 || word / 0x8000_0000 == 0 || word / 0x400_0000 == 0b110101
}

/// Whether a word is one of those that are skipped.
pub fn noop(word: u32) -> (r: bool)
    ensures
        r == is_noop(word),
{
    word == 0xbfb60003 || word / 0x10_0000 == 0xbf8
}

/// The words that the execution mask gates are those of the five vector
/// families VOP1, VOPD, VOPC, VOP2 and VOP3. The scalar families, the packed
/// vector family and the memory families are never gated.
pub proof fn lemma_predicated_families(word: u32)
    ensures
        is_predicated(word) <==> (family_of(word) == Some(Family::VOP1) || family_of(word) == Some(
            Family::VOPD,
        ) || family_of(word) == Some(Family::VOPC) || family_of(word) == Some(Family::VOP2)
            || family_of(word) == Some(Family::VOP3)),
{
}

/// A word whose top bit is clear belongs to VOP1, VOPC or VOP2; the
/// terminator and the words that are skipped belong to SOPP.
pub proof fn lemma_prefixes(word: u32)
    ensures
        word < 0x8000_0000 ==> (family_of(word) == Some(Family::VOP1) || family_of(word) == Some(
            Family::VOPC,
        ) || family_of(word) == Some(Family::VOP2)),
        is_noop(word) ==> family_of(word) == Some(Family::SOPP),
        family_of(crate::utils::END_PRG) == Some(Family::SOPP),
        0x8000_0000 <= word < 0xc000_0000 ==> (family_of(word) == Some(Family::SOP1) || family_of(
            word,
        ) == Some(Family::SOPC) || family_of(word) == Some(Family::SOPP) || family_of(word)
            == Some(Family::SOPK) || family_of(word) == Some(Family::SOP2)),
{
}

} // verus!
