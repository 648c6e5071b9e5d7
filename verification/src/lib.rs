//! Detection of compression codecs from the leading "magic" bytes of a
//! byte stream.
//!
//! Given the first bytes of an opaque stream, [`SupportedCompression::check`]
//! says which (if any) of the supported codecs produced it, by matching the
//! stream's prefix against the known signatures; [`is_compressed`] is the
//! same decision as a boolean. Buffers shorter than four bytes are never
//! classified, even when they would match a two-byte signature.

use vstd::prelude::*;

pub mod magic;

verus! {

/// The compression codecs that downstream decoders exist for.
#[derive(Clone, Copy, Debug, PartialEq, Eq, Structural)]
pub enum SupportedCompression {
    GZIP,
    ZLIB,
    ZSTD,
}

/// `s` begins with the two-byte gzip signature `0x1f 0x8b`.
pub open spec fn starts_with_gzip(s: Seq<u8>) -> bool {
    s.len() >= 2 && s[0] == 0x1f && s[1] == 0x8b
}

/// `s` begins with one of the three two-byte zlib signatures
/// `0x78 0x01`, `0x78 0x9c`, `0x78 0xda`.
pub open spec fn starts_with_zlib(s: Seq<u8>) -> bool {
    s.len() >= 2 && s[0] == 0x78 && (s[1] == 0x01 || s[1] == 0x9c || s[1] == 0xda)
}

/// `s` begins with the four-byte zstd signature `0x28 0xb5 0x2f 0xfd`.
pub open spec fn starts_with_zstd(s: Seq<u8>) -> bool {
    s.len() >= 4 && s[0] == 0x28 && s[1] == 0xb5 && s[2] == 0x2f && s[3] == 0xfd
}

/// What a classification of the leading bytes `s` returns: the codec whose
/// signature `s` starts with, or `None` when no signature matches or when
/// fewer than four bytes are available.
pub open spec fn detect(s: Seq<u8>) -> Option<SupportedCompression> {
    if s.len() < 4 {
        None
    } else if starts_with_zlib(s) {
        Some(SupportedCompression::ZLIB)
    } else if starts_with_gzip(s) {
        Some(SupportedCompression::GZIP)
    } else if starts_with_zstd(s) {
        Some(SupportedCompression::ZSTD)
    } else {
        None
    }
}

/// The leading bytes `s` are classified as some supported codec.
pub open spec fn recognized(s: Seq<u8>) -> bool {
    detect(s) is Some
}

impl SupportedCompression {
    /// If the byte slice starts with the magic bytes of a supported
    /// compression family, return that family; for unsupported or
    /// uncompressed slices, and for slices of fewer than four bytes,
    /// return `None`.
    pub fn check(bytes: &[u8]) -> (r: Option<Self>)
        ensures
            r == detect(bytes@),
    {
        if bytes.len() < 4 {
            return None;
        }
        let b0 = bytes[0];
        let b1 = bytes[1];
        if b0 == 0x78 && (b1 == 0x01 || b1 == 0x9c || b1 == 0xda) {
            Some(SupportedCompression::ZLIB)
        } else if b0 == 0x1f && b1 == 0x8b {
            Some(SupportedCompression::GZIP)
        } else if b0 == 0x28 && b1 == 0xb5 && bytes[2] == 0x2f && bytes[3] == 0xfd {
            Some(SupportedCompression::ZSTD)
        } else {
            None
        }
    }
}

/// The byte slice appears to hold a compression this crate knows: true
/// exactly when [`SupportedCompression::check`] would classify it.
pub fn is_compressed(bytes: &[u8]) -> (r: bool)
    ensures
        r == recognized(bytes@),
        r == (detect(bytes@) is Some),
{
    SupportedCompression::check(bytes).is_some()
}

/// `p` is one of the signatures registered for `kind`: the single gzip and
/// zstd signatures, and the three alternative zlib signatures.
pub open spec fn is_registered_prefix(kind: SupportedCompression, p: Seq<u8>) -> bool {
    match kind {
        SupportedCompression::GZIP => p == magic::GZIP@,
        SupportedCompression::ZLIB => p == magic::ZLIB0@ || p == magic::ZLIB1@
            || p == magic::ZLIB2@,
        SupportedCompression::ZSTD => p == magic::ZSTD@,
    }
}

/// Any buffer that starts with a registered signature of `kind` and is at
/// least four bytes long is classified as `kind`, whatever the rest of the
/// buffer holds. The four-byte floor is why the suffix cannot always be
/// empty: a bare two-byte signature is below the minimum length.
pub proof fn lemma_prefix_detected(kind: SupportedCompression, prefix: Seq<u8>, suffix: Seq<u8>)
    requires
        is_registered_prefix(kind, prefix),
        prefix.len() + suffix.len() >= 4,
    ensures
        detect(prefix + suffix) == Some(kind),
        recognized(prefix + suffix),
{
    let s = prefix + suffix;
    assert(forall|i: int| 0 <= i < prefix.len() ==> s[i] == prefix[i]);
}

/// A buffer of fewer than four bytes is never classified, even when it
/// equals a full two-byte signature.
pub proof fn lemma_short_input_not_detected(s: Seq<u8>)
    requires
        s.len() < 4,
    ensures
        detect(s) == None::<SupportedCompression>,
        !recognized(s),
{
}

/// A buffer of at least four bytes that starts with none of the three
/// signature families is never classified.
pub proof fn lemma_unmatched_not_detected(s: Seq<u8>)
    requires
        s.len() >= 4,
        !starts_with_zlib(s),
        !starts_with_gzip(s),
        !starts_with_zstd(s),
    ensures
        detect(s) == None::<SupportedCompression>,
        !recognized(s),
{
}

/// The signature families are pairwise disjoint at the bytes checked, so at
/// most one codec can match any buffer and the order in which the families
/// are tested never changes the classification.
pub proof fn lemma_signatures_disjoint(s: Seq<u8>)
    ensures
        !(starts_with_gzip(s) && starts_with_zlib(s)),
        !(starts_with_gzip(s) && starts_with_zstd(s)),
        !(starts_with_zlib(s) && starts_with_zstd(s)),
{
}

/// The named constants of [`magic`] are exactly the registered signatures:
/// the table other components read agrees byte for byte with what the
/// classification matches against.
pub proof fn lemma_magic_table()
    ensures
        is_registered_prefix(SupportedCompression::GZIP, magic::GZIP@),
        is_registered_prefix(SupportedCompression::ZLIB, magic::ZLIB0@),
        is_registered_prefix(SupportedCompression::ZLIB, magic::ZLIB1@),
        is_registered_prefix(SupportedCompression::ZLIB, magic::ZLIB2@),
        is_registered_prefix(SupportedCompression::ZSTD, magic::ZSTD@),
        magic::GZIP@ =~= seq![0x1fu8, 0x8bu8],
        magic::ZLIB0@ =~= seq![0x78u8, 0x01u8],
        magic::ZLIB1@ =~= seq![0x78u8, 0x9cu8],
        magic::ZLIB2@ =~= seq![0x78u8, 0xdau8],
        magic::ZSTD@ =~= seq![0x28u8, 0xb5u8, 0x2fu8, 0xfdu8],
{
}

} // verus!
