use vstd::prelude::*;

use crate::model::{PubKey, RawData, SignatureScheme, Signer, Signers, SigningBlock, ValueSigningBlock};

verus! {

/// The host-side encoding of an unsigned size or offset: a 64-bit signed
/// integer holding the same bits.
pub open spec fn long_of(v: u64) -> i64 {
    v as i64
}

/// The host-side encoding of an unsigned id: a 32-bit signed integer holding
/// the same bits.
pub open spec fn int_of(v: u32) -> i32 {
    v as i32
}

/// Host object for a public key.
pub struct HostPubKey {
    pub size: i64,
    pub data: Vec<u8>,
}

/// Host object for a signer's signed data.
pub struct HostSignedData {
    pub size: i64,
}

/// Host object for a signer's signature list.
pub struct HostSignatures {
    pub size: i64,
}

/// Host object for a signer. `signed_data` and `signatures` are fields that
/// always exist, and hold `None` when the structure was not retained.
pub struct HostSigner {
    pub size: i64,
    pub signed_data: Option<HostSignedData>,
    pub signatures: Option<HostSignatures>,
    pub pub_key: HostPubKey,
}

/// Host object for a signer list, in the source order.
pub struct HostSigners {
    pub size: i64,
    pub signers_data: Vec<HostSigner>,
}

/// Host object for a V2 or V3 scheme sub-block.
pub struct HostSignatureScheme {
    pub size: i64,
    pub id: i32,
    pub signers: HostSigners,
}

/// Host object for a raw sub-block.
pub struct HostRawData {
    pub size: i64,
    pub id: i32,
    pub data: Vec<u8>,
}

/// Host wrapper of a tagged entry: the populated field names the variant.
pub struct HostValueSigningBlock {
    pub signature_scheme_v2: Option<HostSignatureScheme>,
    pub signature_scheme_v3: Option<HostSignatureScheme>,
    pub raw_data: Option<HostRawData>,
}

/// Host object for a whole signing block.
pub struct HostSigningBlock {
    pub file_offset_start: i64,
    pub file_offset_end: i64,
    pub size_of_block_start: i64,
    pub content_size: i64,
    pub size_of_block_end: i64,
    pub magic: Vec<u8>,
    pub content: Vec<HostValueSigningBlock>,
}

impl HostPubKey {
    /// This object is the projection of `k`.
    pub open spec fn projects(&self, k: PubKey) -> bool {
        &&& self.size == long_of(k.size)
        &&& self.data@ == k.data@
    }
}

impl HostSigner {
    /// This object is the projection of `s`: the signed data and the
    /// signatures are absent.
    pub open spec fn projects(&self, s: Signer) -> bool {
        &&& self.size == long_of(s.size)
        &&& self.signed_data is None
        &&& self.signatures is None
        &&& self.pub_key.projects(s.pub_key)
    }
}

impl HostSigners {
    /// This object is the projection of `s`, signer by signer in order.
    pub open spec fn projects(&self, s: Signers) -> bool {
        &&& self.size == long_of(s.size)
        &&& self.signers_data@.len() == s.signers_data@.len()
        &&& forall|i: int|
            0 <= i < s.signers_data@.len() ==> (#[trigger] self.signers_data@[i]).projects(
                s.signers_data@[i],
            )
    }
}

impl HostSignatureScheme {
    /// This object is the projection of `s`.
    pub open spec fn projects(&self, s: SignatureScheme) -> bool {
        &&& self.size == long_of(s.size)
        &&& self.id == int_of(s.id)
        &&& self.signers.projects(s.signers)
    }
}

impl HostRawData {
    /// This object is the projection of `r`.
    pub open spec fn projects(&self, r: RawData) -> bool {
        &&& self.size == long_of(r.size)
        &&& self.id == int_of(r.id)
        &&& self.data@ == r.data@
    }
}

impl HostValueSigningBlock {
    /// This wrapper is the projection of `b`: the field of `b`'s variant holds
    /// the projected sub-block and the other two are absent.
    pub open spec fn projects(&self, b: ValueSigningBlock) -> bool {
        match b {
            ValueSigningBlock::SchemeV2Block(s) => {
                &&& self.signature_scheme_v2 matches Some(h) && h.projects(s)
                &&& self.signature_scheme_v3 is None
                &&& self.raw_data is None
            },
            ValueSigningBlock::SchemeV3Block(s) => {
                &&& self.signature_scheme_v2 is None
                &&& self.signature_scheme_v3 matches Some(h) && h.projects(s)
                &&& self.raw_data is None
            },
            ValueSigningBlock::RawBlock(r) => {
                &&& self.signature_scheme_v2 is None
                &&& self.signature_scheme_v3 is None
                &&& self.raw_data matches Some(h) && h.projects(r)
            },
        }
    }
}

impl HostSigningBlock {
    /// This object is the projection of `sb`, entry by entry in order.
    pub open spec fn projects(&self, sb: SigningBlock) -> bool {
        &&& self.file_offset_start == long_of(sb.file_offset_start)
        &&& self.file_offset_end == long_of(sb.file_offset_end)
        &&& self.size_of_block_start == long_of(sb.size_of_block_start)
        &&& self.content_size == long_of(sb.content_size)
        &&& self.size_of_block_end == long_of(sb.size_of_block_end)
        &&& self.magic@ == sb.magic@
        &&& self.content@.len() == sb.content@.len()
        &&& forall|i: int|
            0 <= i < sb.content@.len() ==> (#[trigger] self.content@[i]).projects(sb.content@[i])
    }
}

} // verus!
