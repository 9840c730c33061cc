use vstd::prelude::*;

verus! {

/// A public key as captured by the engine: the declared size field of the
/// format, and the bytes actually read.
pub struct PubKey {
    pub size: u64,
    pub data: Vec<u8>,
}

/// One signer of a scheme block. The engine's extraction path keeps only the
/// declared size and the public key.
pub struct Signer {
    pub size: u64,
    pub pub_key: PubKey,
}

/// The signer list of a scheme block, in file order. `size` is the raw byte
/// length field of the format, not a count.
pub struct Signers {
    pub size: u64,
    pub signers_data: Vec<Signer>,
}

/// A V2 or V3 signature scheme sub-block.
pub struct SignatureScheme {
    pub size: u64,
    pub id: u32,
    pub signers: Signers,
}

/// A sub-block whose id is not a known scheme, kept as verbatim bytes.
pub struct RawData {
    pub size: u64,
    pub id: u32,
    pub data: Vec<u8>,
}

/// One tagged entry of a signing block's content.
pub enum ValueSigningBlock {
    SchemeV2Block(SignatureScheme),
    SchemeV3Block(SignatureScheme),
    RawBlock(RawData),
}

/// A package's signing block: its bounds, size fields, magic and content.
pub struct SigningBlock {
    pub file_offset_start: u64,
    pub file_offset_end: u64,
    pub size_of_block_start: u64,
    pub content_size: u64,
    pub size_of_block_end: u64,
    pub magic: Vec<u8>,
    pub content: Vec<ValueSigningBlock>,
}

} // verus!
