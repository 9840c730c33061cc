use vstd::prelude::*;

use crate::host::{
    int_of, long_of, HostPubKey, HostRawData, HostSignatureScheme, HostSigner, HostSigners,
    HostSigningBlock, HostValueSigningBlock,
};
use crate::model::{PubKey, RawData, SignatureScheme, Signer, Signers, SigningBlock, ValueSigningBlock};

verus! {

/// Encodes an unsigned size or offset as a host long.
pub fn to_long(v: u64) -> (r: i64)
    ensures
        r == long_of(v),
{
    v as i64
}

/// Encodes an unsigned id as a host int.
pub fn to_int(v: u32) -> (r: i32)
    ensures
        r == int_of(v),
{
    v as i32
}

/// Copies a byte buffer into a buffer of exactly the same length and bytes.
pub fn copy_bytes(b: &Vec<u8>) -> (r: Vec<u8>)
    ensures
        r@ == b@,
{
    let r = b.clone();
    assert(r@ =~= b@);
    r
}

/// Projects a public key.
pub fn project_pub_key(k: &PubKey) -> (r: HostPubKey)
    ensures
        r.projects(*k),
{
    HostPubKey { size: to_long(k.size), data: copy_bytes(&k.data) }
}

/// Projects a signer; its signed data and signatures are emitted as absent.
pub fn project_signer(s: &Signer) -> (r: HostSigner)
    ensures
        r.projects(*s),
{
    HostSigner {
        size: to_long(s.size),
        signed_data: None,
        signatures: None,
        pub_key: project_pub_key(&s.pub_key),
    }
}

/// Projects a signer list, keeping the signers in order.
pub fn project_signers(s: &Signers) -> (r: HostSigners)
    ensures
        r.projects(*s),
{
    let n = s.signers_data.len();
    let mut out: Vec<HostSigner> = Vec::with_capacity(n);
    let mut i: usize = 0;
    while i < n
        invariant
            n == s.signers_data@.len(),
            i <= n,
            out@.len() == i,
            forall|j: int| 0 <= j < i ==> #[trigger] out@[j].projects(s.signers_data@[j]),
        decreases n - i,
    {
        out.push(project_signer(&s.signers_data[i]));
        i = i + 1;
    }
    HostSigners { size: to_long(s.size), signers_data: out }
}

/// Projects a V2 or V3 scheme sub-block.
pub fn project_scheme(s: &SignatureScheme) -> (r: HostSignatureScheme)
    ensures
        r.projects(*s),
{
    let signers = project_signers(&s.signers);
    HostSignatureScheme { size: to_long(s.size), id: to_int(s.id), signers }
}

/// Projects a raw sub-block, copying its bytes verbatim.
pub fn project_raw(raw: &RawData) -> (r: HostRawData)
    ensures
        r.projects(*raw),
{
    HostRawData { size: to_long(raw.size), id: to_int(raw.id), data: copy_bytes(&raw.data) }
}

/// Projects a tagged entry into a wrapper whose only populated field is the
/// one of the entry's variant.
pub fn project_value_block(b: &ValueSigningBlock) -> (r: HostValueSigningBlock)
    ensures
        r.projects(*b),
{
    match b {
        ValueSigningBlock::SchemeV2Block(s) => HostValueSigningBlock {
            signature_scheme_v2: Some(project_scheme(s)),
            signature_scheme_v3: None,
            raw_data: None,
        },
        ValueSigningBlock::SchemeV3Block(s) => HostValueSigningBlock {
            signature_scheme_v2: None,
            signature_scheme_v3: Some(project_scheme(s)),
            raw_data: None,
        },
        ValueSigningBlock::RawBlock(raw) => HostValueSigningBlock {
            signature_scheme_v2: None,
            signature_scheme_v3: None,
            raw_data: Some(project_raw(raw)),
        },
    }
}

/// Projects a whole signing block, keeping its entries in file order.
pub fn project_signing_block(sb: &SigningBlock) -> (r: HostSigningBlock)
    ensures
        r.projects(*sb),
{
    let n = sb.content.len();
    let mut content: Vec<HostValueSigningBlock> = Vec::with_capacity(n);
    let mut i: usize = 0;
    while i < n
        invariant
            n == sb.content@.len(),
            i <= n,
            content@.len() == i,
            forall|j: int| 0 <= j < i ==> #[trigger] content@[j].projects(sb.content@[j]),
        decreases n - i,
    {
        content.push(project_value_block(&sb.content[i]));
        i = i + 1;
    }
    HostSigningBlock {
        file_offset_start: to_long(sb.file_offset_start),
        file_offset_end: to_long(sb.file_offset_end),
        size_of_block_start: to_long(sb.size_of_block_start),
        content_size: to_long(sb.content_size),
        size_of_block_end: to_long(sb.size_of_block_end),
        magic: copy_bytes(&sb.magic),
        content,
    }
}

} // verus!
