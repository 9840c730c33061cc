use vstd::prelude::*;

use crate::host::{
    int_of, long_of, HostPubKey, HostRawData, HostSignatureScheme, HostSigner, HostSigners,
    HostSigningBlock, HostValueSigningBlock,
};
use crate::model::{PubKey, RawData, SignatureScheme, Signer, Signers, SigningBlock, ValueSigningBlock};

verus! {

/// Reads a host long back as the unsigned value whose bits it holds.
pub open spec fn unsigned_of_long(l: i64) -> u64 {
    l as u64
}

/// Reads a host int back as the unsigned id whose bits it holds.
pub open spec fn unsigned_of_int(i: i32) -> u32 {
    i as u32
}

impl HostPubKey {
    /// Re-reading this object gives back the scalars and bytes of `k`.
    pub open spec fn reads_back(&self, k: PubKey) -> bool {
        &&& unsigned_of_long(self.size) == k.size
        &&& self.data@ == k.data@
    }
}

impl HostSigner {
    /// Re-reading this object gives back the scalars of `s`.
    pub open spec fn reads_back(&self, s: Signer) -> bool {
        &&& unsigned_of_long(self.size) == s.size
        &&& self.pub_key.reads_back(s.pub_key)
    }
}

impl HostSigners {
    /// Re-reading this object gives back `s`, signer by signer in order.
    pub open spec fn reads_back(&self, s: Signers) -> bool {
        &&& unsigned_of_long(self.size) == s.size
        &&& self.signers_data@.len() == s.signers_data@.len()
        &&& forall|j: int|
            0 <= j < s.signers_data@.len() ==> (#[trigger] self.signers_data@[j]).reads_back(
                s.signers_data@[j],
            )
    }
}

impl HostSignatureScheme {
    /// Re-reading this object gives back the scalars and signers of `s`.
    pub open spec fn reads_back(&self, s: SignatureScheme) -> bool {
        &&& unsigned_of_long(self.size) == s.size
        &&& unsigned_of_int(self.id) == s.id
        &&& self.signers.reads_back(s.signers)
    }
}

impl HostRawData {
    /// Re-reading this object gives back the scalars and bytes of `r`.
    pub open spec fn reads_back(&self, r: RawData) -> bool {
        &&& unsigned_of_long(self.size) == r.size
        &&& unsigned_of_int(self.id) == r.id
        &&& self.data@ == r.data@
    }
}

impl HostValueSigningBlock {
    /// Re-reading this wrapper gives back `b`'s variant and contents.
    pub open spec fn reads_back(&self, b: ValueSigningBlock) -> bool {
        match b {
            ValueSigningBlock::SchemeV2Block(s) => self.signature_scheme_v2 matches Some(h)
                && h.reads_back(s),
            ValueSigningBlock::SchemeV3Block(s) => self.signature_scheme_v3 matches Some(h)
                && h.reads_back(s),
            ValueSigningBlock::RawBlock(r) => self.raw_data matches Some(h) && h.reads_back(r),
        }
    }

    /// The signers that this wrapper carries: those of its scheme, or none
    /// for a raw sub-block.
    pub open spec fn signer_list(&self) -> Seq<HostSigner> {
        if let Some(s) = self.signature_scheme_v2 {
            s.signers.signers_data@
        } else if let Some(s) = self.signature_scheme_v3 {
            s.signers.signers_data@
        } else {
            Seq::empty()
        }
    }
}

impl HostSigningBlock {
    /// Re-reading this object gives back every scalar of `sb`, its magic, and
    /// its entries in order.
    pub open spec fn reads_back(&self, sb: SigningBlock) -> bool {
        &&& unsigned_of_long(self.file_offset_start) == sb.file_offset_start
        &&& unsigned_of_long(self.file_offset_end) == sb.file_offset_end
        &&& unsigned_of_long(self.size_of_block_start) == sb.size_of_block_start
        &&& unsigned_of_long(self.content_size) == sb.content_size
        &&& unsigned_of_long(self.size_of_block_end) == sb.size_of_block_end
        &&& self.magic@ == sb.magic@
        &&& self.content@.len() == sb.content@.len()
        &&& forall|i: int|
            0 <= i < sb.content@.len() ==> (#[trigger] self.content@[i]).reads_back(sb.content@[i])
    }
}

/// A size or offset read back from its host encoding is the original value.
pub proof fn lemma_long_round_trip(v: u64)
    ensures
        unsigned_of_long(long_of(v)) == v,
{
    assert((v as i64) as u64 == v) by (bit_vector);
}

/// An id read back from its host encoding is the original value.
pub proof fn lemma_int_round_trip(v: u32)
    ensures
        unsigned_of_int(int_of(v)) == v,
{
    assert((v as i32) as u32 == v) by (bit_vector);
}

proof fn lemma_signer_read_back(s: Signer, h: HostSigner)
    requires
        h.projects(s),
    ensures
        h.reads_back(s),
{
    lemma_long_round_trip(s.size);
    lemma_long_round_trip(s.pub_key.size);
}

proof fn lemma_scheme_read_back(s: SignatureScheme, h: HostSignatureScheme)
    requires
        h.projects(s),
    ensures
        h.reads_back(s),
{
    lemma_long_round_trip(s.size);
    lemma_int_round_trip(s.id);
    lemma_long_round_trip(s.signers.size);
    assert forall|j: int| 0 <= j < s.signers.signers_data@.len() implies
        #[trigger] h.signers.signers_data@[j].reads_back(s.signers.signers_data@[j]) by {
        lemma_signer_read_back(s.signers.signers_data@[j], h.signers.signers_data@[j]);
    }
}

proof fn lemma_value_block_read_back(b: ValueSigningBlock, h: HostValueSigningBlock)
    requires
        h.projects(b),
    ensures
        h.reads_back(b),
{
    match b {
        ValueSigningBlock::SchemeV2Block(s) => lemma_scheme_read_back(s, h.signature_scheme_v2->0),
        ValueSigningBlock::SchemeV3Block(s) => lemma_scheme_read_back(s, h.signature_scheme_v3->0),
        ValueSigningBlock::RawBlock(r) => {
            lemma_long_round_trip(r.size);
            lemma_int_round_trip(r.id);
        },
    }
}

/// Projecting a signing block and reading the host graph back reproduces
/// every scalar field exactly, and keeps the order of the entries and of the
/// signers within each entry.
pub proof fn lemma_projection_reads_back(sb: SigningBlock, h: HostSigningBlock)
    requires
        h.projects(sb),
    ensures
        h.reads_back(sb),
{
    lemma_long_round_trip(sb.file_offset_start);
    lemma_long_round_trip(sb.file_offset_end);
    lemma_long_round_trip(sb.size_of_block_start);
    lemma_long_round_trip(sb.content_size);
    lemma_long_round_trip(sb.size_of_block_end);
    assert forall|i: int| 0 <= i < sb.content@.len() implies #[trigger] h.content@[i].reads_back(
        sb.content@[i],
    ) by {
        lemma_value_block_read_back(sb.content@[i], h.content@[i]);
    }
}

/// A projected entry has exactly one populated field, the one of its variant.
pub proof fn lemma_single_variant(b: ValueSigningBlock, h: HostValueSigningBlock)
    requires
        h.projects(b),
    ensures
        h.signature_scheme_v2 is Some <==> b is SchemeV2Block,
        h.signature_scheme_v3 is Some <==> b is SchemeV3Block,
        h.raw_data is Some <==> b is RawBlock,
        (h.signature_scheme_v2 is Some) as int + (h.signature_scheme_v3 is Some) as int + (
        h.raw_data is Some) as int == 1,
{
}

/// Every signer of every entry of a projected signing block has its signed
/// data and its signatures absent.
pub proof fn lemma_signers_bare(sb: SigningBlock, h: HostSigningBlock)
    requires
        h.projects(sb),
    ensures
        forall|i: int, j: int|
            0 <= i < h.content@.len() && 0 <= j < h.content@[i].signer_list().len() ==> {
                &&& (#[trigger] h.content@[i].signer_list()[j]).signed_data is None
                &&& h.content@[i].signer_list()[j].signatures is None
            },
{
    assert forall|i: int, j: int|
        0 <= i < h.content@.len() && 0 <= j < h.content@[i].signer_list().len() implies {
            &&& (#[trigger] h.content@[i].signer_list()[j]).signed_data is None
            &&& h.content@[i].signer_list()[j].signatures is None
        } by {
        let b = sb.content@[i];
        let w = h.content@[i];
        assert(w.projects(b));
        match b {
            ValueSigningBlock::SchemeV2Block(s) => {
                assert(w.signature_scheme_v2->0.signers.signers_data@[j].projects(
                    s.signers.signers_data@[j],
                ));
            },
            ValueSigningBlock::SchemeV3Block(s) => {
                assert(w.signature_scheme_v3->0.signers.signers_data@[j].projects(
                    s.signers.signers_data@[j],
                ));
            },
            ValueSigningBlock::RawBlock(_) => {},
        }
    }
}

} // verus!
