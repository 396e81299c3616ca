//! The persisted layout of a fund record: a fixed-size binary structure in
//! field order, with verified packing and parsing and a proved round trip.

use vstd::prelude::*;
use vstd::bytes::{
    spec_u64_from_le_bytes, spec_u64_to_le_bytes, lemma_auto_spec_u64_to_from_le_bytes,
    u64_from_le_bytes, u64_to_le_bytes,
};
use vstd::slice::slice_subrange;
use crate::fund::{Fund, FundType};
use crate::identity::Identity;

verus! {

/// Packed size of a fund record.
pub const FUND_RECORD_LEN: usize = 301;

/// The byte encoding a flag: 1 for true, 0 for false.
pub open spec fn spec_bool_byte(b: bool) -> u8 {
    if b {
        1u8
    } else {
        0u8
    }
}

/// Strict parse of a flag byte: only 0 and 1 are accepted.
pub open spec fn spec_parse_bool(b: u8) -> Option<bool> {
    if b == 0 {
        Some(false)
    } else if b == 1 {
        Some(true)
    } else {
        None
    }
}

/// The two bytes encoding a fund type: a tag and a privacy flag.
pub open spec fn spec_fund_type_bytes(t: FundType) -> Seq<u8> {
    match t {
        FundType::FundMe => seq![0u8, 0u8],
        FundType::Raise { private } => seq![1u8, spec_bool_byte(private)],
    }
}

/// Strict parse of the fund-type bytes.
pub open spec fn spec_parse_fund_type(tag: u8, flag: u8) -> Option<FundType> {
    if tag == 0 && flag == 0 {
        Some(FundType::FundMe)
    } else if tag == 1 && (flag == 0 || flag == 1) {
        Some(FundType::Raise { private: flag == 1 })
    } else {
        None
    }
}

/// The canonical encoding of a fund record: every field in order, integers
/// little-endian, identities as their 32 raw bytes.
pub open spec fn spec_pack_fund(f: Fund) -> Seq<u8> {
    seq![spec_bool_byte(f.initialized)] + seq![spec_bool_byte(f.open)]
        + spec_fund_type_bytes(f.fund_type) + f.owner@ + f.authority@ + spec_u64_to_le_bytes(
        f.max_balance,
    ) + spec_u64_to_le_bytes(f.balance) + seq![f.nonce] + f.mint@ + f.vault@
        + spec_u64_to_le_bytes(f.shares) + f.nft_account@ + f.nft_mint@ + f.whitelist@
        + f.payback_vault@ + spec_u64_to_le_bytes(f.payback_total) + spec_u64_to_le_bytes(
        f.payback_per_share,
    )
}

/// Whether a byte string is the encoding of some fund record: right length,
/// strict flag bytes, and a recognized fund-type tag.
pub open spec fn spec_fund_encoding_valid(data: Seq<u8>) -> bool {
    &&& data.len() == FUND_RECORD_LEN
    &&& spec_parse_bool(data[0]) is Some
    &&& spec_parse_bool(data[1]) is Some
    &&& spec_parse_fund_type(data[2], data[3]) is Some
}

/// Where each field of the encoding stands.
pub proof fn lemma_pack_fund_segments(f: Fund)
    ensures
        spec_pack_fund(f).len() == 301,
        spec_pack_fund(f)[0] == spec_bool_byte(f.initialized),
        spec_pack_fund(f)[1] == spec_bool_byte(f.open),
        spec_pack_fund(f).subrange(2, 4) =~= spec_fund_type_bytes(f.fund_type),
        spec_pack_fund(f).subrange(4, 36) =~= f.owner@,
        spec_pack_fund(f).subrange(36, 68) =~= f.authority@,
        spec_pack_fund(f).subrange(68, 76) =~= spec_u64_to_le_bytes(f.max_balance),
        spec_pack_fund(f).subrange(76, 84) =~= spec_u64_to_le_bytes(f.balance),
        spec_pack_fund(f)[84] == f.nonce,
        spec_pack_fund(f).subrange(85, 117) =~= f.mint@,
        spec_pack_fund(f).subrange(117, 149) =~= f.vault@,
        spec_pack_fund(f).subrange(149, 157) =~= spec_u64_to_le_bytes(f.shares),
        spec_pack_fund(f).subrange(157, 189) =~= f.nft_account@,
        spec_pack_fund(f).subrange(189, 221) =~= f.nft_mint@,
        spec_pack_fund(f).subrange(221, 253) =~= f.whitelist@,
        spec_pack_fund(f).subrange(253, 285) =~= f.payback_vault@,
        spec_pack_fund(f).subrange(285, 293) =~= spec_u64_to_le_bytes(f.payback_total),
        spec_pack_fund(f).subrange(293, 301) =~= spec_u64_to_le_bytes(f.payback_per_share),
{
    lemma_auto_spec_u64_to_from_le_bytes();
    assert(spec_fund_type_bytes(f.fund_type).len() == 2);
}

/// The encoding is injective: equal encodings come from equal records.
pub proof fn lemma_pack_fund_injective(f1: Fund, f2: Fund)
    requires
        spec_pack_fund(f1) == spec_pack_fund(f2),
    ensures
        f1 == f2,
{
    lemma_pack_fund_segments(f1);
    lemma_pack_fund_segments(f2);
    lemma_auto_spec_u64_to_from_le_bytes();
    assert(spec_bool_byte(f1.initialized) == spec_bool_byte(f2.initialized));
    assert(f1.initialized == f2.initialized);
    assert(f1.open == f2.open);
    assert(spec_fund_type_bytes(f1.fund_type) =~= spec_fund_type_bytes(f2.fund_type));
    assert(f1.fund_type == f2.fund_type) by {
        match (f1.fund_type, f2.fund_type) {
            (FundType::FundMe, FundType::FundMe) => {},
            (FundType::Raise { private: p1 }, FundType::Raise { private: p2 }) => {
                assert(spec_bool_byte(p1) == spec_bool_byte(p2));
            },
            _ => {
                assert(spec_fund_type_bytes(f1.fund_type)[0] == spec_fund_type_bytes(
                    f2.fund_type,
                )[0]);
            },
        }
    }
    assert(f1.owner@ =~= f2.owner@);
    assert(f1.owner.bytes =~= f2.owner.bytes);
    assert(f1.authority@ =~= f2.authority@);
    assert(f1.authority.bytes =~= f2.authority.bytes);
    assert(f1.max_balance == spec_u64_from_le_bytes(spec_u64_to_le_bytes(f1.max_balance)));
    assert(f1.max_balance == f2.max_balance);
    assert(f1.balance == f2.balance);
    assert(f1.nonce == f2.nonce);
    assert(f1.mint@ =~= f2.mint@);
    assert(f1.mint.bytes =~= f2.mint.bytes);
    assert(f1.vault@ =~= f2.vault@);
    assert(f1.vault.bytes =~= f2.vault.bytes);
    assert(f1.shares == f2.shares);
    assert(f1.nft_account@ =~= f2.nft_account@);
    assert(f1.nft_account.bytes =~= f2.nft_account.bytes);
    assert(f1.nft_mint@ =~= f2.nft_mint@);
    assert(f1.nft_mint.bytes =~= f2.nft_mint.bytes);
    assert(f1.whitelist@ =~= f2.whitelist@);
    assert(f1.whitelist.bytes =~= f2.whitelist.bytes);
    assert(f1.payback_vault@ =~= f2.payback_vault@);
    assert(f1.payback_vault.bytes =~= f2.payback_vault.bytes);
    assert(f1.payback_total == f2.payback_total);
    assert(f1.payback_per_share == f2.payback_per_share);
}

/// Every record's encoding is itself valid, so packing and parsing round
/// trip: parsing what `pack` wrote yields exactly the packed record.
pub proof fn lemma_pack_fund_valid(f: Fund)
    ensures
        spec_fund_encoding_valid(spec_pack_fund(f)),
{
    lemma_pack_fund_segments(f);
    match f.fund_type {
        FundType::FundMe => {},
        FundType::Raise { private } => {},
    }
    assert(spec_pack_fund(f)[2] == spec_fund_type_bytes(f.fund_type)[0]);
    assert(spec_pack_fund(f)[3] == spec_fund_type_bytes(f.fund_type)[1]);
}

/// Append an identity's 32 bytes.
pub fn write_identity(out: &mut Vec<u8>, id: &Identity)
    ensures
        final(out)@ == old(out)@ + id@,
{
    let mut i: usize = 0;
    while i < 32
        invariant
            0 <= i <= 32,
            out@ == old(out)@ + id@.subrange(0, i as int),
        decreases 32 - i,
    {
        out.push(id.bytes[i]);
        assert(out@ =~= old(out)@ + id@.subrange(0, i + 1 as int));
        i += 1;
    }
    assert(id@.subrange(0, 32) =~= id@);
}

/// Append a `u64` in little-endian order.
pub fn write_u64(out: &mut Vec<u8>, x: u64)
    ensures
        final(out)@ == old(out)@ + spec_u64_to_le_bytes(x),
{
    let bytes = u64_to_le_bytes(x);
    let mut i: usize = 0;
    while i < bytes.len()
        invariant
            bytes@ == spec_u64_to_le_bytes(x),
            bytes@.len() == 8,
            0 <= i <= 8,
            out@ == old(out)@ + bytes@.subrange(0, i as int),
        decreases bytes@.len() - i,
    {
        out.push(bytes[i]);
        assert(out@ =~= old(out)@ + bytes@.subrange(0, i + 1 as int));
        i += 1;
    }
    assert(bytes@.subrange(0, 8) =~= bytes@);
}

/// Read 32 bytes at `off` as an identity.
pub fn read_identity(data: &[u8], off: usize) -> (r: Identity)
    requires
        off + 32 <= data@.len(),
    ensures
        r@ == data@.subrange(off as int, off as int + 32),
{
    let n = data.len();
    let mut bytes = [0u8; 32];
    let mut i: usize = 0;
    while i < 32
        invariant
            0 <= i <= 32,
            off + 32 <= n == data@.len(),
            bytes@.len() == 32,
            forall|j: int| 0 <= j < i ==> bytes@[j] == data@[off + j],
        decreases 32 - i,
    {
        bytes[i] = data[off + i];
        i += 1;
    }
    let r = Identity { bytes };
    proof {
        assert(r@ =~= data@.subrange(off as int, off as int + 32));
    }
    r
}

/// Read 8 bytes at `off` as a little-endian `u64`.
pub fn read_u64(data: &[u8], off: usize) -> (r: u64)
    requires
        off + 8 <= data@.len(),
    ensures
        r == spec_u64_from_le_bytes(data@.subrange(off as int, off as int + 8)),
{
    let n = data.len();
    assert(off + 8 <= n);
    let s = slice_subrange(data, off, off + 8);
    u64_from_le_bytes(s)
}

impl Fund {
    /// Serialize the record into its canonical fixed-size encoding.
    pub fn pack(&self) -> (r: Vec<u8>)
        ensures
            r@ == spec_pack_fund(*self),
            r@.len() == FUND_RECORD_LEN,
    {
        let mut out: Vec<u8> = Vec::new();
        out.push(if self.initialized {
            1
        } else {
            0
        });
        out.push(if self.open {
            1
        } else {
            0
        });
        match self.fund_type {
            FundType::FundMe => {
                out.push(0);
                out.push(0);
            },
            FundType::Raise { private } => {
                out.push(1);
                out.push(
                    if private {
                        1
                    } else {
                        0
                    },
                );
            },
        }
        proof {
            assert(out@ =~= seq![spec_bool_byte(self.initialized)] + seq![
                spec_bool_byte(self.open),
            ] + spec_fund_type_bytes(self.fund_type));
        }
        write_identity(&mut out, &self.owner);
        write_identity(&mut out, &self.authority);
        write_u64(&mut out, self.max_balance);
        write_u64(&mut out, self.balance);
        out.push(self.nonce);
        write_identity(&mut out, &self.mint);
        write_identity(&mut out, &self.vault);
        write_u64(&mut out, self.shares);
        write_identity(&mut out, &self.nft_account);
        write_identity(&mut out, &self.nft_mint);
        write_identity(&mut out, &self.whitelist);
        write_identity(&mut out, &self.payback_vault);
        write_u64(&mut out, self.payback_total);
        write_u64(&mut out, self.payback_per_share);
        proof {
            assert(out@ =~= spec_pack_fund(*self));
            lemma_pack_fund_segments(*self);
        }
        out
    }

    /// Parse a stored record. Returns the unique record whose canonical
    /// encoding is `data`, or `None` when `data` encodes no record.
    pub fn unpack(data: &[u8]) -> (r: Option<Fund>)
        ensures
            (r is Some) == spec_fund_encoding_valid(data@),
            r matches Some(f) ==> data@ == spec_pack_fund(f),
    {
        if data.len() != FUND_RECORD_LEN {
            return None;
        }
        let initialized = if data[0] == 0 {
            false
        } else if data[0] == 1 {
            true
        } else {
            return None;
        };
        let open = if data[1] == 0 {
            false
        } else if data[1] == 1 {
            true
        } else {
            return None;
        };
        let tag = data[2];
        let flag = data[3];
        let fund_type = if tag == 0 && flag == 0 {
            FundType::FundMe
        } else if tag == 1 && (flag == 0 || flag == 1) {
            FundType::Raise { private: flag == 1 }
        } else {
            return None;
        };
        let f = Fund {
            initialized,
            open,
            fund_type,
            owner: read_identity(data, 4),
            authority: read_identity(data, 36),
            max_balance: read_u64(data, 68),
            balance: read_u64(data, 76),
            nonce: data[84],
            mint: read_identity(data, 85),
            vault: read_identity(data, 117),
            shares: read_u64(data, 149),
            nft_account: read_identity(data, 157),
            nft_mint: read_identity(data, 189),
            whitelist: read_identity(data, 221),
            payback_vault: read_identity(data, 253),
            payback_total: read_u64(data, 285),
            payback_per_share: read_u64(data, 293),
        };
        proof {
            lemma_pack_fund_segments(f);
            lemma_auto_spec_u64_to_from_le_bytes();
            assert(spec_pack_fund(f).subrange(2, 4) =~= data@.subrange(2, 4));
            assert(spec_u64_to_le_bytes(f.max_balance) =~= data@.subrange(68, 76));
            assert(spec_u64_to_le_bytes(f.balance) =~= data@.subrange(76, 84));
            assert(spec_u64_to_le_bytes(f.shares) =~= data@.subrange(149, 157));
            assert(spec_u64_to_le_bytes(f.payback_total) =~= data@.subrange(285, 293));
            assert(spec_u64_to_le_bytes(f.payback_per_share) =~= data@.subrange(293, 301));
            assert forall|i: int| 0 <= i < 301 implies data@[i] == spec_pack_fund(f)[i] by {
                if 4 <= i < 36 {
                    assert(spec_pack_fund(f)[i] == f.owner@[i - 4]);
                    assert(f.owner@[i - 4] == data@.subrange(4, 36)[i - 4]);
                } else if 36 <= i < 68 {
                    assert(spec_pack_fund(f)[i] == f.authority@[i - 36]);
                    assert(f.authority@[i - 36] == data@.subrange(36, 68)[i - 36]);
                } else if 68 <= i < 76 {
                    assert(spec_pack_fund(f)[i] == spec_u64_to_le_bytes(f.max_balance)[i - 68]);
                } else if 76 <= i < 84 {
                    assert(spec_pack_fund(f)[i] == spec_u64_to_le_bytes(f.balance)[i - 76]);
                } else if 85 <= i < 117 {
                    assert(spec_pack_fund(f)[i] == f.mint@[i - 85]);
                    assert(f.mint@[i - 85] == data@.subrange(85, 117)[i - 85]);
                } else if 117 <= i < 149 {
                    assert(spec_pack_fund(f)[i] == f.vault@[i - 117]);
                    assert(f.vault@[i - 117] == data@.subrange(117, 149)[i - 117]);
                } else if 149 <= i < 157 {
                    assert(spec_pack_fund(f)[i] == spec_u64_to_le_bytes(f.shares)[i - 149]);
                } else if 157 <= i < 189 {
                    assert(spec_pack_fund(f)[i] == f.nft_account@[i - 157]);
                    assert(f.nft_account@[i - 157] == data@.subrange(157, 189)[i - 157]);
                } else if 189 <= i < 221 {
                    assert(spec_pack_fund(f)[i] == f.nft_mint@[i - 189]);
                    assert(f.nft_mint@[i - 189] == data@.subrange(189, 221)[i - 189]);
                } else if 221 <= i < 253 {
                    assert(spec_pack_fund(f)[i] == f.whitelist@[i - 221]);
                    assert(f.whitelist@[i - 221] == data@.subrange(221, 253)[i - 221]);
                } else if 253 <= i < 285 {
                    assert(spec_pack_fund(f)[i] == f.payback_vault@[i - 253]);
                    assert(f.payback_vault@[i - 253] == data@.subrange(253, 285)[i - 253]);
                } else if 285 <= i < 293 {
                    assert(spec_pack_fund(f)[i] == spec_u64_to_le_bytes(f.payback_total)[i - 285]);
                } else if 293 <= i < 301 {
                    assert(spec_pack_fund(f)[i] == spec_u64_to_le_bytes(f.payback_per_share)[i
                        - 293]);
                }
            }
            assert(data@ =~= spec_pack_fund(f));
        }
        Some(f)
    }
}

} // verus!
