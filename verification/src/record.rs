use vstd::prelude::*;
use crate::address::Address;
use crate::codec::{lemma_u64_from_le_write_back, lemma_u64_le_read_back, push_u64_le, read_u64_le, u64_le};

verus! {

/// Bytes of the discriminator that opens an escrow record.
pub const DISCRIMINATOR_SIZE: usize = 8;

/// Bytes of the seller's identity in an escrow record.
pub const SELLER_SIZE: usize = 32;

/// Bytes of the asset's identifier in an escrow record.
pub const MINT_SIZE: usize = 32;

/// Bytes of the price in an escrow record.
pub const PRICE_SIZE: usize = 8;

/// Bytes of an escrow record, and so of the data of a custodial account.
pub const ESCROW_STATE_SIZE: usize = DISCRIMINATOR_SIZE + SELLER_SIZE + MINT_SIZE + PRICE_SIZE;

/// The record that a custodial account has room for. Creating the account leaves
/// the room zeroed; no operation fills it in.
#[derive(Clone, Copy, Debug, PartialEq, Eq)]
pub struct EscrowRecord {
    /// Discriminator of the record's type and version.
    pub tag: [u8; 8],
    /// The owner of the asset, who funded the escrow.
    pub seller: Address,
    /// The asset type in custody.
    pub asset_id: Address,
    /// Native currency that the buyer has to pay.
    pub price: u64,
}

impl EscrowRecord {
    /// The persisted layout: the discriminator, the seller, the asset, then the price
    /// as 8 little-endian bytes.
    pub open spec fn encoding(self) -> Seq<u8> {
        self.tag@ + self.seller@ + self.asset_id@ + u64_le(self.price)
    }

    /// Every record takes `ESCROW_STATE_SIZE` bytes, and no two records share an
    /// encoding.
    pub proof fn lemma_encoding(self, other: EscrowRecord)
        ensures
            self.encoding().len() == ESCROW_STATE_SIZE,
            self.encoding() == other.encoding() ==> self == other,
    {
        if self.encoding() == other.encoding() {
            let a = self.encoding();
            let b = other.encoding();
            assert(self.tag@ =~= a.subrange(0, 8));
            assert(other.tag@ =~= b.subrange(0, 8));
            assert(self.tag =~= other.tag);
            assert(self.seller@ =~= a.subrange(8, 40));
            assert(other.seller@ =~= b.subrange(8, 40));
            assert(self.seller.bytes =~= other.seller.bytes);
            assert(self.asset_id@ =~= a.subrange(40, 72));
            assert(other.asset_id@ =~= b.subrange(40, 72));
            assert(self.asset_id.bytes =~= other.asset_id.bytes);
            assert(u64_le(self.price) =~= a.subrange(72, 80));
            assert(u64_le(other.price) =~= b.subrange(72, 80));
            lemma_u64_le_read_back(self.price);
            lemma_u64_le_read_back(other.price);
        }
    }

    /// Lays the record out as it is persisted.
    pub fn to_bytes(&self) -> (data: Vec<u8>)
        ensures
            data@ == self.encoding(),
            data@.len() == ESCROW_STATE_SIZE,
    {
        let mut data: Vec<u8> = Vec::new();
        let mut i: usize = 0;
        while i < 8
            invariant
                i <= 8,
                data@ == self.tag@.subrange(0, i as int),
            decreases 8 - i,
        {
            data.push(self.tag[i]);
            assert(data@ =~= self.tag@.subrange(0, i + 1));
            i = i + 1;
        }
        i = 0;
        while i < 32
            invariant
                i <= 32,
                data@ == self.tag@ + self.seller@.subrange(0, i as int),
            decreases 32 - i,
        {
            data.push(self.seller.bytes[i]);
            assert(data@ =~= self.tag@ + self.seller@.subrange(0, i + 1));
            i = i + 1;
        }
        i = 0;
        while i < 32
            invariant
                i <= 32,
                data@ == self.tag@ + self.seller@ + self.asset_id@.subrange(0, i as int),
            decreases 32 - i,
        {
            data.push(self.asset_id.bytes[i]);
            assert(data@ =~= self.tag@ + self.seller@ + self.asset_id@.subrange(0, i + 1));
            i = i + 1;
        }
        assert(data@ =~= self.tag@ + self.seller@ + self.asset_id@);
        push_u64_le(&mut data, self.price);
        data
    }

    /// Reads a record from the data of a custodial account. The data has to be
    /// exactly one record long; the record that comes back is the one with that
    /// encoding.
    pub fn from_bytes(data: &[u8]) -> (record: Option<EscrowRecord>)
        ensures
            record is Some <==> data@.len() == ESCROW_STATE_SIZE,
            record matches Some(record) ==> record.encoding() == data@,
    {
        if data.len() != ESCROW_STATE_SIZE {
            return None;
        }
        let mut tag: [u8; 8] = [0u8; 8];
        let mut seller: [u8; 32] = [0u8; 32];
        let mut asset_id: [u8; 32] = [0u8; 32];
        let mut i: usize = 0;
        while i < 8
            invariant
                i <= 8,
                data@.len() == 80,
                forall|k: int| 0 <= k < i ==> tag[k] == data@[k],
            decreases 8 - i,
        {
            tag[i] = data[i];
            i = i + 1;
        }
        i = 0;
        while i < 32
            invariant
                i <= 32,
                data@.len() == 80,
                forall|k: int| 0 <= k < i ==> seller[k] == data@[8 + k],
                forall|k: int| 0 <= k < i ==> asset_id[k] == data@[40 + k],
            decreases 32 - i,
        {
            seller[i] = data[8 + i];
            asset_id[i] = data[40 + i];
            i = i + 1;
        }
        let price = read_u64_le(data, 72);
        let record = EscrowRecord {
            tag,
            seller: Address::new(seller),
            asset_id: Address::new(asset_id),
            price,
        };
        proof {
            lemma_u64_from_le_write_back(data@.subrange(72, 80));
            assert(record.encoding() =~= data@);
        }
        Some(record)
    }
}

} // verus!
