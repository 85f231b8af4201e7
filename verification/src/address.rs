use vstd::prelude::*;

verus! {

/// The domain tag under which custodial addresses are derived: the ASCII bytes of
/// `escrow`.
pub const ESCROW_SEED: [u8; 6] = [101, 115, 99, 114, 111, 119];

/// Address of the system program, which creates accounts and moves native currency.
pub const SYSTEM_PROGRAM_ID: [u8; 32] = [
    0, 0, 0, 0, 0, 0, 0, 0, 0, 0, 0, 0, 0, 0, 0, 0,
    0, 0, 0, 0, 0, 0, 0, 0, 0, 0, 0, 0, 0, 0, 0, 0,
];

/// Address of the token program, which keeps the holding accounts.
pub const TOKEN_PROGRAM_ID: [u8; 32] = [
    6, 221, 246, 225, 215, 101, 161, 147, 217, 203, 225, 70, 206, 235, 121, 172,
    28, 180, 133, 237, 95, 91, 55, 145, 58, 140, 245, 133, 126, 255, 0, 169,
];

/// Address of the associated-token-account program, which creates holding accounts.
pub const ASSOCIATED_TOKEN_PROGRAM_ID: [u8; 32] = [
    140, 151, 37, 143, 78, 36, 137, 241, 187, 61, 16, 41, 20, 142, 13, 131,
    11, 90, 19, 153, 218, 255, 16, 132, 4, 142, 123, 216, 219, 233, 248, 89,
];

/// A 32-byte ledger address: of an account, of an asset type or of a program.
#[derive(Clone, Copy, Debug, PartialEq, Eq, Hash)]
pub struct Address {
    pub bytes: [u8; 32],
}

impl View for Address {
    type V = Seq<u8>;

    open spec fn view(&self) -> Seq<u8> {
        self.bytes@
    }
}

impl Address {
    pub fn new(bytes: [u8; 32]) -> (address: Address)
        ensures
            address.bytes == bytes,
            address@ == bytes@,
    {
        Address { bytes }
    }

    /// Whether two addresses hold the same 32 bytes.
    pub fn same(&self, other: &Address) -> (same: bool)
        ensures
            same == (self@ == other@),
            same == (*self == *other),
    {
        let mut i: usize = 0;
        while i < 32
            invariant
                i <= 32,
                forall|k: int| 0 <= k < i ==> self.bytes[k] == other.bytes[k],
            decreases 32 - i,
        {
            if self.bytes[i] != other.bytes[i] {
                assert(self@[i as int] != other@[i as int]);
                return false;
            }
            i = i + 1;
        }
        assert(self.bytes =~= other.bytes);
        true
    }

    /// The address as a byte vector, as a seed list takes it.
    pub fn to_vec(&self) -> (bytes: Vec<u8>)
        ensures
            bytes@ == self@,
    {
        let mut bytes: Vec<u8> = Vec::new();
        let mut i: usize = 0;
        while i < 32
            invariant
                i <= 32,
                bytes@ == self@.subrange(0, i as int),
            decreases 32 - i,
        {
            bytes.push(self.bytes[i]);
            assert(bytes@ =~= self@.subrange(0, i + 1));
            i = i + 1;
        }
        assert(bytes@ =~= self@);
        bytes
    }
}

/// The byte strings of a seed list, in order.
pub open spec fn seed_list(seeds: Seq<Vec<u8>>) -> Seq<Seq<u8>> {
    Seq::new(seeds.len(), |i: int| seeds[i]@)
}

/// What searching a program address for `seeds` under `program` yields: the address
/// and the bump that led to it, or `None` where no bump does. A pure function of the
/// seeds and the program.
pub uninterp spec fn program_address(seeds: Seq<Seq<u8>>, program: Seq<u8>) -> Option<(Seq<u8>, u8)>;

/// A search result with the address taken by its bytes.
pub open spec fn found_view(found: Option<(Address, u8)>) -> Option<(Seq<u8>, u8)> {
    match found {
        Some((address, bump)) => Some((address@, bump)),
        None => None,
    }
}

/// Calls `Pubkey::try_find_program_address` of `solana_program`, which hashes the
/// seeds, a bump, the program and a marker for bump 255 downward and returns the first
/// hash that is no point of the signing curve, with its bump. The contract only gives
/// that result its name, `program_address`; on seed lists that are too long the
/// function returns `None` and does not panic.
#[verifier::external_body]
pub(crate) fn try_find_program_address(seeds: &Vec<Vec<u8>>, program: &Address) -> (found: Option<(Address, u8)>)
    ensures
        found_view(found) == program_address(seed_list(seeds@), program@),
{
    let slices: Vec<&[u8]> = seeds.iter().map(|seed| seed.as_slice()).collect();
    let program_id = solana_program::pubkey::Pubkey::new_from_array(program.bytes);
    solana_program::pubkey::Pubkey::try_find_program_address(&slices, &program_id)
        .map(|(key, bump)| (Address { bytes: key.to_bytes() }, bump))
}

/// The custodial address of an asset under a program, with its bump: the program
/// address for the seeds `escrow` and the asset's identifier.
pub open spec fn escrow_address(program: Seq<u8>, asset_id: Seq<u8>) -> Option<(Seq<u8>, u8)> {
    program_address(seq![ESCROW_SEED@, asset_id], program)
}

/// Whether `address` is the custodial address of the asset under the program.
pub open spec fn is_escrow_address(program: Seq<u8>, asset_id: Seq<u8>, address: Seq<u8>) -> bool {
    escrow_address(program, asset_id) matches Some((custodian, _)) && custodian == address
}

/// The address of the account that the associated-token-account program keeps for
/// `wallet` and the asset `mint` under `token_program`: the program address for the
/// seeds wallet, token program and mint.
pub open spec fn associated_address(wallet: Seq<u8>, mint: Seq<u8>, token_program: Seq<u8>) -> Option<
    (Seq<u8>, u8),
> {
    program_address(seq![wallet, token_program, mint], ASSOCIATED_TOKEN_PROGRAM_ID@)
}

/// The address of the holding account that `wallet` has for the asset `mint`: its
/// associated address under the token program.
pub open spec fn holding_address(wallet: Seq<u8>, mint: Seq<u8>) -> Option<(Seq<u8>, u8)> {
    associated_address(wallet, mint, TOKEN_PROGRAM_ID@)
}

/// A seed that holds the given bytes.
pub fn seed_of(bytes: &[u8]) -> (seed: Vec<u8>)
    ensures
        seed@ == bytes@,
{
    let mut seed: Vec<u8> = Vec::new();
    let mut i: usize = 0;
    while i < bytes.len()
        invariant
            i <= bytes.len(),
            seed@ == bytes@.subrange(0, i as int),
        decreases bytes.len() - i,
    {
        seed.push(bytes[i]);
        assert(seed@ =~= bytes@.subrange(0, i + 1));
        i = i + 1;
    }
    assert(seed@ =~= bytes@);
    seed
}

/// The authority of a program over the custodial account of an asset: the derived
/// address, and the seed tuple of domain tag, asset identifier and bump by which the
/// program signs for it. Only the derivation makes one, so each holds a derived
/// address with its own bump.
#[derive(Clone, Copy, Debug, PartialEq, Eq)]
pub struct DerivedAuthority {
    program_id: Address,
    asset_id: Address,
    address: Address,
    bump: u8,
}

/// A `DerivedAuthority` as plain values.
pub struct AuthorityView {
    pub program_id: Seq<u8>,
    pub asset_id: Seq<u8>,
    pub address: Seq<u8>,
    pub bump: u8,
}

impl AuthorityView {
    /// The three seeds, in the order in which the address is derived from them.
    pub open spec fn seeds(self) -> Seq<Seq<u8>> {
        seq![ESCROW_SEED@, self.asset_id, seq![self.bump]]
    }

    /// Whether the address and the bump are those that the derivation finds for the
    /// asset under the program.
    pub open spec fn is_derived(self) -> bool {
        escrow_address(self.program_id, self.asset_id) == Some((self.address, self.bump))
    }
}

impl View for DerivedAuthority {
    type V = AuthorityView;

    closed spec fn view(&self) -> AuthorityView {
        AuthorityView {
            program_id: self.program_id@,
            asset_id: self.asset_id@,
            address: self.address@,
            bump: self.bump,
        }
    }
}

impl DerivedAuthority {
    #[verifier::type_invariant]
    spec fn well_formed(self) -> bool {
        self@.is_derived()
    }

    /// The program that holds the authority.
    pub fn program_id(&self) -> (program_id: Address)
        ensures
            program_id@ == self@.program_id,
    {
        self.program_id
    }

    /// The asset whose custodial account the authority is over.
    pub fn asset_id(&self) -> (asset_id: Address)
        ensures
            asset_id@ == self@.asset_id,
    {
        self.asset_id
    }

    /// The custodial address. It is always the derived one.
    pub fn address(&self) -> (address: Address)
        ensures
            address@ == self@.address,
            self@.is_derived(),
    {
        proof {
            use_type_invariant(self);
        }
        self.address
    }

    /// The bump of the custodial address. It is always the derived one.
    pub fn bump(&self) -> (bump: u8)
        ensures
            bump == self@.bump,
            self@.is_derived(),
    {
        proof {
            use_type_invariant(self);
        }
        self.bump
    }

    /// The three seeds to hand to the ledger in place of a signature. They are
    /// always those of a derived address.
    pub fn seeds(&self) -> (seeds: Vec<Vec<u8>>)
        ensures
            seed_list(seeds@) == self@.seeds(),
            self@.is_derived(),
    {
        proof {
            use_type_invariant(self);
        }
        let bump: Vec<u8> = vec![self.bump];
        assert(bump@ =~= seq![self.bump]);
        let seeds: Vec<Vec<u8>> = vec![
            seed_of(ESCROW_SEED.as_slice()),
            self.asset_id.to_vec(),
            bump,
        ];
        assert(seed_list(seeds@) =~= self@.seeds());
        seeds
    }
}

/// What the derivation gives for a program and an asset, as plain values: the
/// authority over the custodial address, or nothing where there is no address.
pub open spec fn derivation(program: Seq<u8>, asset_id: Seq<u8>) -> Option<AuthorityView> {
    match escrow_address(program, asset_id) {
        Some((address, bump)) => Some(AuthorityView { program_id: program, asset_id, address, bump }),
        None => None,
    }
}

/// A derivation's result as plain values.
pub open spec fn derived_view(found: Option<DerivedAuthority>) -> Option<AuthorityView> {
    match found {
        Some(authority) => Some(authority@),
        None => None,
    }
}

/// Derives the custodial address of `asset_id` under `program_id`, and with it the
/// authority to sign for it.
pub fn find_escrow_address(program_id: &Address, asset_id: &Address) -> (found: Option<DerivedAuthority>)
    ensures
        derived_view(found) == derivation(program_id@, asset_id@),
{
    let seeds: Vec<Vec<u8>> = vec![seed_of(ESCROW_SEED.as_slice()), asset_id.to_vec()];
    assert(seed_list(seeds@) =~= seq![ESCROW_SEED@, asset_id@]);
    match try_find_program_address(&seeds, program_id) {
        Some((address, bump)) => Some(
            DerivedAuthority { program_id: *program_id, asset_id: *asset_id, address, bump },
        ),
        None => None,
    }
}

/// The derivation is a function of the program and the asset: any two results that
/// it gives for one program and one asset are the same address with the same bump,
/// or both nothing.
pub proof fn lemma_derivation_is_deterministic(
    program_id: Address,
    asset_id: Address,
    first: Option<DerivedAuthority>,
    second: Option<DerivedAuthority>,
)
    requires
        derived_view(first) == derivation(program_id@, asset_id@),
        derived_view(second) == derivation(program_id@, asset_id@),
    ensures
        first == second,
{
    if let Some(p) = first {
        if let Some(q) = second {
            assert(p@ == q@);
            assert(p.program_id.bytes =~= q.program_id.bytes);
            assert(p.asset_id.bytes =~= q.asset_id.bytes);
            assert(p.address.bytes =~= q.address.bytes);
        }
    }
}

/// Derives the address of the holding account of `wallet` for the asset `mint`, and
/// its bump.
pub fn find_holding_address(wallet: &Address, mint: &Address) -> (found: Option<(Address, u8)>)
    ensures
        found_view(found) == holding_address(wallet@, mint@),
{
    let seeds: Vec<Vec<u8>> = vec![
        wallet.to_vec(),
        seed_of(TOKEN_PROGRAM_ID.as_slice()),
        mint.to_vec(),
    ];
    assert(seed_list(seeds@) =~= seq![wallet@, TOKEN_PROGRAM_ID@, mint@]);
    try_find_program_address(&seeds, &Address::new(ASSOCIATED_TOKEN_PROGRAM_ID))
}

} // verus!
