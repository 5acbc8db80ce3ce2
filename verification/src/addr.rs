//! Address derivation and the authority model.
//!
//! A derived address is computed from an ordered sequence of byte-string
//! seeds and a program identity by a one-way hash that additionally rejects
//! results that are valid curve points, so no private key can ever claim the
//! address.  The derivation itself is performed by the host's address
//! library; this module states its behaviour through the uninterpreted
//! function [`candidate_address`] and builds the canonical-derivation and
//! verification logic on top of it.

use vstd::prelude::*;

use crate::errors::CustodyError;

verus! {

/// A 32-byte account address.
pub struct Address {
    pub bytes: Vec<u8>,
}

impl View for Address {
    type V = Seq<u8>;

    open spec fn view(&self) -> Seq<u8> {
        self.bytes@
    }
}

impl Address {
    /// An address is well formed when it holds exactly 32 bytes.
    pub open spec fn wf(&self) -> bool {
        self.bytes@.len() == 32
    }

    /// Wraps raw bytes as an address; rejects any length other than 32.
    pub fn new(bytes: Vec<u8>) -> (r: Result<Address, CustodyError>)
        ensures
            bytes@.len() == 32 ==> (r matches Ok(a) && a@ == bytes@ && a.wf()),
            bytes@.len() != 32 ==> r == Err::<Address, CustodyError>(
                CustodyError::InvalidInstructionData,
            ),
    {
        if bytes.len() == 32 {
            Ok(Address { bytes })
        } else {
            Err(CustodyError::InvalidInstructionData)
        }
    }

    /// An owned copy of this address.
    pub fn dup(&self) -> (r: Address)
        ensures
            r@ == self@,
    {
        Address { bytes: vstd::slice::slice_to_vec(self.bytes.as_slice()) }
    }

    /// Byte-for-byte equality with another address.
    pub fn same(&self, other: &Address) -> (r: bool)
        ensures
            r == (self@ == other@),
    {
        if self.bytes.len() != other.bytes.len() {
            return false;
        }
        let n = self.bytes.len();
        let mut i: usize = 0;
        while i < n
            invariant
                n == self.bytes@.len(),
                n == other.bytes@.len(),
                i <= n,
                forall|j: int| 0 <= j < i ==> self.bytes@[j] == other.bytes@[j],
            decreases n - i,
        {
            if self.bytes[i] != other.bytes[i] {
                return false;
            }
            i += 1;
        }
        assert(self@ =~= other@);
        true
    }
}

/// The ordered seed sequence as a mathematical value.
pub open spec fn seeds_view(seeds: Seq<Vec<u8>>) -> Seq<Seq<u8>> {
    seeds.map_values(|s: Vec<u8>| s@)
}

/// The derivation accepts at most 15 caller seeds (one slot is reserved for
/// the bump byte) of at most 32 bytes each.
pub open spec fn seeds_ok(seeds: Seq<Seq<u8>>) -> bool {
    &&& seeds.len() < 16
    &&& forall|i: int| 0 <= i < seeds.len() ==> (#[trigger] seeds[i]).len() <= 32
}

/// What the host's derivation hash yields for a full seed sequence (caller
/// seeds plus bump byte, where one is used): `Some(address)` when the hash is
/// an off-curve point, `None` when the result is a valid curve point or the
/// seed sequence is out of range.
pub uninterp spec fn candidate_address(seeds: Seq<Seq<u8>>, program_id: Seq<u8>) -> Option<Seq<u8>>;

/// `(addr, bump)` is the canonical derivation for `(seeds, program_id)`:
/// `bump` is the highest byte in 255..=1 whose candidate hash is off-curve,
/// and `addr` is that candidate.
pub open spec fn is_canonical_pair(
    seeds: Seq<Seq<u8>>,
    program_id: Seq<u8>,
    addr: Seq<u8>,
    bump: u8,
) -> bool {
    &&& 1 <= bump
    &&& candidate_address(seeds.push(seq![bump]), program_id) == Some(addr)
    &&& forall|b2: u8|
        bump < b2 ==> (#[trigger] candidate_address(seeds.push(seq![b2]), program_id)) is None
}

/// Some bump makes `addr` the canonical derivation for `(seeds, program_id)`.
pub open spec fn is_canonical_address(
    seeds: Seq<Seq<u8>>,
    program_id: Seq<u8>,
    addr: Seq<u8>,
) -> bool {
    exists|b: u8| is_canonical_pair(seeds, program_id, addr, b)
}

/// Some `(address, bump)` pair is canonical for `(seeds, program_id)`.
/// False only in the astronomically unlikely event that every bump in
/// 255..=1 hashes onto the curve.
pub open spec fn canonical_exists(seeds: Seq<Seq<u8>>, program_id: Seq<u8>) -> bool {
    exists|a: Seq<u8>, b: u8| is_canonical_pair(seeds, program_id, a, b)
}

/// At most one `(address, bump)` pair is canonical for given seeds and
/// program identity: a spoofed pair that reuses the seeds under another bump
/// can never pass the canonical check.
pub proof fn lemma_canonical_pair_unique(
    seeds: Seq<Seq<u8>>,
    program_id: Seq<u8>,
    a1: Seq<u8>,
    b1: u8,
    a2: Seq<u8>,
    b2: u8,
)
    requires
        is_canonical_pair(seeds, program_id, a1, b1),
        is_canonical_pair(seeds, program_id, a2, b2),
    ensures
        a1 == a2,
        b1 == b2,
{
    if b1 < b2 {
        assert(candidate_address(seeds.push(seq![b2]), program_id) is None);
        assert(false);
    }
    if b2 < b1 {
        assert(candidate_address(seeds.push(seq![b1]), program_id) is None);
        assert(false);
    }
}

/// Relies on `solana_program::pubkey::Pubkey::try_find_program_address`: it
/// walks bumps 255 down to 1, returns the first whose candidate hash is
/// off-curve together with that bump, and returns `None` when no bump
/// qualifies or the seed sequence is out of range.
#[verifier::external_body]
fn try_find_program_address(seeds: &Vec<Vec<u8>>, program_id: &Address) -> (r: Option<
    (Address, u8),
>)
    requires
        program_id.wf(),
    ensures
        r matches Some(p) ==> p.0.wf() && is_canonical_pair(
            seeds_view(seeds@),
            program_id@,
            p.0@,
            p.1,
        ),
        r is None && seeds_ok(seeds_view(seeds@)) ==> forall|b: u8|
            1 <= b ==> (#[trigger] candidate_address(
                seeds_view(seeds@).push(seq![b]),
                program_id@,
            )) is None,
        !seeds_ok(seeds_view(seeds@)) ==> r is None,
{
    let seed_refs: Vec<&[u8]> = seeds.iter().map(|s| s.as_slice()).collect();
    let pid = solana_program::pubkey::Pubkey::new_from_array(
        program_id.bytes.as_slice().try_into().unwrap(),
    );
    solana_program::pubkey::Pubkey::try_find_program_address(&seed_refs, &pid).map(|(k, b)| (
        Address { bytes: k.to_bytes().to_vec() },
        b,
    ))
}

/// Relies on `solana_program::pubkey::Pubkey::create_program_address`: the
/// derivation hash of the full seed sequence, or an error when the hash is a
/// valid curve point or the seed sequence is out of range.
#[verifier::external_body]
fn create_program_address(seeds: &Vec<Vec<u8>>, program_id: &Address) -> (r: Option<Address>)
    requires
        program_id.wf(),
    ensures
        r matches Some(a) ==> a.wf() && candidate_address(seeds_view(seeds@), program_id@)
            == Some(a@),
        r is None ==> candidate_address(seeds_view(seeds@), program_id@) is None,
{
    let seed_refs: Vec<&[u8]> = seeds.iter().map(|s| s.as_slice()).collect();
    let pid = solana_program::pubkey::Pubkey::new_from_array(
        program_id.bytes.as_slice().try_into().unwrap(),
    );
    solana_program::pubkey::Pubkey::create_program_address(&seed_refs, &pid).ok().map(|k| Address {
        bytes: k.to_bytes().to_vec(),
    })
}

/// Canonical derivation: the highest qualifying bump and its address, or
/// `None` when no bump in 255..=1 yields an off-curve candidate.
pub fn derive(seeds: &Vec<Vec<u8>>, program_id: &Address) -> (r: Option<(Address, u8)>)
    requires
        program_id.wf(),
        seeds_ok(seeds_view(seeds@)),
    ensures
        r matches Some(p) ==> p.0.wf() && is_canonical_pair(
            seeds_view(seeds@),
            program_id@,
            p.0@,
            p.1,
        ),
        r is None ==> forall|a: Seq<u8>, b: u8|
            !(#[trigger] is_canonical_pair(seeds_view(seeds@), program_id@, a, b)),
{
    let r = try_find_program_address(seeds, program_id);
    proof {
        if r is None {
            assert forall|a: Seq<u8>, b: u8|
                !(#[trigger] is_canonical_pair(seeds_view(seeds@), program_id@, a, b)) by {
                if is_canonical_pair(seeds_view(seeds@), program_id@, a, b) {
                    assert(candidate_address(seeds_view(seeds@).push(seq![b]), program_id@)
                        is None);
                }
            }
        }
    }
    r
}

/// Candidate derivation under a caller-supplied bump: the address derived
/// from `seeds ++ [bump]`, or `None` when that hash is on-curve or the seeds
/// are out of range.  Unlike [`derive`], this does not establish that `bump`
/// is canonical.
pub fn derive_with_bump(seeds: &Vec<Vec<u8>>, bump: u8, program_id: &Address) -> (r: Option<
    Address,
>)
    requires
        program_id.wf(),
    ensures
        r matches Some(a) ==> a.wf() && candidate_address(
            seeds_view(seeds@).push(seq![bump]),
            program_id@,
        ) == Some(a@),
        r is None ==> candidate_address(seeds_view(seeds@).push(seq![bump]), program_id@) is None,
{
    let mut full: Vec<Vec<u8>> = Vec::new();
    let mut i: usize = 0;
    while i < seeds.len()
        invariant
            i <= seeds.len(),
            full@.len() == i,
            forall|j: int| 0 <= j < i ==> full@[j]@ == seeds@[j]@,
        decreases seeds.len() - i,
    {
        full.push(vstd::slice::slice_to_vec(seeds[i].as_slice()));
        i += 1;
    }
    let mut bump_seed: Vec<u8> = Vec::new();
    bump_seed.push(bump);
    full.push(bump_seed);
    proof {
        assert(seeds_view(full@) =~= seeds_view(seeds@).push(seq![bump]));
    }
    create_program_address(&full, program_id)
}

/// Whether `(candidate, bump)` is exactly the canonical derivation of
/// `(seeds, program_id)`.  This is the only authorization-relevant address
/// check: an address that satisfies the hash formula under a non-canonical
/// bump is rejected.
pub fn verify(candidate: &Address, seeds: &Vec<Vec<u8>>, bump: u8, program_id: &Address) -> (r:
    bool)
    requires
        program_id.wf(),
        seeds_ok(seeds_view(seeds@)),
    ensures
        r == is_canonical_pair(seeds_view(seeds@), program_id@, candidate@, bump),
{
    match derive(seeds, program_id) {
        Some((addr, canonical_bump)) => {
            let r = candidate.same(&addr) && bump == canonical_bump;
            proof {
                if !r && is_canonical_pair(seeds_view(seeds@), program_id@, candidate@, bump) {
                    lemma_canonical_pair_unique(
                        seeds_view(seeds@),
                        program_id@,
                        candidate@,
                        bump,
                        addr@,
                        canonical_bump,
                    );
                }
            }
            r
        },
        None => false,
    }
}

/// Whether `candidate` is the canonical derived address for `(seeds,
/// program_id)` under some bump.  Used where an authorization check compares
/// an account's address against a fresh derivation.
pub fn check_canonical_address(
    candidate: &Address,
    seeds: &Vec<Vec<u8>>,
    program_id: &Address,
) -> (r: bool)
    requires
        program_id.wf(),
        seeds_ok(seeds_view(seeds@)),
    ensures
        r == is_canonical_address(seeds_view(seeds@), program_id@, candidate@),
{
    match derive(seeds, program_id) {
        Some((addr, canonical_bump)) => {
            let r = candidate.same(&addr);
            proof {
                if r {
                    assert(is_canonical_pair(
                        seeds_view(seeds@),
                        program_id@,
                        candidate@,
                        canonical_bump,
                    ));
                } else {
                    if is_canonical_address(seeds_view(seeds@), program_id@, candidate@) {
                        let b = choose|b: u8|
                            is_canonical_pair(seeds_view(seeds@), program_id@, candidate@, b);
                        lemma_canonical_pair_unique(
                            seeds_view(seeds@),
                            program_id@,
                            candidate@,
                            b,
                            addr@,
                            canonical_bump,
                        );
                    }
                }
            }
            r
        },
        None => false,
    }
}

/// The canonically derived pair verifies, and no other bump verifies the
/// same address — nor any other address the same bump.
pub proof fn lemma_verify_canonical_only(
    seeds: Seq<Seq<u8>>,
    program_id: Seq<u8>,
    addr: Seq<u8>,
    bump: u8,
)
    requires
        is_canonical_pair(seeds, program_id, addr, bump),
    ensures
        forall|b2: u8|
            b2 != bump ==> !(#[trigger] is_canonical_pair(seeds, program_id, addr, b2)),
        forall|a2: Seq<u8>|
            a2 != addr ==> !(#[trigger] is_canonical_pair(seeds, program_id, a2, bump)),
{
    assert forall|b2: u8|
        b2 != bump implies !(#[trigger] is_canonical_pair(seeds, program_id, addr, b2)) by {
        if is_canonical_pair(seeds, program_id, addr, b2) {
            lemma_canonical_pair_unique(seeds, program_id, addr, bump, addr, b2);
        }
    }
    assert forall|a2: Seq<u8>|
        a2 != addr implies !(#[trigger] is_canonical_pair(seeds, program_id, a2, bump)) by {
        if is_canonical_pair(seeds, program_id, a2, bump) {
            lemma_canonical_pair_unique(seeds, program_id, addr, bump, a2, bump);
        }
    }
}

} // verus!
