//! The authority deriver: from a namespace label and a signer's identity
//! to the program-controlled identity and its bump.

use vstd::prelude::*;
use anchor_lang::solana_program::pubkey::Pubkey;
use anchor_lang::solana_program::pubkey::PubkeyError;
use crate::error::DispatchError;
use crate::identity::lemma_identity_by_bytes;
use crate::identity::Identity;

verus! {

/// Longest seed, in bytes, that the platform hashes into an address.
pub const MAX_SEED_LEN: usize = 32;

/// The first bump that a derivation tries; it then counts down to 1.
pub const FIRST_BUMP: u8 = 255;

/// Why the platform gave no address for a list of seeds.
#[derive(Clone, Copy, Debug, PartialEq, Eq, Structural)]
pub enum AddressError {
    /// A seed is longer than [`MAX_SEED_LEN`].
    SeedsTooLong,
    /// The hash of the seeds is a point of the curve, so a private key
    /// could exist for it.
    OnCurve,
    /// The platform's third error kind; address creation never reports it.
    IllegalOwner,
}

/// The address that the platform hashes `seeds` and `program` into, or
/// `None` where that hash is a point of the curve.
pub uninterp spec fn off_curve_address(seeds: Seq<Seq<u8>>, program: Seq<u8>) -> Option<Seq<u8>>;

/// Whether a seed is short enough for the platform to hash.
pub open spec fn seed_fits(seed: Seq<u8>) -> bool {
    seed.len() <= MAX_SEED_LEN
}

/// The seed list of a derivation: the label, the signer's identity, the bump.
pub open spec fn bump_seeds(namespace: Seq<u8>, seed: Seq<u8>, bump: u8) -> Seq<Seq<u8>> {
    seq![namespace, seed, seq![bump]]
}

/// The address that one bump gives, if it gives one.
pub open spec fn address_at(namespace: Seq<u8>, seed: Seq<u8>, program: Seq<u8>, bump: u8) -> Option<
    Seq<u8>,
> {
    if seed_fits(namespace) && seed_fits(seed) {
        off_curve_address(bump_seeds(namespace, seed, bump), program)
    } else {
        None
    }
}

/// `bump` is the highest bump from 255 down to 1 that gives an address, and
/// `address` is the address it gives.
pub open spec fn is_derivation(
    namespace: Seq<u8>,
    seed: Seq<u8>,
    program: Seq<u8>,
    address: Seq<u8>,
    bump: u8,
) -> bool {
    &&& bump >= 1
    &&& address_at(namespace, seed, program, bump) == Some(address)
    &&& forall|higher: u8|
        bump < higher ==> #[trigger] address_at(namespace, seed, program, higher) is None
}

/// No bump from 255 down to 1 gives an address.
pub open spec fn is_exhausted(namespace: Seq<u8>, seed: Seq<u8>, program: Seq<u8>) -> bool {
    forall|bump: u8| bump >= 1 ==> #[trigger] address_at(namespace, seed, program, bump) is None
}

/// The derived address and its bump, or `None` where the range is exhausted.
pub open spec fn derivation(namespace: Seq<u8>, seed: Seq<u8>, program: Seq<u8>) -> Option<
    (Seq<u8>, u8),
> {
    if exists|address: Seq<u8>, bump: u8| is_derivation(namespace, seed, program, address, bump) {
        Some(
            choose|address: Seq<u8>, bump: u8|
                is_derivation(namespace, seed, program, address, bump),
        )
    } else {
        None
    }
}

/// Calls `Pubkey::create_program_address` on the seeds `[namespace, seed,
/// [bump]]`.
///
/// Trusted: with three seeds, of which only the label can be too long, the
/// platform answers `MaxSeedLengthExceeded` exactly when the label exceeds
/// [`MAX_SEED_LEN`]; otherwise it hashes seeds and program and answers
/// `InvalidSeeds` when the hash lies on the curve, and the hash as the
/// address when it does not. The hash is a function of seeds and program
/// alone.
#[verifier::external_body]
fn address_for_bump(
    namespace: &[u8],
    seed: &Identity,
    bump: u8,
    program: &Identity,
) -> (r: Result<Identity, AddressError>)
    ensures
        r is Ok ==> seed_fits(namespace@),
        r matches Ok(address) ==> off_curve_address(bump_seeds(namespace@, seed@, bump), program@)
            == Some(address@),
        r matches Err(e) ==> e == (if seed_fits(namespace@) {
            AddressError::OnCurve
        } else {
            AddressError::SeedsTooLong
        }),
        r is Err && seed_fits(namespace@) ==> off_curve_address(
            bump_seeds(namespace@, seed@, bump),
            program@,
        ) is None,
{
    let program_id = Pubkey::new_from_array(program.bytes);
    match Pubkey::create_program_address(&[namespace, &seed.bytes, &[bump]], &program_id) {
        Ok(address) => Ok(Identity { bytes: address.to_bytes() }),
        Err(PubkeyError::MaxSeedLengthExceeded) => Err(AddressError::SeedsTooLong),
        Err(PubkeyError::InvalidSeeds) => Err(AddressError::OnCurve),
        Err(PubkeyError::IllegalOwner) => Err(AddressError::IllegalOwner),
    }
}

/// What a derived authority is made of.
pub struct AuthorityView {
    pub namespace: Seq<u8>,
    pub seed: Identity,
    pub program: Identity,
    pub address: Identity,
    pub bump: u8,
}

/// The seed tuple that accompanies a delegated call, from which the runtime
/// derives the authority again to see that the calling program controls it.
#[derive(Clone, Debug, PartialEq, Eq)]
pub struct Capsule {
    pub namespace: Vec<u8>,
    pub seed: Identity,
    pub bump: u8,
}

/// A [`Capsule`] as a mathematical value.
pub struct CapsuleView {
    pub namespace: Seq<u8>,
    pub seed: Identity,
    pub bump: u8,
}

impl View for Capsule {
    type V = CapsuleView;

    open spec fn view(&self) -> CapsuleView {
        CapsuleView { namespace: self.namespace@, seed: self.seed, bump: self.bump }
    }
}

impl CapsuleView {
    /// The capsule's seeds derive `authority` under `program`: the program
    /// controls that identity.
    pub open spec fn proves_control(self, program: Identity, authority: Identity) -> bool {
        address_at(self.namespace, self.seed@, program@, self.bump) == Some(authority@)
    }
}

/// The byte runs that a list of seeds holds.
pub open spec fn seed_list(seeds: Seq<Vec<u8>>) -> Seq<Seq<u8>> {
    Seq::new(seeds.len(), |i: int| seeds[i]@)
}

impl Capsule {
    /// The seeds in the order in which the runtime hashes them: the label,
    /// the signer's identity, the bump.
    pub fn seeds(&self) -> (seeds: Vec<Vec<u8>>)
        ensures
            seed_list(seeds@) == bump_seeds(self@.namespace, self@.seed@, self@.bump),
    {
        let mut bump: Vec<u8> = Vec::new();
        bump.push(self.bump);
        let mut seeds: Vec<Vec<u8>> = Vec::new();
        seeds.push(copy_bytes(self.namespace.as_slice()));
        seeds.push(self.seed.to_vec());
        seeds.push(bump);
        assert(seeds@[2]@ =~= seq![self.bump]);
        assert(seed_list(seeds@) =~= bump_seeds(self@.namespace, self@.seed@, self@.bump));
        seeds
    }

    /// Derives the address again from the capsule's seeds, as the runtime
    /// does, and says whether it is `authority`.
    pub fn controls(&self, program: &Identity, authority: &Identity) -> (held: bool)
        ensures
            held == self@.proves_control(*program, *authority),
    {
        match address_for_bump(self.namespace.as_slice(), &self.seed, self.bump, program) {
            Ok(address) => address.same(authority),
            Err(_) => false,
        }
    }
}

/// A derived authority: the capability to sign as a program-controlled
/// identity.
///
/// Only [`derive_authority`] makes one, so whoever holds one holds the outcome of a
/// derivation: its address is what its bump gives for its namespace, seed
/// and program, and no higher bump gives an address.
#[derive(Debug)]
pub struct DerivedAuthority {
    namespace: Vec<u8>,
    seed: Identity,
    program: Identity,
    address: Identity,
    bump: u8,
}

impl View for DerivedAuthority {
    type V = AuthorityView;

    closed spec fn view(&self) -> AuthorityView {
        AuthorityView {
            namespace: self.namespace@,
            seed: self.seed,
            program: self.program,
            address: self.address,
            bump: self.bump,
        }
    }
}

impl AuthorityView {
    /// The view is the outcome of the derivation from its own namespace,
    /// seed and program.
    pub open spec fn is_derived(self) -> bool {
        is_derivation(self.namespace, self.seed@, self.program@, self.address@, self.bump)
    }
}

impl DerivedAuthority {
    #[verifier::type_invariant]
    spec fn derived(self) -> bool {
        self@.is_derived()
    }

    /// The derived identity.
    pub fn address(&self) -> (address: Identity)
        ensures
            address == self@.address,
            self@.is_derived(),
    {
        proof {
            use_type_invariant(self);
        }
        self.address
    }

    /// The bump that the derivation settled on.
    pub fn bump(&self) -> (bump: u8)
        ensures
            bump == self@.bump,
            bump >= 1,
            self@.is_derived(),
    {
        proof {
            use_type_invariant(self);
        }
        self.bump
    }

    /// The signer's identity that the authority was derived from.
    pub fn seed(&self) -> (seed: Identity)
        ensures
            seed == self@.seed,
    {
        self.seed
    }

    /// The program that controls the authority.
    pub fn program(&self) -> (program: Identity)
        ensures
            program == self@.program,
    {
        self.program
    }

    /// The namespace label of the derivation.
    pub fn namespace(&self) -> (namespace: &Vec<u8>)
        ensures
            namespace@ == self@.namespace,
    {
        &self.namespace
    }

    /// The proof-of-control capsule for this authority.
    pub fn capsule(&self) -> (capsule: Capsule)
        ensures
            capsule@.namespace == self@.namespace,
            capsule@.seed == self@.seed,
            capsule@.bump == self@.bump,
            capsule@.proves_control(self@.program, self@.address),
    {
        proof {
            use_type_invariant(self);
        }
        Capsule { namespace: copy_bytes(self.namespace.as_slice()), seed: self.seed, bump: self.bump }
    }
}

/// An owned copy of a run of bytes.
pub(crate) fn copy_bytes(bytes: &[u8]) -> (copy: Vec<u8>)
    ensures
        copy@ == bytes@,
{
    let mut copy: Vec<u8> = Vec::new();
    let mut i: usize = 0;
    while i < bytes.len()
        invariant
            i <= bytes.len(),
            copy@.len() == i,
            forall|k: int| 0 <= k < i ==> copy@[k] == bytes@[k],
        decreases bytes.len() - i,
    {
        copy.push(bytes[i]);
        i = i + 1;
    }
    assert(copy@ =~= bytes@);
    copy
}

/// Derives the program-controlled authority for a namespace label and a
/// signer's identity.
///
/// Bumps are tried from 255 down to 1; the first that gives an address off
/// the curve settles the derivation. Where none does, the derivation is
/// exhausted.
pub fn derive_authority(
    namespace: &[u8],
    seed: &Identity,
    program: &Identity,
) -> (r: Result<DerivedAuthority, DispatchError>)
    ensures
        match r {
            Ok(authority) => {
                &&& derivation(namespace@, seed@, program@) == Some(
                    (authority@.address@, authority@.bump),
                )
                &&& authority@.is_derived()
                &&& authority@.namespace == namespace@
                &&& authority@.seed == *seed
                &&& authority@.program == *program
            },
            Err(e) => {
                &&& e == DispatchError::DerivationExhausted
                &&& derivation(namespace@, seed@, program@) is None
                &&& is_exhausted(namespace@, seed@, program@)
            },
        },
{
    let mut bump: u8 = FIRST_BUMP;
    while bump >= 1
        invariant
            forall|higher: u8|
                bump < higher ==> #[trigger] address_at(namespace@, seed@, program@, higher)
                    is None,
        decreases bump,
    {
        match address_for_bump(namespace, seed, bump, program) {
            Ok(address) => {
                proof {
                    lemma_derivation_found(namespace@, seed@, program@, address@, bump);
                }
                return Ok(
                    DerivedAuthority {
                        namespace: copy_bytes(namespace),
                        seed: *seed,
                        program: *program,
                        address,
                        bump,
                    },
                );
            },
            Err(AddressError::OnCurve) => {},
            Err(_) => {
                proof {
                    lemma_exhausted_has_no_derivation(namespace@, seed@, program@);
                }
                return Err(DispatchError::DerivationExhausted);
            },
        }
        bump = bump - 1;
    }
    proof {
        lemma_exhausted_has_no_derivation(namespace@, seed@, program@);
    }
    Err(DispatchError::DerivationExhausted)
}

/// Determinism: a namespace, a seed and a program have at most one derived
/// address and bump, so that deriving again gives the same pair.
pub proof fn lemma_derivation_deterministic(
    namespace: Seq<u8>,
    seed: Seq<u8>,
    program: Seq<u8>,
    first_address: Seq<u8>,
    first_bump: u8,
    second_address: Seq<u8>,
    second_bump: u8,
)
    requires
        is_derivation(namespace, seed, program, first_address, first_bump),
        is_derivation(namespace, seed, program, second_address, second_bump),
    ensures
        first_address == second_address,
        first_bump == second_bump,
{
    if first_bump < second_bump {
        assert(address_at(namespace, seed, program, second_bump) is None);
    }
    if second_bump < first_bump {
        assert(address_at(namespace, seed, program, first_bump) is None);
    }
}

/// Determinism, of whole authorities: two authorities derived from the same
/// namespace, seed and program are one and the same.
pub proof fn lemma_authorities_agree(first: AuthorityView, second: AuthorityView)
    requires
        first.is_derived(),
        second.is_derived(),
        first.namespace == second.namespace,
        first.seed == second.seed,
        first.program == second.program,
    ensures
        first == second,
{
    lemma_derivation_deterministic(
        first.namespace,
        first.seed@,
        first.program@,
        first.address@,
        first.bump,
        second.address@,
        second.bump,
    );
    lemma_identity_by_bytes(first.address, second.address);
}

/// A pair that meets [`is_derivation`] is what [`derivation`] names.
pub proof fn lemma_derivation_found(
    namespace: Seq<u8>,
    seed: Seq<u8>,
    program: Seq<u8>,
    address: Seq<u8>,
    bump: u8,
)
    requires
        is_derivation(namespace, seed, program, address, bump),
    ensures
        derivation(namespace, seed, program) == Some((address, bump)),
{
    let (a, b) = choose|a: Seq<u8>, b: u8| is_derivation(namespace, seed, program, a, b);
    lemma_derivation_deterministic(namespace, seed, program, address, bump, a, b);
}

/// Where no bump gives an address, [`derivation`] names nothing.
pub proof fn lemma_exhausted_has_no_derivation(namespace: Seq<u8>, seed: Seq<u8>, program: Seq<u8>)
    requires
        is_exhausted(namespace, seed, program),
    ensures
        derivation(namespace, seed, program) is None,
{
    assert forall|a: Seq<u8>, b: u8| !is_derivation(namespace, seed, program, a, b) by {
        if b >= 1 {
            assert(address_at(namespace, seed, program, b) is None);
        }
    }
}

} // verus!
