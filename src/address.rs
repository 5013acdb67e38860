use vstd::prelude::*;

verus! {

/// An account identity: 32 opaque bytes.
pub type Pubkey = [u8; 32];

/// The canonical address of a seed list under a program id. The list holds
/// every seed that is hashed, the discriminant byte included as a last seed
/// of one byte.
pub uninterp spec fn program_address(seeds: Seq<Seq<u8>>, program_id: Seq<u8>) -> Seq<u8>;

pub open spec fn seeds_view<const N: usize>(seeds: [&[u8]; N]) -> Seq<Seq<u8>> {
    seeds@.map_values(|s: &[u8]| s@)
}

/// Relies on pinocchio_pubkey::derive_address_const: the address is the
/// SHA-256 digest of the seeds, then the bump byte, then the program id and
/// the marker "ProgramDerivedAddress", so it is a function of these alone,
/// and a bump handed over as `Some(b)` is hashed exactly as a last seed `[b]`
/// would be. It asserts at compile time that fewer than 16 seeds are given.
/// It computes the digest in plain Rust and does not check that the result
/// lies off the curve: a record at an on-curve address could not have been
/// created by the program, since the runtime signs for no such address.
#[verifier::external_body]
fn derive_address<const N: usize>(seeds: &[&[u8]; N], bump: u8, program_id: &Pubkey) -> (r: Pubkey)
    requires
        N < 16,
    ensures
        r@ == program_address(seeds_view(*seeds).push(seq![bump]), program_id@),
{
    pinocchio_pubkey::derive_address_const(seeds, Some(bump), program_id)
}

/// The domain tag "escrow".
pub open spec fn escrow_tag() -> Seq<u8> {
    seq![101u8, 115u8, 99u8, 114u8, 111u8, 119u8]
}

/// The domain tag "badge".
pub open spec fn badge_tag() -> Seq<u8> {
    seq![98u8, 97u8, 100u8, 103u8, 101u8]
}

/// The domain tag "client_multisig".
pub open spec fn multisig_tag() -> Seq<u8> {
    seq![
        99u8, 108u8, 105u8, 101u8, 110u8, 116u8, 95u8, 109u8,
        117u8, 108u8, 116u8, 105u8, 115u8, 105u8, 103u8,
    ]
}

/// Seeds of an escrow record: the tag, then the sender and the receiver.
pub open spec fn escrow_seeds(sender: Seq<u8>, receiver: Seq<u8>) -> Seq<Seq<u8>> {
    seq![escrow_tag(), sender, receiver]
}

/// Canonical address of the escrow between `sender` and `receiver` for the
/// discriminant `bump`.
pub open spec fn spec_escrow_address(sender: Seq<u8>, receiver: Seq<u8>, bump: u8, program_id: Seq<u8>) -> Seq<u8> {
    program_address(escrow_seeds(sender, receiver).push(seq![bump]), program_id)
}

/// The signing authority of an escrow: its seeds extended by the reference
/// seed, then the escrow's discriminant.
pub open spec fn spec_escrow_authority(
    sender: Seq<u8>,
    receiver: Seq<u8>,
    reference_seed: u8,
    bump: u8,
    program_id: Seq<u8>,
) -> Seq<u8> {
    program_address(
        escrow_seeds(sender, receiver).push(seq![reference_seed]).push(seq![bump]),
        program_id,
    )
}

/// Canonical address of a freelancer's badge.
pub open spec fn spec_badge_address(freelancer: Seq<u8>, bump: u8, program_id: Seq<u8>) -> Seq<u8> {
    program_address(seq![badge_tag(), freelancer, seq![bump]], program_id)
}

/// Canonical address of a client's multisig.
pub open spec fn spec_multisig_address(client: Seq<u8>, bump: u8, program_id: Seq<u8>) -> Seq<u8> {
    program_address(seq![multisig_tag(), client, seq![bump]], program_id)
}

fn escrow_tag_bytes() -> (r: [u8; 6])
    ensures
        r@ == escrow_tag(),
{
    let r: [u8; 6] = [101, 115, 99, 114, 111, 119];
    assert(r@ =~= escrow_tag());
    r
}

fn badge_tag_bytes() -> (r: [u8; 5])
    ensures
        r@ == badge_tag(),
{
    let r: [u8; 5] = [98, 97, 100, 103, 101];
    assert(r@ =~= badge_tag());
    r
}

fn multisig_tag_bytes() -> (r: [u8; 15])
    ensures
        r@ == multisig_tag(),
{
    let r: [u8; 15] = [99, 108, 105, 101, 110, 116, 95, 109, 117, 108, 116, 105, 115, 105, 103];
    assert(r@ =~= multisig_tag());
    r
}

/// Derives the canonical escrow address.
pub fn escrow_address(sender: &Pubkey, receiver: &Pubkey, bump: u8, program_id: &Pubkey) -> (r: Pubkey)
    ensures
        r@ == spec_escrow_address(sender@, receiver@, bump, program_id@),
{
    let tag = escrow_tag_bytes();
    let seeds: [&[u8]; 3] = [tag.as_slice(), sender.as_slice(), receiver.as_slice()];
    assert(seeds_view(seeds) =~= escrow_seeds(sender@, receiver@));
    derive_address(&seeds, bump, program_id)
}

/// Derives the escrow's signing authority: the identity under which the
/// program authorizes the transfer out of the escrow's funds. Its seeds add
/// the reference seed to those of the escrow's address, so it is a distinct
/// identity from the escrow record itself.
pub fn escrow_authority(
    sender: &Pubkey,
    receiver: &Pubkey,
    reference_seed: u8,
    bump: u8,
    program_id: &Pubkey,
) -> (r: Pubkey)
    ensures
        r@ == spec_escrow_authority(sender@, receiver@, reference_seed, bump, program_id@),
{
    let tag = escrow_tag_bytes();
    let reference: [u8; 1] = [reference_seed];
    let seeds: [&[u8]; 4] = [tag.as_slice(), sender.as_slice(), receiver.as_slice(), reference.as_slice()];
    assert(reference@ =~= seq![reference_seed]);
    assert(seeds_view(seeds) =~= escrow_seeds(sender@, receiver@).push(seq![reference_seed]));
    derive_address(&seeds, bump, program_id)
}

/// Derives the canonical badge address of a freelancer.
pub fn badge_address(freelancer: &Pubkey, bump: u8, program_id: &Pubkey) -> (r: Pubkey)
    ensures
        r@ == spec_badge_address(freelancer@, bump, program_id@),
{
    let tag = badge_tag_bytes();
    let seeds: [&[u8]; 2] = [tag.as_slice(), freelancer.as_slice()];
    assert(seeds_view(seeds).push(seq![bump]) =~= seq![badge_tag(), freelancer@, seq![bump]]);
    derive_address(&seeds, bump, program_id)
}

/// Derives the canonical multisig address of a client.
pub fn multisig_address(client: &Pubkey, bump: u8, program_id: &Pubkey) -> (r: Pubkey)
    ensures
        r@ == spec_multisig_address(client@, bump, program_id@),
{
    let tag = multisig_tag_bytes();
    let seeds: [&[u8]; 2] = [tag.as_slice(), client.as_slice()];
    assert(seeds_view(seeds).push(seq![bump]) =~= seq![multisig_tag(), client@, seq![bump]]);
    derive_address(&seeds, bump, program_id)
}

/// Two keys are equal exactly when their bytes are.
pub proof fn lemma_key_view_eq(a: Pubkey, b: Pubkey)
    ensures
        (a@ == b@) == (a == b),
{
    if a@ == b@ {
        assert(a =~= b);
    }
}

/// Byte-wise equality of two keys.
pub fn keys_equal(a: &Pubkey, b: &Pubkey) -> (r: bool)
    ensures
        r == (*a == *b),
        r == (a@ == b@),
{
    let mut i: usize = 0;
    while i < 32
        invariant
            i <= 32,
            forall|j: int| 0 <= j < i ==> a@[j] == b@[j],
        decreases 32 - i,
    {
        if a[i] != b[i] {
            assert(a@[i as int] != b@[i as int]);
            return false;
        }
        i = i + 1;
    }
    assert(a@ =~= b@);
    assert(*a =~= *b);
    true
}

} // verus!
