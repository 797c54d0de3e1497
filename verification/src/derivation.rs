use vstd::prelude::*;

verus! {

/// The address (and bump nonce) that the bump-seed search derives for a label
/// under a program id, or `None` when no bump in the search range yields a
/// valid derived address. A function of its arguments alone.
pub uninterp spec fn pda_find(label: Seq<u8>, program_id: Seq<u8>) -> Option<(Seq<u8>, u8)>;

/// The address derived from a label plus an explicit bump nonce under a
/// program id, or `None` when the derivation is invalid (seed too long, or
/// the hash lands on the curve). A function of its arguments alone.
pub uninterp spec fn pda_create(label: Seq<u8>, nonce: u8, program_id: Seq<u8>) -> Option<Seq<u8>>;

/// The fixed label under which the vault address is derived: the bytes of
/// `"program_vault"`.
pub open spec fn vault_label() -> Seq<u8> {
    seq![112u8, 114u8, 111u8, 103u8, 114u8, 97u8, 109u8, 95u8, 118u8, 97u8, 117u8, 108u8, 116u8]
}

/// The fixed vault label as a byte vector.
pub fn vault_label_bytes() -> (r: Vec<u8>)
    ensures
        r@ == vault_label(),
{
    let mut v: Vec<u8> = Vec::new();
    v.push(112u8);
    v.push(114u8);
    v.push(111u8);
    v.push(103u8);
    v.push(114u8);
    v.push(97u8);
    v.push(109u8);
    v.push(95u8);
    v.push(118u8);
    v.push(97u8);
    v.push(117u8);
    v.push(108u8);
    v.push(116u8);
    proof {
        assert(v@ =~= vault_label());
    }
    v
}

/// Relies on `Pubkey::try_find_program_address` (solana-program, re-exported
/// by anchor-lang): searching bump seeds downward from 255, it returns the
/// first `(address, bump)` for which `Pubkey::create_program_address` with
/// the bump appended to the seeds succeeds, and `None` if no bump works. The
/// result depends on the label and program id alone.
#[verifier::external_body]
pub(crate) fn try_find_vault_address(label: &Vec<u8>, program_id: &Vec<u8>) -> (r: Option<(Vec<u8>, u8)>)
    requires
        program_id@.len() == 32,
    ensures
        (match r {
            Some(p) => {
                &&& pda_find(label@, program_id@) == Some((p.0@, p.1))
                &&& pda_create(label@, p.1, program_id@) == Some(p.0@)
                &&& p.0@.len() == 32
            },
            None => pda_find(label@, program_id@) is None,
        }),
{
    let pid = anchor_lang::prelude::Pubkey::try_from(program_id.as_slice()).unwrap();
    match anchor_lang::prelude::Pubkey::try_find_program_address(&[label.as_slice()], &pid) {
        Some((addr, bump)) => Some((addr.to_bytes().to_vec(), bump)),
        None => None,
    }
}

/// Relies on `Pubkey::create_program_address` (solana-program, re-exported by
/// anchor-lang), called with the label and the bump nonce as the seeds: the
/// derived address is a function of label, nonce and program id alone; `None`
/// stands for its error result.
#[verifier::external_body]
pub(crate) fn create_vault_address(label: &Vec<u8>, nonce: u8, program_id: &Vec<u8>) -> (r: Option<Vec<u8>>)
    requires
        program_id@.len() == 32,
    ensures
        (match r {
            Some(v) => pda_create(label@, nonce, program_id@) == Some(v@) && v@.len() == 32,
            None => pda_create(label@, nonce, program_id@) is None,
        }),
{
    let pid = anchor_lang::prelude::Pubkey::try_from(program_id.as_slice()).unwrap();
    match anchor_lang::prelude::Pubkey::create_program_address(&[label.as_slice(), &[nonce]], &pid) {
        Ok(addr) => Some(addr.to_bytes().to_vec()),
        Err(_) => None,
    }
}

/// Law: authority derivation is deterministic — deriving twice from the same
/// label and nonce, under the same program id, yields the same address.
pub proof fn lemma_derivation_deterministic(
    label1: Seq<u8>,
    nonce1: u8,
    program_id1: Seq<u8>,
    label2: Seq<u8>,
    nonce2: u8,
    program_id2: Seq<u8>,
)
    requires
        label1 == label2,
        nonce1 == nonce2,
        program_id1 == program_id2,
    ensures
        pda_create(label1, nonce1, program_id1) == pda_create(label2, nonce2, program_id2),
{
}

} // verus!
