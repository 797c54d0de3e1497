use vstd::prelude::*;

use crate::derivation::create_vault_address;
use crate::derivation::pda_create;
use crate::derivation::pda_find;
use crate::derivation::try_find_vault_address;
use crate::derivation::vault_label;
use crate::derivation::vault_label_bytes;
use crate::errors::SolTokenManagerError;

verus! {

/// The identity comparison the authorization gate is built on: two
/// identities are the same exactly when their bytes are.
pub fn same_identity(a: &Vec<u8>, b: &Vec<u8>) -> (r: bool)
    ensures
        r == (a@ == b@),
{
    let r = *a == *b;
    proof {
        if a@ == b@ {
            assert(a@ =~= b@);
        }
        if r {
            assert(a@ =~= b@);
        }
    }
    r
}

/// The persisted registry: the administrator identity, the derived vault
/// address, and the bump nonce the derivation used. Written exactly once, at
/// initialization, and never mutated afterwards.
pub struct ProgramState {
    /// Identity of the sole account permitted to authorize withdrawals.
    pub admin: Vec<u8>,
    /// The deterministically derived address holding custodial funds.
    pub program_vault: Vec<u8>,
    /// The bump nonce under which `program_vault` was derived.
    pub program_vault_bump: u8,
}

impl ProgramState {
    /// The registry invariant: both identities are 32 bytes wide, and the
    /// vault address and nonce are exactly what the derivation yields for the
    /// fixed label under `program_id` — so the address can be re-derived
    /// bit-for-bit at every later operation.
    pub open spec fn wf(self, program_id: Seq<u8>) -> bool {
        &&& self.admin@.len() == 32
        &&& self.program_vault@.len() == 32
        &&& pda_find(vault_label(), program_id) == Some((self.program_vault@, self.program_vault_bump))
        &&& pda_create(vault_label(), self.program_vault_bump, program_id) == Some(self.program_vault@)
    }
}

/// Law: the derivation is deterministic, so any two well-formed registries
/// under the same program id register the same vault address and the same
/// nonce — re-deriving can never disagree with what was persisted.
pub proof fn lemma_registry_derivation_unique(
    s1: ProgramState,
    s2: ProgramState,
    program_id: Seq<u8>,
)
    requires
        s1.wf(program_id),
        s2.wf(program_id),
    ensures
        s1.program_vault@ == s2.program_vault@,
        s1.program_vault_bump == s2.program_vault_bump,
{
}

/// The whole vault: the program identity it runs under, the registry (absent
/// until `initialize`), and the custody balances. `vault_lamports` is the
/// native custody balance; `wsol_balance` is the intermediate holding the
/// swap stages into; `usdc_balance` is the output-asset holding, always
/// emptied to the caller before an operation ends.
pub struct SolTokenManager {
    pub program_id: Vec<u8>,
    pub state: Option<ProgramState>,
    pub vault_lamports: u64,
    pub wsol_balance: u64,
    pub usdc_balance: u64,
}

impl SolTokenManager {
    /// Well-formedness: the program id is an address, the registry (once
    /// created) satisfies its invariant, and no output-asset balance is
    /// retained between operations.
    pub open spec fn wf(self) -> bool {
        &&& self.program_id@.len() == 32
        &&& (self.state matches Some(st) ==> st.wf(self.program_id@))
        &&& self.usdc_balance == 0
    }

    pub open spec fn is_initialized(self) -> bool {
        self.state is Some
    }

    /// The registered administrator identity.
    pub open spec fn admin_id(self) -> Seq<u8>
        recommends
            self.is_initialized(),
    {
        self.state.unwrap().admin@
    }

    /// A fresh, uninitialized vault for a program identity.
    pub fn new(program_id: Vec<u8>) -> (r: SolTokenManager)
        requires
            program_id@.len() == 32,
        ensures
            r.wf(),
            !r.is_initialized(),
            r.program_id@ == program_id@,
            r.vault_lamports == 0,
            r.wsol_balance == 0,
            r.usdc_balance == 0,
    {
        SolTokenManager {
            program_id,
            state: None,
            vault_lamports: 0,
            wsol_balance: 0,
            usdc_balance: 0,
        }
    }

    /// Create the registry: derive the vault address and nonce from the fixed
    /// label, persist them together with `admin`. Callable exactly once — a
    /// second call fails with `AlreadyInitialized` and changes nothing.
    pub fn initialize(&mut self, admin: Vec<u8>) -> (r: Result<(), SolTokenManagerError>)
        requires
            old(self).wf(),
            admin@.len() == 32,
        ensures
            final(self).wf(),
            old(self).is_initialized() ==> {
                &&& r == Err::<(), SolTokenManagerError>(SolTokenManagerError::AlreadyInitialized)
                &&& *final(self) == *old(self)
            },
            !old(self).is_initialized() ==> (match pda_find(
                vault_label(),
                old(self).program_id@,
            ) {
                Some(p) => {
                    &&& r is Ok
                    &&& final(self).is_initialized()
                    &&& final(self).admin_id() == admin@
                    &&& final(self).state.unwrap().program_vault@ == p.0
                    &&& final(self).state.unwrap().program_vault_bump == p.1
                    &&& final(self).program_id@ == old(self).program_id@
                    &&& final(self).vault_lamports == old(self).vault_lamports
                    &&& final(self).wsol_balance == old(self).wsol_balance
                    &&& final(self).usdc_balance == old(self).usdc_balance
                },
                None => {
                    &&& r == Err::<(), SolTokenManagerError>(SolTokenManagerError::DerivationFailed)
                    &&& *final(self) == *old(self)
                },
            }),
    {
        if self.state.is_some() {
            return Err(SolTokenManagerError::AlreadyInitialized);
        }
        let label = vault_label_bytes();
        match try_find_vault_address(&label, &self.program_id) {
            Some((program_vault, program_vault_bump)) => {
                self.state = Some(ProgramState { admin, program_vault, program_vault_bump });
                Ok(())
            },
            None => Err(SolTokenManagerError::DerivationFailed),
        }
    }

    /// Re-derive the vault address from the fixed label and the persisted
    /// nonce. By the registry invariant this always succeeds and returns
    /// exactly the registered address — the derived authority every later
    /// operation signs with.
    pub fn rederive_vault_address(&self) -> (r: Vec<u8>)
        requires
            self.wf(),
            self.is_initialized(),
        ensures
            r@ == self.state.unwrap().program_vault@,
    {
        let label = vault_label_bytes();
        let st = self.state.as_ref().unwrap();
        create_vault_address(&label, st.program_vault_bump, &self.program_id).unwrap()
    }

    /// The authorization gate: does `caller` hold the registered admin
    /// identity?
    pub fn is_admin(&self, caller: &Vec<u8>) -> (r: bool)
        requires
            self.is_initialized(),
        ensures
            r == (caller@ == self.admin_id()),
    {
        let st = self.state.as_ref().unwrap();
        same_identity(caller, &st.admin)
    }
}

} // verus!
