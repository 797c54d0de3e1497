use vstd::prelude::*;

use crate::errors::SolTokenManagerError;
use crate::state::SolTokenManager;

verus! {

/// The vault after a deposit of `amount`: only the custody balance grows.
pub open spec fn after_deposit(s: SolTokenManager, amount: u64) -> SolTokenManager
    recommends
        s.vault_lamports + amount <= u64::MAX,
{
    SolTokenManager { vault_lamports: (s.vault_lamports + amount) as u64, ..s }
}

/// The vault after a withdrawal of `amount`: only the custody balance
/// shrinks.
pub open spec fn after_withdraw(s: SolTokenManager, amount: u64) -> SolTokenManager
    recommends
        amount <= s.vault_lamports,
{
    SolTokenManager { vault_lamports: (s.vault_lamports - amount) as u64, ..s }
}

impl SolTokenManager {
    /// Move `amount` from the caller's own balance into vault custody. Open
    /// to any caller; the only failure is the caller lacking the funds, which
    /// changes nothing. A zero amount is a successful no-op.
    pub fn deposit_sol(&mut self, caller_lamports: &mut u64, amount: u64) -> (r: Result<
        (),
        SolTokenManagerError,
    >)
        requires
            old(self).wf(),
            old(self).vault_lamports + amount <= u64::MAX,
        ensures
            final(self).wf(),
            *old(caller_lamports) >= amount ==> {
                &&& r is Ok
                &&& *final(self) == after_deposit(*old(self), amount)
                &&& *final(caller_lamports) == *old(caller_lamports) - amount
            },
            *old(caller_lamports) < amount ==> {
                &&& r == Err::<(), SolTokenManagerError>(SolTokenManagerError::InsufficientBalance)
                &&& *final(self) == *old(self)
                &&& *final(caller_lamports) == *old(caller_lamports)
            },
    {
        if *caller_lamports < amount {
            return Err(SolTokenManagerError::InsufficientBalance);
        }
        *caller_lamports = *caller_lamports - amount;
        self.vault_lamports = self.vault_lamports + amount;
        Ok(())
    }

    /// Move `amount` out of vault custody to the caller — the sole privileged
    /// operation. Succeeds if and only if the caller is the registered admin
    /// and custody covers the amount; the transfer out of the vault is signed
    /// by the re-derived vault authority. Any failure changes nothing.
    pub fn withdraw_sol(&mut self, caller: &Vec<u8>, caller_lamports: &mut u64, amount: u64) -> (r:
        Result<(), SolTokenManagerError>)
        requires
            old(self).wf(),
            old(self).is_initialized(),
            *old(caller_lamports) + amount <= u64::MAX,
        ensures
            final(self).wf(),
            caller@ != old(self).admin_id() ==> {
                &&& r == Err::<(), SolTokenManagerError>(SolTokenManagerError::Unauthorized)
                &&& *final(self) == *old(self)
                &&& *final(caller_lamports) == *old(caller_lamports)
            },
            caller@ == old(self).admin_id() && old(self).vault_lamports < amount ==> {
                &&& r == Err::<(), SolTokenManagerError>(SolTokenManagerError::InsufficientBalance)
                &&& *final(self) == *old(self)
                &&& *final(caller_lamports) == *old(caller_lamports)
            },
            caller@ == old(self).admin_id() && old(self).vault_lamports >= amount ==> {
                &&& r is Ok
                &&& *final(self) == after_withdraw(*old(self), amount)
                &&& *final(caller_lamports) == *old(caller_lamports) + amount
            },
    {
        if !self.is_admin(caller) {
            return Err(SolTokenManagerError::Unauthorized);
        }
        if self.vault_lamports < amount {
            return Err(SolTokenManagerError::InsufficientBalance);
        }
        // The outgoing transfer is authorized by the vault's re-derived
        // authority, not by any caller-held key.
        let _authority = self.rederive_vault_address();
        self.vault_lamports = self.vault_lamports - amount;
        *caller_lamports = *caller_lamports + amount;
        Ok(())
    }
}

/// Law: a deposit of `x` followed by a withdrawal of `x` restores the vault —
/// balances and registry fields alike — to its pre-deposit value.
pub proof fn lemma_deposit_withdraw_round_trip(s: SolTokenManager, x: u64)
    requires
        s.vault_lamports + x <= u64::MAX,
    ensures
        after_withdraw(after_deposit(s, x), x) == s,
{
}

} // verus!
