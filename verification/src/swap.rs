use vstd::prelude::*;

use crate::errors::SolTokenManagerError;
use crate::state::SolTokenManager;

verus! {

/// One observed outcome of the external venue for a single swap request:
/// whether the referenced venue-state accounts matched, and the output-asset
/// amount the venue would deliver. The orchestrator is verified for every
/// possible outcome.
pub struct VenueQuote {
    /// Whether the referenced pool, tick and oracle accounts are consistent.
    pub accounts_valid: bool,
    /// The output-asset amount the venue delivers for this request.
    pub amount_out: u64,
}

/// The fixed venue-selection parameters the delegated swap call is made
/// with: a price-limit value and the two mode flags selecting swap
/// direction and exactness.
pub struct VenueConfig {
    pub price_limit: u64,
    pub base_to_quote: bool,
    pub exact_input: bool,
}

/// The configuration this deployment hardcodes: no price limit, swapping the
/// base asset for the quote asset, with the input amount exact.
pub fn fixed_venue_config() -> (r: VenueConfig)
    ensures
        r.price_limit == 0,
        r.base_to_quote,
        r.exact_input,
{
    VenueConfig { price_limit: 0, base_to_quote: true, exact_input: true }
}

/// What the delegate leg reports for a venue outcome: the venue either fills
/// at or above the caller's floor, or the whole operation aborts with the
/// named cause.
pub open spec fn venue_outcome(venue: VenueQuote, minimum_amount_out: u64) -> Result<
    u64,
    SolTokenManagerError,
> {
    if !venue.accounts_valid {
        Err(SolTokenManagerError::InvalidVenueState)
    } else if venue.amount_out < minimum_amount_out {
        Err(SolTokenManagerError::SlippageExceeded)
    } else {
        Ok(venue.amount_out)
    }
}

/// The external-venue adapter decision: accept the venue's fill only when the
/// venue-state accounts are consistent and the fill meets the caller's
/// minimum-output floor.
pub fn amm_swap(venue: &VenueQuote, minimum_amount_out: u64) -> (r: Result<
    u64,
    SolTokenManagerError,
>)
    ensures
        r == venue_outcome(*venue, minimum_amount_out),
{
    if !venue.accounts_valid {
        Err(SolTokenManagerError::InvalidVenueState)
    } else if venue.amount_out < minimum_amount_out {
        Err(SolTokenManagerError::SlippageExceeded)
    } else {
        Ok(venue.amount_out)
    }
}

/// The vault after a successful swap of `amount_in`: only the custody
/// balance shrinks; the intermediate and output holdings are back where they
/// started.
pub open spec fn after_swap(s: SolTokenManager, amount_in: u64) -> SolTokenManager
    recommends
        amount_in <= s.vault_lamports,
{
    SolTokenManager { vault_lamports: (s.vault_lamports - amount_in) as u64, ..s }
}

impl SolTokenManager {
    /// Stage leg: move `amount_in` from vault custody into the intermediate
    /// holding the external venue takes as input.
    fn stage_leg(&mut self, amount_in: u64)
        requires
            amount_in <= old(self).vault_lamports,
            old(self).wsol_balance + amount_in <= u64::MAX,
        ensures
            *final(self) == (SolTokenManager {
                vault_lamports: (old(self).vault_lamports - amount_in) as u64,
                wsol_balance: (old(self).wsol_balance + amount_in) as u64,
                ..*old(self)
            }),
    {
        self.vault_lamports = self.vault_lamports - amount_in;
        self.wsol_balance = self.wsol_balance + amount_in;
    }

    /// Compensation for the stage leg: restore the staged amount to vault
    /// custody, leaving the vault exactly as before the stage.
    fn unstage_leg(&mut self, amount_in: u64)
        requires
            amount_in <= old(self).wsol_balance,
            old(self).vault_lamports + amount_in <= u64::MAX,
        ensures
            *final(self) == (SolTokenManager {
                vault_lamports: (old(self).vault_lamports + amount_in) as u64,
                wsol_balance: (old(self).wsol_balance - amount_in) as u64,
                ..*old(self)
            }),
    {
        self.wsol_balance = self.wsol_balance - amount_in;
        self.vault_lamports = self.vault_lamports + amount_in;
    }

    /// Delegate leg settlement: the venue consumes `amount_in` from the
    /// intermediate holding and deposits `amount_out` into the output-asset
    /// holding.
    fn settle_leg(&mut self, amount_in: u64, amount_out: u64)
        requires
            amount_in <= old(self).wsol_balance,
            old(self).usdc_balance + amount_out <= u64::MAX,
        ensures
            *final(self) == (SolTokenManager {
                wsol_balance: (old(self).wsol_balance - amount_in) as u64,
                usdc_balance: (old(self).usdc_balance + amount_out) as u64,
                ..*old(self)
            }),
    {
        self.wsol_balance = self.wsol_balance - amount_in;
        self.usdc_balance = self.usdc_balance + amount_out;
    }

    /// Forward leg: empty the whole output-asset holding to the caller, so
    /// no residual output balance is ever retained.
    fn forward_leg(&mut self, caller_usdc: &mut u64) -> (forwarded: u64)
        requires
            *old(caller_usdc) + old(self).usdc_balance <= u64::MAX,
        ensures
            forwarded == old(self).usdc_balance,
            *final(self) == (SolTokenManager { usdc_balance: 0u64, ..*old(self) }),
            *final(caller_usdc) == *old(caller_usdc) + forwarded,
    {
        let forwarded = self.usdc_balance;
        *caller_usdc = *caller_usdc + forwarded;
        self.usdc_balance = 0;
        forwarded
    }

    /// The swap orchestration, an all-or-nothing unit of three ordered legs:
    /// stage `amount_in` into the intermediate holding under the vault's
    /// re-derived authority, delegate to the external venue under the
    /// caller's minimum-output floor, and forward the whole output-asset
    /// proceeds to the caller. Any leg's failure aborts the whole operation
    /// and leaves the vault exactly as it was.
    pub fn buy_tokens(
        &mut self,
        caller_usdc: &mut u64,
        amount_in: u64,
        minimum_amount_out: u64,
        venue: &VenueQuote,
    ) -> (r: Result<u64, SolTokenManagerError>)
        requires
            old(self).wf(),
            old(self).is_initialized(),
            amount_in > 0,
            minimum_amount_out > 0,
            old(self).wsol_balance + amount_in <= u64::MAX,
            *old(caller_usdc) + venue.amount_out <= u64::MAX,
        ensures
            final(self).wf(),
            old(self).vault_lamports < amount_in ==> {
                &&& r == Err::<u64, SolTokenManagerError>(
                    SolTokenManagerError::InsufficientBalance,
                )
                &&& *final(self) == *old(self)
                &&& *final(caller_usdc) == *old(caller_usdc)
            },
            old(self).vault_lamports >= amount_in ==> (match venue_outcome(
                *venue,
                minimum_amount_out,
            ) {
                Err(e) => {
                    &&& r == Err::<u64, SolTokenManagerError>(e)
                    &&& *final(self) == *old(self)
                    &&& *final(caller_usdc) == *old(caller_usdc)
                },
                Ok(amount_out) => {
                    &&& r == Ok::<u64, SolTokenManagerError>(amount_out)
                    &&& *final(self) == after_swap(*old(self), amount_in)
                    &&& *final(caller_usdc) == *old(caller_usdc) + amount_out
                },
            }),
            r matches Ok(amount_out) ==> amount_out >= minimum_amount_out,
    {
        if self.vault_lamports < amount_in {
            return Err(SolTokenManagerError::InsufficientBalance);
        }
        // The staged transfer is authorized by the vault's re-derived
        // authority, not by any caller-held key.
        let _authority = self.rederive_vault_address();
        self.stage_leg(amount_in);
        match amm_swap(venue, minimum_amount_out) {
            Err(e) => {
                // The venue refused the fill: compensate the stage leg, so
                // the abort leaves no partial effect.
                self.unstage_leg(amount_in);
                proof {
                    assert(*self =~= *old(self));
                }
                Err(e)
            },
            Ok(amount_out) => {
                self.settle_leg(amount_in, amount_out);
                let forwarded = self.forward_leg(caller_usdc);
                proof {
                    assert(*self =~= after_swap(*old(self), amount_in));
                }
                Ok(forwarded)
            },
        }
    }
}

} // verus!
