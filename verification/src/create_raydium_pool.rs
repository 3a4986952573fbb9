use vstd::prelude::*;

use crate::constants::{BPS_DENOMINATOR, WSOL_MINT_ADDRESS};
use crate::errors::ErrorCode;
use crate::state::{
    GlobalConfig, LaunchStatus, MemecoinConfig, MintAccount, TokenAccount,
};

verus! {

/// The accounts the pool-creation instruction runs over, as the plain values
/// the logic reads of them. The runtime has already checked, before the
/// handler runs, that the configuration lives at its derived address, that
/// the two token accounts belong to the configuration and hold the two mints,
/// and that `token_0_mint.key < token_1_mint.key` — the order the pool
/// program demands. One of the two mints is the wrapped native-currency mint,
/// the other is the launched memecoin's.
pub struct CreateRaydiumPool {
    /// The launch being migrated; must have reached `Succeed`.
    pub memecoin_config: MemecoinConfig,
    /// The platform's fee policy.
    pub global_config: GlobalConfig,
    /// Mint of the pool's first token, the lower key of the two.
    pub token_0_mint: MintAccount,
    /// Mint of the pool's second token, the higher key of the two.
    pub token_1_mint: MintAccount,
    /// The configuration's holding of the first token.
    pub memecoin_config_token_0: TokenAccount,
    /// The configuration's holding of the second token.
    pub memecoin_config_token_1: TokenAccount,
    /// The configuration's holding of the pool's liquidity-provider token.
    pub memecoin_config_lp_token: TokenAccount,
    /// Unix timestamp of the clock sysvar; the pool's opening time.
    pub clock_unix_timestamp: u64,
}

impl CreateRaydiumPool {
    /// The configuration's balance of the memecoin itself: the holding whose
    /// mint is not the wrapped native-currency mint.
    pub open spec fn spec_memecoin_amount(self) -> u64 {
        if self.token_0_mint.key == WSOL_MINT_ADDRESS {
            self.memecoin_config_token_1.amount
        } else {
            self.memecoin_config_token_0.amount
        }
    }

    /// The memecoin's mint: the one that is not the wrapped native-currency
    /// mint.
    pub open spec fn spec_memecoin_mint(self) -> MintAccount {
        if self.token_0_mint.key == WSOL_MINT_ADDRESS {
            self.token_1_mint
        } else {
            self.token_0_mint
        }
    }
}

/// The success fee on `amount` at `bps` basis points: `amount * bps / 10000`,
/// rounded down. Both legs of the success fee — quote currency and memecoin —
/// follow this formula.
pub open spec fn spec_success_fee(amount: u64, bps: u16) -> int {
    (amount * bps) / (BPS_DENOMINATOR as int)
}

/// Whether the memecoin-leg fee arithmetic goes through: the product fits 64
/// bits and the fee does not exceed the balance it is taken from (it could,
/// only if the fee were set above ten thousand basis points).
pub open spec fn spec_memecoin_fee_computable(amount: u64, bps: u16) -> bool {
    &&& amount * bps <= u64::MAX
    &&& spec_success_fee(amount, bps) <= amount
}

/// Everything a successful pool creation asks the runtime to do. The host
/// transaction applies all of it or, on failure, none.
#[derive(Clone, Copy, Debug, PartialEq, Eq, Structural)]
pub struct PoolCreationEffects {
    /// Quote-currency success fee, in lamports, paid from the configuration
    /// account to the success-fee receiver.
    pub launch_success_fee_sol_amount: u64,
    /// Memecoin success fee, in token units, paid from the configuration's
    /// memecoin holding to the success-fee receiver.
    pub launch_success_fee_memecoin_amount: u64,
    /// Key of the account both fee legs are paid to.
    pub launch_success_fee_receiver: u64,
    /// The memecoin's mint, named in the fee transfer (its decimals scale the
    /// checked transfer).
    pub memecoin_mint: MintAccount,
    /// First-token liquidity handed to the pool program: the configuration's
    /// whole post-fee balance.
    pub init_amount_0: u64,
    /// Second-token liquidity handed to the pool program: the configuration's
    /// whole post-fee balance.
    pub init_amount_1: u64,
    /// The pool's opening time.
    pub open_time: u64,
    /// Liquidity-provider tokens burned from the configuration's account:
    /// every unit it holds once the pool has paid out, locking the liquidity
    /// for good.
    pub lp_burned: u64,
}

/// What a successful pool creation returns, as a relation between the account
/// state before the call, the liquidity-provider amount the pool pays out,
/// and the returned effects: both fee legs follow the basis-point formula
/// exactly, the pool is seeded with the whole post-fee balances, and the
/// burn covers every provider token the configuration holds.
pub open spec fn spec_pool_effects(
    a: CreateRaydiumPool,
    lp_minted: u64,
    eff: PoolCreationEffects,
) -> bool {
    &&& eff.launch_success_fee_sol_amount == spec_success_fee(
        a.memecoin_config.funding_raise_tier.spec_value(),
        a.global_config.launch_success_fee_bps,
    )
    &&& eff.launch_success_fee_memecoin_amount == spec_success_fee(
        a.spec_memecoin_amount(),
        a.global_config.launch_success_fee_bps,
    )
    &&& eff.launch_success_fee_receiver == a.global_config.launch_success_fee_receiver
    &&& eff.memecoin_mint == a.spec_memecoin_mint()
    &&& (if a.token_0_mint.key == WSOL_MINT_ADDRESS {
        eff.init_amount_0 == a.memecoin_config_token_0.amount && eff.init_amount_1
            == a.memecoin_config_token_1.amount - eff.launch_success_fee_memecoin_amount
    } else {
        eff.init_amount_0 == a.memecoin_config_token_0.amount
            - eff.launch_success_fee_memecoin_amount && eff.init_amount_1
            == a.memecoin_config_token_1.amount
    })
    &&& eff.open_time == a.clock_unix_timestamp
    &&& eff.lp_burned == a.memecoin_config_lp_token.amount + lp_minted
}

/// Migrates a successful launch into a liquidity pool: pays the success fee
/// in both the quote currency and the memecoin, hands the configuration's
/// remaining balances to the pool program as initial liquidity at the clock's
/// opening time, and burns every liquidity-provider token the pool pays back,
/// leaving the configuration's provider balance at exactly zero. Fails with
/// `OnlyCreatePoolWhenLaunchSuccess` while the launch has not reached
/// `Succeed`, and with `CalculationError` when the memecoin-leg fee
/// arithmetic overflows; on any failure the account state is left untouched
/// and no effects are produced.
///
/// `lp_minted` is the amount of liquidity-provider tokens the pool program
/// deposits into the configuration's account while initializing the pool; the
/// handler decides what to do with it — burn all of it — whatever its value.
pub fn handler(accounts: &mut CreateRaydiumPool, lp_minted: u64) -> (r: Result<
    PoolCreationEffects,
    ErrorCode,
>)
    requires
        old(accounts).memecoin_config_lp_token.amount + lp_minted <= u64::MAX,
    ensures
        r is Ok <==> (old(accounts).memecoin_config.status == LaunchStatus::Succeed
            && spec_memecoin_fee_computable(
            old(accounts).spec_memecoin_amount(),
            old(accounts).global_config.launch_success_fee_bps,
        )),
        old(accounts).memecoin_config.status != LaunchStatus::Succeed ==> (r matches Err(e) && e
            == ErrorCode::OnlyCreatePoolWhenLaunchSuccess),
        (old(accounts).memecoin_config.status == LaunchStatus::Succeed
            && !spec_memecoin_fee_computable(
            old(accounts).spec_memecoin_amount(),
            old(accounts).global_config.launch_success_fee_bps,
        )) ==> (r matches Err(e) && e == ErrorCode::CalculationError),
        r is Err ==> *final(accounts) == *old(accounts),
        r is Ok ==> final(accounts).memecoin_config_token_0.amount == 0
            && final(accounts).memecoin_config_token_1.amount == 0,
        r is Ok ==> final(accounts).memecoin_config_lp_token.amount == 0,
        final(accounts).memecoin_config == old(accounts).memecoin_config,
        final(accounts).global_config == old(accounts).global_config,
        final(accounts).token_0_mint == old(accounts).token_0_mint,
        final(accounts).token_1_mint == old(accounts).token_1_mint,
        final(accounts).clock_unix_timestamp == old(accounts).clock_unix_timestamp,
        r matches Ok(eff) ==> spec_pool_effects(*old(accounts), lp_minted, eff),
{
    if !(accounts.memecoin_config.status == LaunchStatus::Succeed) {
        return Err(ErrorCode::OnlyCreatePoolWhenLaunchSuccess);
    }

    let total_funding_raise_amount = accounts.memecoin_config.funding_raise_tier.value();
    let launch_success_fee_bps: u64 = accounts.global_config.launch_success_fee_bps as u64;

    proof {
        assert(total_funding_raise_amount * launch_success_fee_bps <= u64::MAX) by (nonlinear_arith)
            requires
                total_funding_raise_amount <= 100_000_000_000,
                launch_success_fee_bps <= 65535,
        ;
    }
    let launch_success_fee_sol_amount = (total_funding_raise_amount * launch_success_fee_bps)
        / BPS_DENOMINATOR;

    let memecoin_mint: MintAccount;
    let memecoin_amount: u64;
    if accounts.token_0_mint.key == WSOL_MINT_ADDRESS {
        memecoin_mint = accounts.token_1_mint;
        memecoin_amount = accounts.memecoin_config_token_1.amount;
    } else {
        memecoin_mint = accounts.token_0_mint;
        memecoin_amount = accounts.memecoin_config_token_0.amount;
    }

    let launch_success_fee_memecoin_amount: u64;
    match memecoin_amount.checked_mul(launch_success_fee_bps) {
        Some(product) => {
            launch_success_fee_memecoin_amount = product / BPS_DENOMINATOR;
        },
        None => {
            return Err(ErrorCode::CalculationError);
        },
    }

    let memecoin_remaining: u64;
    match memecoin_amount.checked_sub(launch_success_fee_memecoin_amount) {
        Some(rest) => {
            memecoin_remaining = rest;
        },
        None => {
            return Err(ErrorCode::CalculationError);
        },
    }

    let init_amount_0: u64;
    let init_amount_1: u64;
    if accounts.token_0_mint.key == WSOL_MINT_ADDRESS {
        init_amount_0 = accounts.memecoin_config_token_0.amount;
        init_amount_1 = memecoin_remaining;
    } else {
        init_amount_0 = memecoin_remaining;
        init_amount_1 = accounts.memecoin_config_token_1.amount;
    }

    let open_time = accounts.clock_unix_timestamp;
    let lp_burned = accounts.memecoin_config_lp_token.amount + lp_minted;

    accounts.memecoin_config_token_0 = TokenAccount { amount: 0 };
    accounts.memecoin_config_token_1 = TokenAccount { amount: 0 };
    accounts.memecoin_config_lp_token = TokenAccount { amount: 0 };

    Ok(
        PoolCreationEffects {
            launch_success_fee_sol_amount,
            launch_success_fee_memecoin_amount,
            launch_success_fee_receiver: accounts.global_config.launch_success_fee_receiver,
            memecoin_mint,
            init_amount_0,
            init_amount_1,
            open_time,
            lp_burned,
        },
    )
}

} // verus!
