use vstd::prelude::*;
use vstd::string::StringExecFns;

use crate::errors::ErrorCode;
use crate::state::{
    config_address, spec_config_address, ConfigAddress, CreatorMemecoinCounter, FundingRaiseTier,
    GlobalConfig, LaunchStatus, MemecoinConfig, MEMECOIN_TOTAL_SUPPLY,
};

verus! {

/// The accounts the creation instruction runs over, as the plain values the
/// logic reads of them. The runtime has already checked, before the handler
/// runs, that each account lives at its derived address; in particular the
/// counter is the one derived from the creator's key, and the fee-receiver
/// account is the one the global configuration names.
pub struct CreateMemecoinConfig {
    /// Key of the signing creator, who pays the creation fee.
    pub creator: u64,
    /// The creator's launch counter; fresh counters start at zero.
    pub creator_memecoin_counter: CreatorMemecoinCounter,
    /// The platform's fee policy.
    pub global_config: GlobalConfig,
    /// Unix timestamp of the clock sysvar.
    pub clock_unix_timestamp: u64,
}

impl CreateMemecoinConfig {
    /// The account relations the runtime establishes before the handler runs:
    /// the counter account is the creator's own.
    pub open spec fn wf(self) -> bool {
        self.creator_memecoin_counter.creator == self.creator
    }
}

/// A transfer of native currency the handler asks the runtime to perform.
#[derive(Clone, Copy, Debug, PartialEq, Eq, Structural)]
pub struct LamportsTransfer {
    /// Key of the account debited.
    pub from: u64,
    /// Key of the account credited.
    pub to: u64,
    /// Amount moved, in lamports.
    pub lamports: u64,
}

/// Event emitted on every successful creation.
#[derive(Debug)]
pub struct MemecoinCreated {
    pub creator: u64,
    pub created_time: u64,
    pub name: String,
    pub symbol: String,
    pub uri: String,
    pub decimals: u8,
    pub funding_raise_tier: u8,
}

/// Everything a successful creation asks the runtime to do and to persist.
/// The host transaction applies all of it or, on failure, none.
#[derive(Debug)]
pub struct MemecoinCreationEffects {
    /// The flat creation fee, creator to fee receiver.
    pub fee_transfer: LamportsTransfer,
    /// Address of the new configuration account, derived from the creator's
    /// key and the counter's value at creation.
    pub memecoin_config_address: ConfigAddress,
    /// The new configuration record stored at that address.
    pub memecoin_config: MemecoinConfig,
    /// Token units minted to the program-owned vault: the whole supply. The
    /// configuration account signs the mint as derived authority, and no
    /// further minting ever happens for this token.
    pub minted_to_destination: u64,
    /// The creation event.
    pub event: MemecoinCreated,
}

/// `10^d`, the scaling factor between whole tokens and token units.
pub open spec fn pow10(d: nat) -> nat
    decreases d,
{
    if d == 0 {
        1
    } else {
        10 * pow10((d - 1) as nat)
    }
}

/// The supply to mint for a token with `d` decimal places, in token units.
pub open spec fn spec_total_supply_units(d: u8) -> nat {
    (MEMECOIN_TOTAL_SUPPLY as nat) * pow10(d as nat)
}

/// Whether the supply to mint fits a 64-bit amount, the precondition of a
/// successful creation.
pub open spec fn supply_fits(d: u8) -> bool {
    spec_total_supply_units(d) <= u64::MAX
}

proof fn lemma_pow10_monotone(a: nat, b: nat)
    requires
        a <= b,
    ensures
        pow10(a) <= pow10(b),
    decreases b,
{
    if a < b {
        lemma_pow10_monotone(a, (b - 1) as nat);
    }
}

/// The tier a selector byte names: `0`, `1` and `2` name the three tiers in
/// ascending order; every other byte names none.
pub open spec fn spec_tier_of_selector(selector: u8) -> Option<FundingRaiseTier> {
    if selector == 0 {
        Some(FundingRaiseTier::TwentySol)
    } else if selector == 1 {
        Some(FundingRaiseTier::FiftySol)
    } else if selector == 2 {
        Some(FundingRaiseTier::OneHundredSol)
    } else {
        None
    }
}

/// What a successful creation does, as a relation between the account state
/// before the call, the instruction arguments, and the returned effects.
pub open spec fn spec_creation_effects(
    a: CreateMemecoinConfig,
    name: Seq<char>,
    symbol: Seq<char>,
    uri: Seq<char>,
    decimals: u8,
    selector: u8,
    eff: MemecoinCreationEffects,
) -> bool {
    &&& eff.fee_transfer.from == a.creator
    &&& eff.fee_transfer.to == a.global_config.create_memecoin_fee_receiver
    &&& eff.fee_transfer.lamports == a.global_config.create_memecoin_fee
    &&& eff.memecoin_config_address == spec_config_address(
        a.creator,
        a.creator_memecoin_counter.count,
    )
    &&& eff.memecoin_config.creator == a.creator
    &&& eff.memecoin_config.creator_memecoin_index == 0
    &&& eff.memecoin_config.created_time == a.clock_unix_timestamp
    &&& Some(eff.memecoin_config.funding_raise_tier) == spec_tier_of_selector(selector)
    &&& eff.memecoin_config.status == LaunchStatus::Funding
    &&& eff.minted_to_destination == spec_total_supply_units(decimals)
    &&& eff.event.creator == a.creator
    &&& eff.event.created_time == a.clock_unix_timestamp
    &&& eff.event.name@ == name
    &&& eff.event.symbol@ == symbol
    &&& eff.event.uri@ == uri
    &&& eff.event.decimals == decimals
    &&& eff.event.funding_raise_tier == selector
}

/// Creates a launch: charges the flat creation fee, records the configuration
/// with the chosen funding-raise tier at its derived address, advances the
/// creator's counter by one, mints the whole supply to the program-owned
/// vault and emits the creation event. Rejects an unknown tier selector with
/// `InvalidFundingRaiseTier` and a supply that overflows 64 bits with
/// `CalculationError`; on any failure the account state is left untouched and
/// no effects are produced.
pub fn handler(
    accounts: &mut CreateMemecoinConfig,
    memecoin_name: &str,
    memecoin_symbol: &str,
    memecoin_uri: &str,
    memecoin_decimals: u8,
    funding_raise_tier: u8,
) -> (r: Result<MemecoinCreationEffects, ErrorCode>)
    requires
        old(accounts).wf(),
        old(accounts).creator_memecoin_counter.count < u64::MAX,
    ensures
        r is Ok <==> (spec_tier_of_selector(funding_raise_tier) is Some && supply_fits(
            memecoin_decimals,
        )),
        spec_tier_of_selector(funding_raise_tier) is None ==> (r matches Err(e) && e
            == ErrorCode::InvalidFundingRaiseTier),
        (spec_tier_of_selector(funding_raise_tier) is Some && !supply_fits(memecoin_decimals))
            ==> (r matches Err(e) && e == ErrorCode::CalculationError),
        r is Err ==> *final(accounts) == *old(accounts),
        r is Ok ==> final(accounts).creator_memecoin_counter.count == old(
            accounts,
        ).creator_memecoin_counter.count + 1,
        final(accounts).creator_memecoin_counter.creator == old(
            accounts,
        ).creator_memecoin_counter.creator,
        final(accounts).creator == old(accounts).creator,
        final(accounts).global_config == old(accounts).global_config,
        final(accounts).clock_unix_timestamp == old(accounts).clock_unix_timestamp,
        r matches Ok(eff) ==> spec_creation_effects(
            *old(accounts),
            memecoin_name@,
            memecoin_symbol@,
            memecoin_uri@,
            memecoin_decimals,
            funding_raise_tier,
            eff,
        ),
{
    let tier = match funding_raise_tier {
        0u8 => FundingRaiseTier::TwentySol,
        1u8 => FundingRaiseTier::FiftySol,
        2u8 => FundingRaiseTier::OneHundredSol,
        _ => {
            return Err(ErrorCode::InvalidFundingRaiseTier);
        },
    };

    let quantity: u64;
    match checked_pow10(memecoin_decimals) {
        Some(p) => {
            match MEMECOIN_TOTAL_SUPPLY.checked_mul(p) {
                Some(q) => {
                    quantity = q;
                },
                None => {
                    return Err(ErrorCode::CalculationError);
                },
            }
        },
        None => {
            proof {
                let p = pow10(memecoin_decimals as nat);
                assert((MEMECOIN_TOTAL_SUPPLY as nat) * p >= p) by (nonlinear_arith);
            }
            return Err(ErrorCode::CalculationError);
        },
    }

    let creator = accounts.creator;
    let current_timestamp = accounts.clock_unix_timestamp;
    let counter_index = accounts.creator_memecoin_counter.count;

    let memecoin_config = MemecoinConfig {
        creator,
        creator_memecoin_index: 0,
        created_time: current_timestamp,
        funding_raise_tier: tier,
        status: LaunchStatus::Funding,
    };
    let memecoin_config_address = config_address(creator, counter_index);

    accounts.creator_memecoin_counter.increment();

    let event = MemecoinCreated {
        creator,
        created_time: current_timestamp,
        name: String::from_str(memecoin_name),
        symbol: String::from_str(memecoin_symbol),
        uri: String::from_str(memecoin_uri),
        decimals: memecoin_decimals,
        funding_raise_tier,
    };

    Ok(
        MemecoinCreationEffects {
            fee_transfer: LamportsTransfer {
                from: creator,
                to: accounts.global_config.create_memecoin_fee_receiver,
                lamports: accounts.global_config.create_memecoin_fee,
            },
            memecoin_config_address,
            memecoin_config,
            minted_to_destination: quantity,
            event,
        },
    )
}

/// Each successful creation records its configuration at the address derived
/// from the creator's key and counter value, and advances the counter by one.
/// So creations made by the same creator at different counter values — in
/// particular any two successive ones — and creations made by different
/// creators always yield distinct configuration addresses.
pub proof fn lemma_creations_get_distinct_addresses(
    a1: CreateMemecoinConfig,
    name1: Seq<char>,
    symbol1: Seq<char>,
    uri1: Seq<char>,
    decimals1: u8,
    selector1: u8,
    eff1: MemecoinCreationEffects,
    a2: CreateMemecoinConfig,
    name2: Seq<char>,
    symbol2: Seq<char>,
    uri2: Seq<char>,
    decimals2: u8,
    selector2: u8,
    eff2: MemecoinCreationEffects,
)
    requires
        spec_creation_effects(a1, name1, symbol1, uri1, decimals1, selector1, eff1),
        spec_creation_effects(a2, name2, symbol2, uri2, decimals2, selector2, eff2),
        a1.creator != a2.creator || a1.creator_memecoin_counter.count
            != a2.creator_memecoin_counter.count,
    ensures
        eff1.memecoin_config_address != eff2.memecoin_config_address,
{
    crate::state::lemma_config_address_injective(
        a1.creator,
        a1.creator_memecoin_counter.count,
        a2.creator,
        a2.creator_memecoin_counter.count,
    );
}

/// `10^d` as a 64-bit value, or `None` when it does not fit one.
fn checked_pow10(d: u8) -> (r: Option<u64>)
    ensures
        r is Some <==> pow10(d as nat) <= u64::MAX,
        r matches Some(v) ==> v == pow10(d as nat),
{
    let mut acc: u64 = 1;
    let mut i: u8 = 0;
    while i < d
        invariant
            i <= d,
            acc == pow10(i as nat),
        decreases d - i,
    {
        match acc.checked_mul(10) {
            Some(next) => {
                acc = next;
                i = i + 1;
            },
            None => {
                proof {
                    lemma_pow10_monotone((i + 1) as nat, d as nat);
                }
                return None;
            },
        }
    }
    Some(acc)
}

} // verus!
