use vstd::prelude::*;

verus! {

/// Total supply of every memecoin, in whole tokens before decimal scaling.
/// The minted amount is this times `10^decimals`.
pub const MEMECOIN_TOTAL_SUPPLY: u64 = 1_000_000_000;

/// The fixed fundraising targets a launch may choose from, each a fixed
/// amount of the native quote currency.
#[derive(Clone, Copy, Debug, PartialEq, Eq, Structural)]
pub enum FundingRaiseTier {
    TwentySol,
    FiftySol,
    OneHundredSol,
}

impl FundingRaiseTier {
    /// Target amount of quote currency, in lamports.
    pub open spec fn spec_value(self) -> u64 {
        match self {
            FundingRaiseTier::TwentySol => 20_000_000_000,
            FundingRaiseTier::FiftySol => 50_000_000_000,
            FundingRaiseTier::OneHundredSol => 100_000_000_000,
        }
    }

    /// Target amount of quote currency, in lamports.
    pub fn value(&self) -> (r: u64)
        ensures
            r == self.spec_value(),
    {
        match self {
            FundingRaiseTier::TwentySol => 20_000_000_000,
            FundingRaiseTier::FiftySol => 50_000_000_000,
            FundingRaiseTier::OneHundredSol => 100_000_000_000,
        }
    }
}

/// State machine of a launch. A configuration starts at `Funding`; the
/// fundraising logic moves it to `Succeed` when the tier's target is reached,
/// or to `Failed`. Only a `Succeed` launch may migrate into a liquidity pool.
#[derive(Clone, Copy, Debug, PartialEq, Eq, Structural)]
pub enum LaunchStatus {
    Funding,
    Succeed,
    Failed,
}

/// Per-creator monotonic counter: how many launches this creator has made.
/// Created at the creator's first launch, incremented on every one, never
/// destroyed. Its count is the seed index of the next configuration address.
#[derive(Clone, Copy, Debug, PartialEq, Eq, Structural)]
pub struct CreatorMemecoinCounter {
    /// Key of the creator this counter belongs to.
    pub creator: u64,
    /// Number of launches made by this creator so far.
    pub count: u64,
}

impl CreatorMemecoinCounter {
    /// Records one more launch by this creator.
    pub fn increment(&mut self)
        requires
            old(self).count < u64::MAX,
        ensures
            final(self).count == old(self).count + 1,
            final(self).creator == old(self).creator,
    {
        self.count = self.count + 1;
    }
}

/// One launched token's configuration record. It also acts as the
/// program-derived signing authority over the token's mint and vaults; that
/// authority is the runtime's affair and leaves no trace in the record.
#[derive(Clone, Copy, Debug, PartialEq, Eq, Structural)]
pub struct MemecoinConfig {
    /// Key of the account that created the launch.
    pub creator: u64,
    /// Index recorded in the configuration record.
    pub creator_memecoin_index: u64,
    /// Unix timestamp of the creation instruction.
    pub created_time: u64,
    /// The fundraising target chosen at creation.
    pub funding_raise_tier: FundingRaiseTier,
    /// Where the launch stands in its lifecycle.
    pub status: LaunchStatus,
}

/// Process-wide singleton holding the platform's fee policy. Read-only here.
#[derive(Clone, Copy, Debug, PartialEq, Eq, Structural)]
pub struct GlobalConfig {
    /// Key of the account that collects the flat creation fee.
    pub create_memecoin_fee_receiver: u64,
    /// Flat creation fee, in lamports.
    pub create_memecoin_fee: u64,
    /// Key of the account that collects both legs of the success fee.
    pub launch_success_fee_receiver: u64,
    /// Success fee in basis points, taken of the raise and of the memecoin
    /// balance when a pool is created.
    pub launch_success_fee_bps: u16,
}

/// What the logic reads of a mint account.
#[derive(Clone, Copy, Debug, PartialEq, Eq, Structural)]
pub struct MintAccount {
    /// The mint's own account key.
    pub key: u64,
    /// Number of decimal places of the token.
    pub decimals: u8,
}

/// What the logic reads of a token holding account.
#[derive(Clone, Copy, Debug, PartialEq, Eq, Structural)]
pub struct TokenAccount {
    /// Token units held.
    pub amount: u64,
}

/// Address of a configuration account. The runtime derives it
/// deterministically from exactly these seeds — the creator's key and the
/// creator's launch count at creation time — so the seed pair itself stands
/// for the address: equal seeds, equal address; distinct seeds, distinct
/// address.
#[derive(Clone, Copy, Debug, PartialEq, Eq, Structural)]
pub struct ConfigAddress {
    /// Key of the creating account, the first seed.
    pub creator: u64,
    /// The creator's launch count at creation, the second seed.
    pub index: u64,
}

/// The configuration address derived from a creator key and a launch index.
pub open spec fn spec_config_address(creator: u64, index: u64) -> ConfigAddress {
    ConfigAddress { creator, index }
}

/// The configuration address derived from a creator key and a launch index.
pub fn config_address(creator: u64, index: u64) -> (r: ConfigAddress)
    ensures
        r == spec_config_address(creator, index),
{
    ConfigAddress { creator, index }
}

/// Address derivation is injective: configurations created from different
/// seeds — a different creator, or a different launch index of the same
/// creator — always live at different addresses. In particular each
/// successful creation, incrementing the creator's counter by one, yields an
/// address distinct from every earlier one of that creator.
pub proof fn lemma_config_address_injective(c1: u64, i1: u64, c2: u64, i2: u64)
    requires
        c1 != c2 || i1 != i2,
    ensures
        spec_config_address(c1, i1) != spec_config_address(c2, i2),
{
}

} // verus!
