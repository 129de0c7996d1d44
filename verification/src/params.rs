use vstd::prelude::*;
use crate::account::AccountId;

verus! {

/// What the profile component is set up with.
#[derive(Clone, Debug, PartialEq, Eq)]
pub struct BaseParam {
    pub owner: AccountId,
    pub name: String,
    pub logo: String,
    pub desc: String,
}

/// What the token is created with.
#[derive(Clone, Debug, PartialEq, Eq)]
pub struct ERC20Param {
    /// Who owns the token once the organization stands.
    pub owner: AccountId,
    pub name: String,
    pub symbol: String,
    /// How many tokens are minted in all.
    pub total_supply: u64,
    pub decimals: u8,
}

/// One entry of the moderator list.
#[derive(Clone, Debug, PartialEq, Eq)]
pub struct Moderator {
    pub name: String,
    pub account: AccountId,
}

/// What the membership component is set up with.
#[derive(Clone, Debug, PartialEq, Eq)]
pub struct OrgParam {
    /// Who owns the component once the organization stands.
    pub owner: AccountId,
    /// The moderators, in the order in which they are added. A map from
    /// name to account hands them over in the order of its keys.
    pub moderators: Vec<Moderator>,
}

/// One entry of the token's initial distribution.
#[derive(Clone, Copy, Debug, PartialEq, Eq)]
pub struct Transfer {
    pub to: AccountId,
    pub amount: u64,
}

/// Everything the owner supplies when the organization is initialized.
#[derive(Clone, Debug, PartialEq, Eq)]
pub struct DAOInitParams {
    pub base: BaseParam,
    pub erc20: ERC20Param,
    /// The token's initial distribution, in the order in which it is minted.
    /// What it leaves of the total supply goes to the treasury. A map from
    /// account to amount hands it over in the order of its keys, each account
    /// once; a list that names an account more than once is minted entry by
    /// entry.
    pub erc20_transfers: Vec<Transfer>,
    pub org: OrgParam,
}

impl Default for BaseParam {
    /// The zero address and empty texts.
    fn default() -> (r: BaseParam)
        ensures
            r.owner@ == Seq::new(32, |i: int| 0u8),
            r.name@.len() == 0,
            r.logo@.len() == 0,
            r.desc@.len() == 0,
    {
        BaseParam {
            owner: AccountId::default(),
            name: String::new(),
            logo: String::new(),
            desc: String::new(),
        }
    }
}

impl Default for ERC20Param {
    /// The zero address, empty texts, and no supply.
    fn default() -> (r: ERC20Param)
        ensures
            r.owner@ == Seq::new(32, |i: int| 0u8),
            r.name@.len() == 0,
            r.symbol@.len() == 0,
            r.total_supply == 0,
            r.decimals == 0,
    {
        ERC20Param {
            owner: AccountId::default(),
            name: String::new(),
            symbol: String::new(),
            total_supply: 0,
            decimals: 0,
        }
    }
}

impl Default for OrgParam {
    /// The zero address and no moderator.
    fn default() -> (r: OrgParam)
        ensures
            r.owner@ == Seq::new(32, |i: int| 0u8),
            r.moderators@.len() == 0,
    {
        OrgParam { owner: AccountId::default(), moderators: Vec::new() }
    }
}

impl Default for DAOInitParams {
    /// Nothing to distribute, nobody to add, and no supply.
    fn default() -> (r: DAOInitParams)
        ensures
            r.erc20_transfers@.len() == 0,
            r.org.moderators@.len() == 0,
            r.erc20.total_supply == 0,
            r.supply_covers_transfers(),
    {
        DAOInitParams {
            base: BaseParam::default(),
            erc20: ERC20Param::default(),
            erc20_transfers: Vec::new(),
            org: OrgParam::default(),
        }
    }
}

/// The sum of the amounts of a distribution.
pub open spec fn total_transferred(transfers: Seq<Transfer>) -> nat
    decreases transfers.len(),
{
    if transfers.len() == 0 {
        0
    } else {
        total_transferred(transfers.drop_last()) + transfers.last().amount as nat
    }
}

/// The sum of the amounts that a distribution gives to one account.
pub open spec fn transferred_to(transfers: Seq<Transfer>, account: AccountId) -> nat
    decreases transfers.len(),
{
    if transfers.len() == 0 {
        0
    } else {
        transferred_to(transfers.drop_last(), account) + if transfers.last().to == account {
            transfers.last().amount as nat
        } else {
            0
        }
    }
}

/// Whether a distribution names no account twice, as one that comes from a
/// map does.
pub open spec fn distinct_recipients(transfers: Seq<Transfer>) -> bool {
    forall|i: int, j: int|
        0 <= i < j < transfers.len() ==> (#[trigger] transfers[i]).to != (#[trigger] transfers[j]).to
}

/// In a distribution that names no account twice, what is given to an
/// account that it names is the amount of that account's entry.
pub proof fn law_entry_is_what_is_transferred(transfers: Seq<Transfer>, i: int)
    requires
        distinct_recipients(transfers),
        0 <= i < transfers.len(),
    ensures
        transferred_to(transfers, transfers[i].to) == transfers[i].amount,
    decreases transfers.len(),
{
    let rest = transfers.drop_last();
    let last = transfers.len() - 1;
    assert(distinct_recipients(rest)) by {
        assert forall|a: int, b: int| 0 <= a < b < rest.len() implies (#[trigger] rest[a]).to != (
        #[trigger] rest[b]).to by {
            assert(rest[a] == transfers[a] && rest[b] == transfers[b]);
        }
    }
    if i == last {
        assert forall|k: int| 0 <= k < rest.len() implies (#[trigger] rest[k]).to
            != transfers[i].to by {
            assert(rest[k] == transfers[k]);
        }
        lemma_not_named(rest, transfers[i].to);
    } else {
        assert(rest[i] == transfers[i]);
        law_entry_is_what_is_transferred(rest, i);
        assert(transfers[i].to != transfers[last].to);
    }
}

/// Nothing is given to an account that a distribution does not name.
proof fn lemma_not_named(transfers: Seq<Transfer>, account: AccountId)
    requires
        forall|k: int| 0 <= k < transfers.len() ==> (#[trigger] transfers[k]).to != account,
    ensures
        transferred_to(transfers, account) == 0,
    decreases transfers.len(),
{
    if transfers.len() > 0 {
        let rest = transfers.drop_last();
        assert forall|k: int| 0 <= k < rest.len() implies (#[trigger] rest[k]).to != account by {
            assert(rest[k] == transfers[k]);
        }
        lemma_not_named(rest, account);
    }
}

/// The sum over a part of a distribution is at most the sum over the whole.
pub proof fn lemma_total_transferred_prefix(transfers: Seq<Transfer>, n: int)
    requires
        0 <= n <= transfers.len(),
    ensures
        total_transferred(transfers.take(n)) <= total_transferred(transfers),
    decreases transfers.len(),
{
    if n == transfers.len() {
        assert(transfers.take(n) =~= transfers);
    } else {
        lemma_total_transferred_prefix(transfers.drop_last(), n);
        assert(transfers.drop_last().take(n) =~= transfers.take(n));
    }
}

impl DAOInitParams {
    /// Whether the distribution stays within the total supply.
    pub open spec fn supply_covers_transfers(self) -> bool {
        total_transferred(self.erc20_transfers@) <= self.erc20.total_supply
    }

    /// What the distribution leaves of the total supply.
    pub open spec fn remainder(self) -> int {
        self.erc20.total_supply - total_transferred(self.erc20_transfers@)
    }

    /// Computes what the distribution leaves of the total supply; nothing
    /// where the distribution exceeds the supply.
    pub fn remaining_supply(&self) -> (r: Option<u64>)
        ensures
            self.supply_covers_transfers() ==> r == Some(self.remainder() as u64),
            !self.supply_covers_transfers() ==> r is None,
    {
        let total = self.erc20.total_supply;
        let mut transfer: u64 = 0;
        let mut i: usize = 0;
        while i < self.erc20_transfers.len()
            invariant
                i <= self.erc20_transfers.len(),
                total == self.erc20.total_supply,
                transfer == total_transferred(self.erc20_transfers@.take(i as int)),
                transfer <= total,
            decreases self.erc20_transfers.len() - i,
        {
            let amount = self.erc20_transfers[i].amount;
            proof {
                let next = self.erc20_transfers@.take(i + 1);
                assert(next.drop_last() =~= self.erc20_transfers@.take(i as int));
                assert(next.last() == self.erc20_transfers@[i as int]);
                lemma_total_transferred_prefix(self.erc20_transfers@, i + 1);
            }
            if amount > total - transfer {
                return None;
            }
            transfer = transfer + amount;
            i = i + 1;
        }
        proof {
            assert(self.erc20_transfers@.take(i as int) =~= self.erc20_transfers@);
        }
        Some(total - transfer)
    }
}

} // verus!
