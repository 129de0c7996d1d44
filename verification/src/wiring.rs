use vstd::prelude::*;
use crate::account::AccountId;
use crate::host::{Call, InitError};
use crate::params::{total_transferred, transferred_to, lemma_total_transferred_prefix};
use crate::params::{BaseParam, ERC20Param, OrgParam, Transfer};
use crate::role::Role;

verus! {

/// The calls that set up the profile component once it is deployed.
pub open spec fn base_calls(param: BaseParam, base: AccountId) -> Seq<Call> {
    seq![Call::InitProfile { base, name: param.name, logo: param.logo, desc: param.desc }]
}

/// One call per moderator, in the order of the list.
pub open spec fn moderator_calls(param: OrgParam, org: AccountId) -> Seq<Call> {
    Seq::new(
        param.moderators@.len(),
        |i: int|
            Call::AddModerator {
                org,
                name: param.moderators@[i].name,
                moderator: param.moderators@[i].account,
            },
    )
}

/// The calls that set up the membership component once it is deployed: the
/// moderators are added, then the component is handed to its owner.
pub open spec fn org_calls(param: OrgParam, org: AccountId) -> Seq<Call> {
    moderator_calls(param, org).push(
        Call::TransferOwnership { role: Role::Org, component: org, new_owner: param.owner },
    )
}

/// One mint per entry of the distribution, in the order of the list.
pub open spec fn mint_calls(transfers: Seq<Transfer>, erc20: AccountId) -> Seq<Call> {
    Seq::new(
        transfers.len(),
        |i: int| Call::Mint { erc20, to: transfers[i].to, amount: transfers[i].amount },
    )
}

/// The calls that set up the token once it is deployed: the distribution is
/// minted, what it leaves of the total supply is minted to the treasury, then
/// the token is handed to its owner.
pub open spec fn erc20_calls(
    param: ERC20Param,
    transfers: Seq<Transfer>,
    erc20: AccountId,
    vault: AccountId,
) -> Seq<Call> {
    mint_calls(transfers, erc20).push(
        Call::Mint {
            erc20,
            to: vault,
            amount: (param.total_supply - total_transferred(transfers)) as u64,
        },
    ).push(Call::TransferOwnership { role: Role::Erc20, component: erc20, new_owner: param.owner })
}

/// The call that makes the treasury know its token.
pub open spec fn vault_token_calls(vault: AccountId, token: AccountId) -> Seq<Call> {
    seq![Call::RegisterVaultToken { vault, token }]
}

/// What one call mints of a token.
pub open spec fn mint_amount(call: Call, token: AccountId) -> nat {
    match call {
        Call::Mint { erc20, to, amount } => if erc20 == token {
            amount as nat
        } else {
            0
        },
        _ => 0,
    }
}

/// What one call mints of a token to one account.
pub open spec fn mint_amount_to(call: Call, token: AccountId, account: AccountId) -> nat {
    match call {
        Call::Mint { erc20, to, amount } => if erc20 == token && to == account {
            amount as nat
        } else {
            0
        },
        _ => 0,
    }
}

/// What a sequence of calls mints of a token in all.
pub open spec fn minted(calls: Seq<Call>, token: AccountId) -> nat
    decreases calls.len(),
{
    if calls.len() == 0 {
        0
    } else {
        minted(calls.drop_last(), token) + mint_amount(calls.last(), token)
    }
}

/// What a sequence of calls mints of a token to one account.
pub open spec fn minted_to(calls: Seq<Call>, token: AccountId, account: AccountId) -> nat
    decreases calls.len(),
{
    if calls.len() == 0 {
        0
    } else {
        minted_to(calls.drop_last(), token, account) + mint_amount_to(
            calls.last(),
            token,
            account,
        )
    }
}

/// Who owns a component after a sequence of calls, given who owned it before.
pub open spec fn owner_after(calls: Seq<Call>, component: AccountId, owner: AccountId) -> AccountId
    decreases calls.len(),
{
    if calls.len() == 0 {
        owner
    } else {
        let before = owner_after(calls.drop_last(), component, owner);
        match calls.last() {
            Call::TransferOwnership { role, component: callee, new_owner } => if callee
                == component {
                new_owner
            } else {
                before
            },
            _ => before,
        }
    }
}

/// Lists the calls that set up the profile component.
pub fn wire_base(param: &BaseParam, base: AccountId) -> (calls: Vec<Call>)
    ensures
        calls@ == base_calls(*param, base),
{
    let mut calls: Vec<Call> = Vec::new();
    calls.push(
        Call::InitProfile {
            base,
            name: param.name.clone(),
            logo: param.logo.clone(),
            desc: param.desc.clone(),
        },
    );
    assert(calls@ =~= base_calls(*param, base));
    calls
}

/// Lists the calls that set up the membership component.
pub fn wire_org(param: &OrgParam, org: AccountId) -> (calls: Vec<Call>)
    ensures
        calls@ == org_calls(*param, org),
{
    let mut calls: Vec<Call> = Vec::new();
    let mut i: usize = 0;
    while i < param.moderators.len()
        invariant
            i <= param.moderators.len(),
            calls@ == moderator_calls(*param, org).take(i as int),
        decreases param.moderators.len() - i,
    {
        let moderator = &param.moderators[i];
        calls.push(
            Call::AddModerator { org, name: moderator.name.clone(), moderator: moderator.account },
        );
        i = i + 1;
        assert(calls@ =~= moderator_calls(*param, org).take(i as int));
    }
    assert(calls@ =~= moderator_calls(*param, org));
    calls.push(Call::TransferOwnership { role: Role::Org, component: org, new_owner: param.owner });
    calls
}

/// Lists the calls that set up the token. Fails, and with
/// `ArithmeticUnderflow`, exactly where the distribution exceeds the total
/// supply.
pub fn wire_erc20(
    param: &ERC20Param,
    transfers: &Vec<Transfer>,
    erc20: AccountId,
    vault: AccountId,
) -> (r: Result<Vec<Call>, InitError>)
    ensures
        total_transferred(transfers@) <= param.total_supply ==> r is Ok && r->Ok_0@ == erc20_calls(
            *param,
            transfers@,
            erc20,
            vault,
        ),
        total_transferred(transfers@) > param.total_supply ==> r == Err::<Vec<Call>, InitError>(
            InitError::ArithmeticUnderflow,
        ),
{
    let total = param.total_supply;
    let mut calls: Vec<Call> = Vec::new();
    let mut transfer: u64 = 0;
    let mut i: usize = 0;
    while i < transfers.len()
        invariant
            i <= transfers.len(),
            total == param.total_supply,
            calls@ == mint_calls(transfers@, erc20).take(i as int),
            transfer == total_transferred(transfers@.take(i as int)),
            transfer <= total,
        decreases transfers.len() - i,
    {
        let entry = transfers[i];
        proof {
            let next = transfers@.take(i + 1);
            assert(next.drop_last() =~= transfers@.take(i as int));
            assert(next.last() == transfers@[i as int]);
            lemma_total_transferred_prefix(transfers@, i + 1);
        }
        if entry.amount > total - transfer {
            return Err(InitError::ArithmeticUnderflow);
        }
        calls.push(Call::Mint { erc20, to: entry.to, amount: entry.amount });
        transfer = transfer + entry.amount;
        i = i + 1;
        assert(calls@ =~= mint_calls(transfers@, erc20).take(i as int));
    }
    assert(transfers@.take(i as int) =~= transfers@);
    assert(calls@ =~= mint_calls(transfers@, erc20));
    calls.push(Call::Mint { erc20, to: vault, amount: total - transfer });
    calls.push(
        Call::TransferOwnership { role: Role::Erc20, component: erc20, new_owner: param.owner },
    );
    Ok(calls)
}

/// Lists the call that makes the treasury know its token.
pub fn wire_vault_token(vault: AccountId, token: AccountId) -> (calls: Vec<Call>)
    ensures
        calls@ == vault_token_calls(vault, token),
{
    let mut calls: Vec<Call> = Vec::new();
    calls.push(Call::RegisterVaultToken { vault, token });
    assert(calls@ =~= vault_token_calls(vault, token));
    calls
}

/// The mints of a distribution without its last entry are the mints of the
/// distribution without the last of them.
proof fn lemma_mint_calls_drop_last(transfers: Seq<Transfer>, erc20: AccountId)
    requires
        transfers.len() > 0,
    ensures
        mint_calls(transfers, erc20).drop_last() == mint_calls(transfers.drop_last(), erc20),
        mint_calls(transfers, erc20).last() == (Call::Mint {
            erc20,
            to: transfers.last().to,
            amount: transfers.last().amount,
        }),
{
    assert(mint_calls(transfers, erc20).drop_last() =~= mint_calls(transfers.drop_last(), erc20));
}

/// The mints of a distribution mint what the distribution lists: in all, and
/// to each account.
pub proof fn lemma_mint_calls_amounts(
    transfers: Seq<Transfer>,
    erc20: AccountId,
    account: AccountId,
)
    ensures
        minted(mint_calls(transfers, erc20), erc20) == total_transferred(transfers),
        minted_to(mint_calls(transfers, erc20), erc20, account) == transferred_to(
            transfers,
            account,
        ),
    decreases transfers.len(),
{
    if transfers.len() > 0 {
        lemma_mint_calls_drop_last(transfers, erc20);
        lemma_mint_calls_amounts(transfers.drop_last(), erc20, account);
    }
}

/// What a sequence with one more call mints, and whom it leaves as owner.
proof fn lemma_push(
    calls: Seq<Call>,
    call: Call,
    token: AccountId,
    account: AccountId,
    component: AccountId,
    owner: AccountId,
)
    ensures
        minted(calls.push(call), token) == minted(calls, token) + mint_amount(call, token),
        minted_to(calls.push(call), token, account) == minted_to(calls, token, account)
            + mint_amount_to(call, token, account),
        owner_after(calls.push(call), component, owner) == match call {
            Call::TransferOwnership { role, component: callee, new_owner } => if callee
                == component {
                new_owner
            } else {
                owner_after(calls, component, owner)
            },
            _ => owner_after(calls, component, owner),
        },
{
    assert(calls.push(call).drop_last() =~= calls);
    assert(calls.push(call).last() == call);
}

/// Where the distribution stays within the total supply, the calls that set
/// up the token mint exactly the total supply.
pub proof fn law_token_conservation(
    param: ERC20Param,
    transfers: Seq<Transfer>,
    erc20: AccountId,
    vault: AccountId,
)
    requires
        total_transferred(transfers) <= param.total_supply,
    ensures
        minted(erc20_calls(param, transfers, erc20, vault), erc20) == param.total_supply,
{
    let mints = mint_calls(transfers, erc20);
    let rest = Call::Mint {
        erc20,
        to: vault,
        amount: (param.total_supply - total_transferred(transfers)) as u64,
    };
    let handoff = Call::TransferOwnership {
        role: Role::Erc20,
        component: erc20,
        new_owner: param.owner,
    };
    lemma_mint_calls_amounts(transfers, erc20, vault);
    lemma_push(mints, rest, erc20, vault, erc20, vault);
    lemma_push(mints.push(rest), handoff, erc20, vault, erc20, vault);
}

/// Each account is minted what the distribution lists for it, and the
/// treasury is minted what the distribution leaves of the total supply
/// besides.
pub proof fn law_recipient_amounts(
    param: ERC20Param,
    transfers: Seq<Transfer>,
    erc20: AccountId,
    vault: AccountId,
    account: AccountId,
)
    requires
        total_transferred(transfers) <= param.total_supply,
    ensures
        minted_to(erc20_calls(param, transfers, erc20, vault), erc20, account) == transferred_to(
            transfers,
            account,
        ) + if account == vault {
            param.total_supply - total_transferred(transfers)
        } else {
            0
        },
{
    let mints = mint_calls(transfers, erc20);
    let rest = Call::Mint {
        erc20,
        to: vault,
        amount: (param.total_supply - total_transferred(transfers)) as u64,
    };
    let handoff = Call::TransferOwnership {
        role: Role::Erc20,
        component: erc20,
        new_owner: param.owner,
    };
    lemma_mint_calls_amounts(transfers, erc20, account);
    lemma_push(mints, rest, erc20, account, erc20, vault);
    lemma_push(mints.push(rest), handoff, erc20, account, erc20, vault);
}

/// What two sequences of calls do one after the other: what is minted adds
/// up, and the second goes on from the owner that the first leaves.
pub proof fn law_calls_in_sequence(
    first: Seq<Call>,
    then: Seq<Call>,
    token: AccountId,
    account: AccountId,
    component: AccountId,
    owner: AccountId,
)
    ensures
        minted(first + then, token) == minted(first, token) + minted(then, token),
        minted_to(first + then, token, account) == minted_to(first, token, account) + minted_to(
            then,
            token,
            account,
        ),
        owner_after(first + then, component, owner) == owner_after(
            then,
            component,
            owner_after(first, component, owner),
        ),
    decreases then.len(),
{
    if then.len() == 0 {
        assert(first + then =~= first);
    } else {
        law_calls_in_sequence(first, then.drop_last(), token, account, component, owner);
        assert((first + then).drop_last() =~= first + then.drop_last());
        assert((first + then).last() == then.last());
    }
}

/// Adding moderators changes no component's owner.
proof fn lemma_moderator_calls_keep_owner(
    param: OrgParam,
    org: AccountId,
    n: int,
    component: AccountId,
    owner: AccountId,
)
    requires
        0 <= n <= param.moderators@.len(),
    ensures
        owner_after(moderator_calls(param, org).take(n), component, owner) == owner,
        minted(moderator_calls(param, org).take(n), component) == 0,
    decreases n,
{
    if n > 0 {
        lemma_moderator_calls_keep_owner(param, org, n - 1, component, owner);
        assert(moderator_calls(param, org).take(n).drop_last() =~= moderator_calls(
            param,
            org,
        ).take(n - 1));
    }
}

/// Minting changes no component's owner.
proof fn lemma_mint_calls_keep_owner(
    transfers: Seq<Transfer>,
    erc20: AccountId,
    component: AccountId,
    owner: AccountId,
)
    ensures
        owner_after(mint_calls(transfers, erc20), component, owner) == owner,
    decreases transfers.len(),
{
    if transfers.len() > 0 {
        lemma_mint_calls_drop_last(transfers, erc20);
        lemma_mint_calls_keep_owner(transfers.drop_last(), erc20, component, owner);
    }
}

/// Whoever owned the membership component before, after the calls that set
/// it up its owner is the one that the parameters name; so for the token.
/// Either set of calls leaves the owner of every other component as it was.
pub proof fn law_ownership_handoff(
    org_param: OrgParam,
    org: AccountId,
    erc20_param: ERC20Param,
    transfers: Seq<Transfer>,
    erc20: AccountId,
    vault: AccountId,
    component: AccountId,
    owner: AccountId,
)
    ensures
        owner_after(org_calls(org_param, org), org, owner) == org_param.owner,
        owner_after(erc20_calls(erc20_param, transfers, erc20, vault), erc20, owner)
            == erc20_param.owner,
        component != org ==> owner_after(org_calls(org_param, org), component, owner) == owner,
        component != erc20 ==> owner_after(
            erc20_calls(erc20_param, transfers, erc20, vault),
            component,
            owner,
        ) == owner,
{
    let moderators = moderator_calls(org_param, org);
    let org_handoff = Call::TransferOwnership {
        role: Role::Org,
        component: org,
        new_owner: org_param.owner,
    };
    assert(moderators.take(moderators.len() as int) =~= moderators);
    lemma_moderator_calls_keep_owner(
        org_param,
        org,
        moderators.len() as int,
        component,
        owner,
    );
    lemma_push(moderators, org_handoff, org, org, org, owner);
    lemma_push(moderators, org_handoff, org, org, component, owner);

    let mints = mint_calls(transfers, erc20);
    let rest = Call::Mint {
        erc20,
        to: vault,
        amount: (erc20_param.total_supply - total_transferred(transfers)) as u64,
    };
    let handoff = Call::TransferOwnership {
        role: Role::Erc20,
        component: erc20,
        new_owner: erc20_param.owner,
    };
    lemma_mint_calls_keep_owner(transfers, erc20, component, owner);
    lemma_push(mints, rest, erc20, vault, component, owner);
    lemma_push(mints.push(rest), handoff, erc20, vault, component, owner);
    lemma_push(mints.push(rest), handoff, erc20, vault, erc20, owner);
}

/// The calls that set up the profile and the call that registers the
/// treasury's token change no component's owner and mint nothing; the calls
/// that set up the membership component mint nothing either.
pub proof fn law_other_calls_are_neutral(
    param: BaseParam,
    base: AccountId,
    org_param: OrgParam,
    org: AccountId,
    vault: AccountId,
    registered: AccountId,
    token: AccountId,
    component: AccountId,
    owner: AccountId,
)
    ensures
        owner_after(base_calls(param, base), component, owner) == owner,
        owner_after(vault_token_calls(vault, registered), component, owner) == owner,
        minted(base_calls(param, base), token) == 0,
        minted(vault_token_calls(vault, registered), token) == 0,
        minted(org_calls(org_param, org), token) == 0,
{
    let moderators = moderator_calls(org_param, org);
    let handoff = Call::TransferOwnership {
        role: Role::Org,
        component: org,
        new_owner: org_param.owner,
    };
    assert(moderators.take(moderators.len() as int) =~= moderators);
    lemma_moderator_calls_keep_owner(org_param, org, moderators.len() as int, token, owner);
    lemma_push(moderators, handoff, token, owner, component, owner);

    let none = Seq::<Call>::empty();
    let profile = Call::InitProfile { base, name: param.name, logo: param.logo, desc: param.desc };
    let register = Call::RegisterVaultToken { vault, token: registered };
    assert(base_calls(param, base) =~= none.push(profile));
    assert(vault_token_calls(vault, registered) =~= none.push(register));
    lemma_push(none, profile, token, owner, component, owner);
    lemma_push(none, register, token, owner, component, owner);
}

} // verus!
