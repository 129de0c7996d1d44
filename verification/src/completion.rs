use vstd::prelude::*;
use crate::account::AccountId;
use crate::host::{ActionView, Call, Env, Event, InitError};
use crate::laws::{law_recording_makes_progress, pending_count, Input, apply};
use crate::machine::{ManagerState, Stage};
use crate::params::DAOInitParams;
use crate::role::Role;
use crate::template::DAOTemplate;
use crate::wiring::{erc20_calls, law_calls_in_sequence, law_other_calls_are_neutral};
use crate::wiring::{law_ownership_handoff, law_token_conservation};
use crate::wiring::{mint_amount, minted, owner_after};

verus! {

/// A host that does what it is asked: every deployment gives an address,
/// and every call is made.
pub struct Host {
    /// The address that the deployment of each turn gives.
    pub deployed: spec_fn(nat) -> AccountId,
    /// What the environment says at each turn.
    pub env: spec_fn(nat) -> Env,
}

impl ManagerState {
    /// Whether nothing that is still to be deployed lacks a dependency for
    /// good: each dependency of such a role either stands or is itself in
    /// the template.
    pub open spec fn self_sufficient(self) -> bool {
        &&& self.pending(Role::Vault) ==> self.provided(Role::Org) && self.provided(Role::Auth)
        &&& self.pending(Role::Vote) ==> self.provided(Role::Vault)
        &&& self.pending(Role::Erc20) ==> self.provided(Role::Vault)
    }

    /// Whether a role stands or is in the template.
    pub open spec fn provided(self, role: Role) -> bool {
        self.addrs.addr(role) is Some || self.in_template(role)
    }

    /// What a host that does what it is asked reports next.
    pub open spec fn answer(self, addr: AccountId) -> Event {
        match self.run {
            Some(run) => match run.stage {
                Stage::Deploying(role) => Event::Deployed(Some(addr)),
                _ => Event::Called,
            },
            None => Event::Called,
        }
    }

    /// How many reports are needed at most until the organization stands.
    pub open spec fn reports_left(self) -> nat {
        match self.run {
            Some(run) => match run.stage {
                Stage::Deploying(role) => 2 * pending_count(self) + 1,
                Stage::Wiring(role, addr) => 2 * pending_count(self),
                Stage::Registering => 1,
            },
            None => 0,
        }
    }
}

/// The state to which a host that does what it is asked brings an
/// initialization in a number of turns, beginning with a given turn.
pub open spec fn cooperate(state: ManagerState, host: Host, turn: nat, turns: nat) -> ManagerState
    decreases turns,
{
    if turns == 0 || state.run is None {
        state
    } else {
        cooperate(
            state.step(state.answer((host.deployed)(turn)), (host.env)(turn)).0,
            host,
            turn + 1,
            (turns - 1) as nat,
        )
    }
}

/// What the host is asked for tells what the orchestrator waits for: the
/// outcome of a deployment exactly when a deployment is asked for, the
/// making of calls exactly when calls are asked for, and nothing exactly
/// when the host is told that the organization stands. Where an input is
/// turned down or stops the initialization, either nothing has changed or
/// no initialization is under way any more.
pub proof fn law_action_matches_stage(state: ManagerState, input: Input)
    requires
        state.wf(),
    ensures
        ({
            let after = apply(state, input).0;
            let outcome = apply(state, input).1;
            &&& outcome is Ok ==> {
                &&& outcome->Ok_0 is Deploy <==> after.run is Some
                    && after.run->Some_0.stage is Deploying
                &&& outcome->Ok_0 is Call <==> after.run is Some && (after.run->Some_0.stage
                    is Wiring || after.run->Some_0.stage is Registering)
                &&& outcome->Ok_0 is Finished <==> after.run is None
            }
            &&& outcome is Err ==> after == state || after.run is None
        }),
{
}

/// With a template that leaves out no dependency, no role that is due lacks
/// one: every role finds the addresses that its constructor takes.
pub proof fn law_no_dependency_is_missing(state: ManagerState, role: Role)
    requires
        state.self_sufficient(),
        state.next_role() == Some(role),
    ensures
        state.addrs.missing_dependency(role) is None,
{
}

/// A template that names a blueprint for every dependency of the roles that
/// it names leaves out no dependency, whatever stands already; and it does
/// so in the sense of the roles' own lists of dependencies.
pub proof fn law_closed_template_suffices(state: ManagerState, template: DAOTemplate)
    requires
        state.template == Some(template),
        template.closed(),
    ensures
        state.self_sufficient(),
        forall|role: Role, i: int|
            template.code_hash_spec(role) is Some && 0 <= i < role.dependencies().len()
                ==> template.code_hash_spec(#[trigger] role.dependencies()[i]) is Some,
{
}

/// One turn of a host that does what it is asked: the report is taken, the
/// next request follows or the organization stands, and fewer reports are
/// left to make.
proof fn lemma_turn(state: ManagerState, addr: AccountId, env: Env)
    requires
        state.wf(),
        state.self_sufficient(),
        state.run is Some,
    ensures
        ({
            let next = state.step(state.answer(addr), env);
            &&& next.1 is Ok
            &&& next.0.wf()
            &&& next.0.self_sufficient()
            &&& next.0.template == state.template
            &&& next.0.reports_left() < state.reports_left()
            &&& next.0.run is None ==> next.0.initialized
            &&& next.0.run matches Some(run) ==> run.params == state.run->Some_0.params
        }),
{
    let input = Input::Step(state.answer(addr), env);
    let next = state.step(state.answer(addr), env);
    law_recording_makes_progress(state, input);
    let run = state.run->Some_0;
    match run.stage {
        Stage::Deploying(role) => {
            if !role.has_wiring() {
                let recorded = state.recorded(role, addr);
                assert(recorded.self_sufficient());
                if recorded.next_role() is Some {
                    law_no_dependency_is_missing(recorded, recorded.next_role()->Some_0);
                }
            }
        },
        Stage::Wiring(role, at) => {
            let recorded = state.recorded(role, at);
            assert(recorded.self_sufficient());
            if recorded.next_role() is Some {
                law_no_dependency_is_missing(recorded, recorded.next_role()->Some_0);
            }
        },
        Stage::Registering => {},
    }
}

/// With a template that leaves out no dependency and a host that does what
/// it is asked, an initialization that is under way comes to its end: after
/// as many turns as reports are left, at most thirteen, the organization
/// stands and every role of the template has an address.
pub proof fn law_cooperative_host_completes(
    state: ManagerState,
    host: Host,
    turn: nat,
    turns: nat,
    role: Role,
)
    requires
        state.wf(),
        state.self_sufficient(),
        state.run is Some,
        turns >= state.reports_left(),
    ensures
        state.reports_left() <= 13,
        cooperate(state, host, turn, turns).initialized,
        cooperate(state, host, turn, turns).run is None,
        cooperate(state, host, turn, turns).template == state.template,
        state.in_template(role) ==> cooperate(state, host, turn, turns).addrs.addr(role) is Some,
    decreases turns,
{
    let addr = (host.deployed)(turn);
    let env = (host.env)(turn);
    lemma_turn(state, addr, env);
    let next = state.step(state.answer(addr), env).0;
    if next.run is Some {
        law_cooperative_host_completes(next, host, turn + 1, (turns - 1) as nat, role);
    } else {
        assert(cooperate(next, host, turn + 1, (turns - 1) as nat) == next);
        assert(next.next_role() is None);
    }
}

/// With a template that leaves out no dependency, the owner's
/// initialization is taken up unless the distribution exceeds the supply of
/// a token that is still to be deployed: the host is asked for something, or
/// the organization stands at once.
pub proof fn law_initialization_begins(state: ManagerState, env: Env, params: DAOInitParams)
    requires
        state.wf(),
        state.self_sufficient(),
        !state.initialized,
        state.template is Some,
        env.caller == state.owner,
        state.pending(Role::Erc20) ==> params.supply_covers_transfers(),
    ensures
        state.start(env, params).1 is Ok,
        state.start(env, params).0.wf(),
        state.start(env, params).0.self_sufficient(),
        state.start(env, params).0.run is None ==> state.start(env, params).0.initialized,
{
    if state.halted().next_role() is Some {
        law_no_dependency_is_missing(state.halted(), state.halted().next_role()->Some_0);
    }
}

/// The calls that an outcome asks for.
pub open spec fn calls_of(outcome: Result<ActionView, InitError>) -> Seq<Call> {
    match outcome {
        Ok(ActionView::Call(calls)) => calls,
        _ => Seq::empty(),
    }
}

/// All the calls that a host that does what it is asked is asked to make
/// while it brings an initialization forward by a number of turns.
pub open spec fn calls_asked(state: ManagerState, host: Host, turn: nat, turns: nat) -> Seq<Call>
    decreases turns,
{
    if turns == 0 || state.run is None {
        Seq::empty()
    } else {
        let next = state.step(state.answer((host.deployed)(turn)), (host.env)(turn));
        calls_of(next.1) + calls_asked(next.0, host, turn + 1, (turns - 1) as nat)
    }
}

impl ManagerState {
    /// Whether the calls that set up a role's component are still to be
    /// asked for: the role is still to be deployed and is not being wired.
    pub open spec fn to_come(self, role: Role) -> bool {
        self.pending(role) && !(self.run matches Some(run) && run.stage matches Stage::Wiring(
            at_work,
            addr,
        ) && at_work == role)
    }
}

/// Where a role's component stands at the end: at the address that it has
/// already, at the one at which it is being wired, or at the one that its
/// deployment gives in this turn.
proof fn lemma_final_address(state: ManagerState, host: Host, turn: nat, turns: nat, role: Role)
    requires
        state.wf(),
        state.self_sufficient(),
        state.run is Some,
        turns >= state.reports_left(),
    ensures
        state.addrs.addr(role) is Some ==> cooperate(state, host, turn, turns).addrs.addr(role)
            == state.addrs.addr(role),
        state.run->Some_0.stage matches Stage::Wiring(at_work, addr) ==> (at_work == role
            ==> cooperate(state, host, turn, turns).addrs.addr(role) == Some(addr)),
        state.run->Some_0.stage == Stage::Deploying(role) ==> cooperate(
            state,
            host,
            turn,
            turns,
        ).addrs.addr(role) == Some((host.deployed)(turn)),
        !state.in_template(role) ==> cooperate(state, host, turn, turns).addrs.addr(role)
            == state.addrs.addr(role),
    decreases turns,
{
    let addr = (host.deployed)(turn);
    let env = (host.env)(turn);
    lemma_turn(state, addr, env);
    let next = state.step(state.answer(addr), env).0;
    if next.run is Some {
        lemma_final_address(next, host, turn + 1, (turns - 1) as nat, role);
    } else {
        assert(cooperate(next, host, turn + 1, (turns - 1) as nat) == next);
    }
}

/// What the calls that set up the token mint of a token: the total supply
/// of the token itself, and nothing of any other.
proof fn lemma_token_calls_mint(state: ManagerState, token: AccountId, other: AccountId)
    requires
        state.wf(),
        state.run matches Some(run) && run.stage == Stage::Deploying(Role::Erc20),
    ensures
        minted(state.wiring(Role::Erc20, state.run->Some_0.params, token), other) == if other
            == token {
            state.run->Some_0.params.erc20.total_supply as nat
        } else {
            0
        },
{
    let params = state.run->Some_0.params;
    let vault = state.addrs.vault_addr->Some_0;
    let calls = erc20_calls(params.erc20, params.erc20_transfers@, token, vault);
    if other == token {
        law_token_conservation(params.erc20, params.erc20_transfers@, token, vault);
    } else {
        assert forall|i: int| 0 <= i < calls.len() implies mint_amount(
            #[trigger] calls[i],
            other,
        ) == 0 by {}
        lemma_nothing_minted(calls, other);
    }
}

/// Calls of which none mints a token mint nothing of it together.
proof fn lemma_nothing_minted(calls: Seq<Call>, token: AccountId)
    requires
        forall|i: int| 0 <= i < calls.len() ==> mint_amount(#[trigger] calls[i], token) == 0,
    ensures
        minted(calls, token) == 0,
    decreases calls.len(),
{
    if calls.len() > 0 {
        lemma_nothing_minted(calls.drop_last(), token);
    }
}

/// What one report leads the host to be asked to mint: the total supply of
/// the token, when the report is that the token was deployed, and nothing
/// else.
proof fn lemma_minted_in_turn(state: ManagerState, addr: AccountId, env: Env, token: AccountId)
    requires
        state.wf(),
        state.run is Some,
    ensures
        minted(calls_of(state.step(state.answer(addr), env).1), token) == if state.run->Some_0.stage
            == Stage::Deploying(Role::Erc20) && token == addr {
            state.run->Some_0.params.erc20.total_supply as nat
        } else {
            0
        },
{
    let run = state.run->Some_0;
    let params = run.params;
    let outcome = state.step(state.answer(addr), env).1;
    law_other_calls_are_neutral(
        params.base,
        addr,
        params.org,
        addr,
        addr,
        addr,
        token,
        token,
        token,
    );
    match run.stage {
        Stage::Deploying(role) => {
            if role == Role::Erc20 {
                lemma_token_calls_mint(state, addr, token);
            } else if role.has_wiring() {
            } else {
                lemma_advance_mints_nothing(state.recorded(role, addr), params, env, token);
            }
        },
        Stage::Wiring(role, at) => {
            lemma_advance_mints_nothing(state.recorded(role, at), params, env, token);
        },
        Stage::Registering => {
            assert(calls_of(outcome) =~= Seq::<Call>::empty());
        },
    }
}

/// Going on with the sequence asks for nothing that mints.
proof fn lemma_advance_mints_nothing(
    state: ManagerState,
    params: DAOInitParams,
    env: Env,
    token: AccountId,
)
    ensures
        minted(calls_of(state.advance(params, env).1), token) == 0,
{
    let outcome = state.advance(params, env).1;
    match outcome {
        Ok(ActionView::Call(calls)) => {
            law_other_calls_are_neutral(
                params.base,
                token,
                params.org,
                token,
                state.addrs.vault_addr->Some_0,
                state.addrs.erc20_addr->Some_0,
                token,
                token,
                token,
            );
        },
        _ => {
            assert(calls_of(outcome) =~= Seq::<Call>::empty());
        },
    }
}

/// With a template that leaves out no dependency and a host that does what
/// it is asked, the calls that are asked for until the organization stands
/// mint exactly the total supply of the token, if the token is still to
/// come, and of nothing else anything.
pub proof fn law_supply_is_minted_once(
    state: ManagerState,
    host: Host,
    turn: nat,
    turns: nat,
    token: AccountId,
)
    requires
        state.wf(),
        state.self_sufficient(),
        state.run is Some,
        turns >= state.reports_left(),
    ensures
        state.to_come(Role::Erc20) ==> cooperate(state, host, turn, turns).addrs.erc20_addr
            is Some,
        minted(calls_asked(state, host, turn, turns), token) == if state.to_come(Role::Erc20)
            && cooperate(state, host, turn, turns).addrs.erc20_addr == Some(token) {
            state.run->Some_0.params.erc20.total_supply as nat
        } else {
            0
        },
    decreases turns,
{
    let addr = (host.deployed)(turn);
    let env = (host.env)(turn);
    let step = state.step(state.answer(addr), env);
    let next = step.0;
    let rest = calls_asked(next, host, turn + 1, (turns - 1) as nat);
    lemma_turn(state, addr, env);
    lemma_minted_in_turn(state, addr, env, token);
    lemma_final_address(state, host, turn, turns, Role::Erc20);
    law_calls_in_sequence(calls_of(step.1), rest, token, token, token, token);
    if next.run is Some {
        law_supply_is_minted_once(next, host, turn + 1, (turns - 1) as nat, token);
        lemma_final_address(next, host, turn + 1, (turns - 1) as nat, Role::Erc20);
    } else {
        assert(rest =~= Seq::<Call>::empty());
        assert(cooperate(next, host, turn + 1, (turns - 1) as nat) == next);
        assert(next.next_role() is None);
    }
}

/// Going on with the sequence asks for nothing that changes an owner.
proof fn lemma_advance_keeps_owners(
    state: ManagerState,
    params: DAOInitParams,
    env: Env,
    component: AccountId,
    owner: AccountId,
)
    ensures
        owner_after(calls_of(state.advance(params, env).1), component, owner) == owner,
{
    let outcome = state.advance(params, env).1;
    match outcome {
        Ok(ActionView::Call(calls)) => {
            law_other_calls_are_neutral(
                params.base,
                component,
                params.org,
                component,
                state.addrs.vault_addr->Some_0,
                state.addrs.erc20_addr->Some_0,
                component,
                component,
                owner,
            );
        },
        _ => {
            assert(calls_of(outcome) =~= Seq::<Call>::empty());
        },
    }
}

/// Whom one report leads the host to be asked to make the owner of a
/// component: the owner that the parameters name, when the report is that
/// the token or the membership component was deployed at its address, and
/// nobody else.
proof fn lemma_owner_in_turn(
    state: ManagerState,
    addr: AccountId,
    env: Env,
    component: AccountId,
    owner: AccountId,
)
    requires
        state.wf(),
        state.run is Some,
    ensures
        owner_after(calls_of(state.step(state.answer(addr), env).1), component, owner) == if state.run->Some_0.stage
            == Stage::Deploying(Role::Erc20) && component == addr {
            state.run->Some_0.params.erc20.owner
        } else if state.run->Some_0.stage == Stage::Deploying(Role::Org) && component == addr {
            state.run->Some_0.params.org.owner
        } else {
            owner
        },
{
    let run = state.run->Some_0;
    let params = run.params;
    let outcome = state.step(state.answer(addr), env).1;
    law_other_calls_are_neutral(
        params.base,
        addr,
        params.org,
        addr,
        addr,
        addr,
        component,
        component,
        owner,
    );
    law_ownership_handoff(
        params.org,
        addr,
        params.erc20,
        params.erc20_transfers@,
        addr,
        state.addrs.vault_addr->Some_0,
        component,
        owner,
    );
    match run.stage {
        Stage::Deploying(role) => {
            if !role.has_wiring() {
                lemma_advance_keeps_owners(state.recorded(role, addr), params, env, component, owner);
            }
        },
        Stage::Wiring(role, at) => {
            lemma_advance_keeps_owners(state.recorded(role, at), params, env, component, owner);
        },
        Stage::Registering => {
            assert(calls_of(outcome) =~= Seq::<Call>::empty());
        },
    }
}

/// With a template that leaves out no dependency and a host that does what
/// it is asked, the calls that are asked for until the organization stands
/// leave the token, if it is still to come, with the owner that the
/// parameters name for it, and so the membership component; the owner of
/// anything else is who it was.
pub proof fn law_owners_are_installed(
    state: ManagerState,
    host: Host,
    turn: nat,
    turns: nat,
    component: AccountId,
    owner: AccountId,
)
    requires
        state.wf(),
        state.self_sufficient(),
        state.run is Some,
        turns >= state.reports_left(),
    ensures
        state.to_come(Role::Org) ==> cooperate(state, host, turn, turns).addrs.org_addr is Some,
        owner_after(calls_asked(state, host, turn, turns), component, owner) == if state.to_come(
            Role::Erc20,
        ) && cooperate(state, host, turn, turns).addrs.erc20_addr == Some(component) {
            state.run->Some_0.params.erc20.owner
        } else if state.to_come(Role::Org) && cooperate(state, host, turn, turns).addrs.org_addr
            == Some(component) {
            state.run->Some_0.params.org.owner
        } else {
            owner
        },
    decreases turns,
{
    let addr = (host.deployed)(turn);
    let env = (host.env)(turn);
    let step = state.step(state.answer(addr), env);
    let next = step.0;
    let rest = calls_asked(next, host, turn + 1, (turns - 1) as nat);
    let handed = owner_after(calls_of(step.1), component, owner);
    lemma_turn(state, addr, env);
    lemma_owner_in_turn(state, addr, env, component, owner);
    lemma_final_address(state, host, turn, turns, Role::Erc20);
    lemma_final_address(state, host, turn, turns, Role::Org);
    law_calls_in_sequence(calls_of(step.1), rest, component, component, component, owner);
    if next.run is Some {
        law_owners_are_installed(next, host, turn + 1, (turns - 1) as nat, component, handed);
        lemma_final_address(next, host, turn + 1, (turns - 1) as nat, Role::Erc20);
        lemma_final_address(next, host, turn + 1, (turns - 1) as nat, Role::Org);
    } else {
        assert(rest =~= Seq::<Call>::empty());
        assert(cooperate(next, host, turn + 1, (turns - 1) as nat) == next);
        assert(next.next_role() is None);
    }
}

/// With a template that leaves out no dependency and a host that does what
/// it is asked, the last call that is asked for before an organization with
/// a treasury and a token stands is the one that makes the treasury know the
/// token, unless it was asked for already.
pub proof fn law_registration_comes_last(state: ManagerState, host: Host, turn: nat, turns: nat)
    requires
        state.wf(),
        state.self_sufficient(),
        state.run is Some,
        turns >= state.reports_left(),
    ensures
        ({
            let end = cooperate(state, host, turn, turns);
            let calls = calls_asked(state, host, turn, turns);
            end.addrs.vault_addr is Some && end.addrs.erc20_addr is Some
                && state.run->Some_0.stage != Stage::Registering ==> calls.len() > 0
                && calls.last() == (Call::RegisterVaultToken {
                vault: end.addrs.vault_addr->Some_0,
                token: end.addrs.erc20_addr->Some_0,
            })
        }),
    decreases turns,
{
    let addr = (host.deployed)(turn);
    let env = (host.env)(turn);
    let step = state.step(state.answer(addr), env);
    let next = step.0;
    let rest = calls_asked(next, host, turn + 1, (turns - 1) as nat);
    let end = cooperate(state, host, turn, turns);
    lemma_turn(state, addr, env);
    if next.run is Some {
        law_registration_comes_last(next, host, turn + 1, (turns - 1) as nat);
        if next.run->Some_0.stage == Stage::Registering {
            lemma_turn(next, (host.deployed)(turn + 1), (host.env)(turn + 1));
            let last = next.step(next.answer((host.deployed)(turn + 1)), (host.env)(turn + 1));
            assert(last.0.run is None);
            assert(cooperate(last.0, host, turn + 2, (turns - 2) as nat) == last.0);
            assert(calls_asked(last.0, host, turn + 2, (turns - 2) as nat) =~= Seq::<Call>::empty());
            assert(rest =~= Seq::<Call>::empty());
            assert(calls_of(step.1) + rest =~= calls_of(step.1));
        }
    } else {
        assert(rest =~= Seq::<Call>::empty());
        assert(cooperate(next, host, turn + 1, (turns - 1) as nat) == next);
    }
}

/// A whole initialization. With a template that leaves out no dependency
/// and a host that does what it is asked, the owner's initialization makes
/// the organization stand within thirteen turns. Every role of the template
/// then has an address. If the token was still to be deployed, the calls
/// that were asked for minted its total supply and left it with the owner
/// that the parameters name. If the membership component was still to be
/// deployed, and did not come to stand at the token's address, they left it
/// with the owner that the parameters name. And if both a treasury and a
/// token stand, the last of the calls made the treasury know the token.
pub proof fn law_whole_initialization(
    state: ManagerState,
    env: Env,
    params: DAOInitParams,
    host: Host,
    turns: nat,
    role: Role,
    before: AccountId,
)
    requires
        state.wf(),
        state.self_sufficient(),
        !state.initialized,
        state.template is Some,
        env.caller == state.owner,
        state.pending(Role::Erc20) ==> params.supply_covers_transfers(),
        turns >= 13,
    ensures
        ({
            let began = state.start(env, params);
            let end = cooperate(began.0, host, 0, turns);
            let calls = calls_of(began.1) + calls_asked(began.0, host, 0, turns);
            &&& began.1 is Ok
            &&& end.initialized
            &&& state.in_template(role) ==> end.addrs.addr(role) is Some
            &&& state.addrs.addr(role) is Some ==> end.addrs.addr(role) == state.addrs.addr(role)
            &&& state.pending(Role::Erc20) ==> {
                &&& end.addrs.erc20_addr is Some
                &&& minted(calls, end.addrs.erc20_addr->Some_0) == params.erc20.total_supply
                &&& owner_after(calls, end.addrs.erc20_addr->Some_0, before) == params.erc20.owner
            }
            &&& state.pending(Role::Org) && end.addrs.org_addr != end.addrs.erc20_addr ==> {
                &&& end.addrs.org_addr is Some
                &&& owner_after(calls, end.addrs.org_addr->Some_0, before) == params.org.owner
            }
            &&& end.addrs.vault_addr is Some && end.addrs.erc20_addr is Some ==> calls.len() > 0
                && calls.last() == (Call::RegisterVaultToken {
                vault: end.addrs.vault_addr->Some_0,
                token: end.addrs.erc20_addr->Some_0,
            })
        }),
{
    let began = state.start(env, params);
    let first = calls_of(began.1);
    let rest = calls_asked(began.0, host, 0, turns);
    let end = cooperate(began.0, host, 0, turns);
    law_initialization_begins(state, env, params);
    let halted = state.halted();
    assert(began == halted.advance(params, env));
    if began.0.run is Some {
        law_cooperative_host_completes(began.0, host, 0, turns, role);
        lemma_final_address(began.0, host, 0, turns, role);
        let token = end.addrs.erc20_addr->Some_0;
        let org = end.addrs.org_addr->Some_0;
        law_supply_is_minted_once(began.0, host, 0, turns, token);
        law_owners_are_installed(began.0, host, 0, turns, token, before);
        law_owners_are_installed(began.0, host, 0, turns, org, before);
        law_registration_comes_last(began.0, host, 0, turns);
        lemma_advance_mints_nothing(halted, params, env, token);
        lemma_advance_keeps_owners(halted, params, env, token, before);
        lemma_advance_keeps_owners(halted, params, env, org, before);
        law_calls_in_sequence(first, rest, token, token, token, before);
        law_calls_in_sequence(first, rest, token, token, org, before);
        if began.0.run->Some_0.stage == Stage::Registering {
            lemma_turn(began.0, (host.deployed)(0), (host.env)(0));
            let last = began.0.step(began.0.answer((host.deployed)(0)), (host.env)(0));
            assert(cooperate(last.0, host, 1, (turns - 1) as nat) == last.0);
            assert(calls_asked(last.0, host, 1, (turns - 1) as nat) =~= Seq::<Call>::empty());
            assert(rest =~= Seq::<Call>::empty());
            assert(first + rest =~= first);
        } else {
            assert(first =~= Seq::<Call>::empty());
            assert(first + rest =~= rest);
        }
    } else {
        assert(end == began.0);
        assert(rest =~= Seq::<Call>::empty());
        assert(began.0.next_role() is None);
    }
}

} // verus!
