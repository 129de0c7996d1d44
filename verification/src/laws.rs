use vstd::prelude::*;
use crate::account::{AccountId, CodeHash};
use crate::host::quarter;
use crate::host::{ActionView, Constructor, Env, Event, InitError};
use crate::machine::{ManagerState, Stage, Transition};
use crate::params::DAOInitParams;
use crate::role::{deployment_order, Role};
use crate::template::DAOTemplate;
use crate::wiring::{law_ownership_handoff, law_token_conservation};
use crate::wiring::{minted, owner_after, vault_token_calls};

verus! {

/// One thing that is done to the orchestrator once its template is set.
pub enum Input {
    /// An initialization is begun.
    Start(Env, DAOInitParams),
    /// The host reports.
    Step(Event, Env),
}

/// What an input leads to.
pub open spec fn apply(state: ManagerState, input: Input) -> Transition {
    match input {
        Input::Start(env, params) => state.start(env, params),
        Input::Step(event, env) => state.step(event, env),
    }
}

/// The state after a sequence of inputs.
pub open spec fn run(state: ManagerState, inputs: Seq<Input>) -> ManagerState
    decreases inputs.len(),
{
    if inputs.len() == 0 {
        state
    } else {
        apply(run(state, inputs.drop_last()), inputs.last()).0
    }
}

/// The orchestrator is well formed when it is made, and every operation
/// keeps it so.
pub proof fn law_well_formed(
    state: ManagerState,
    owner: AccountId,
    org_id: u64,
    template: DAOTemplate,
    input: Input,
)
    requires
        state.wf(),
    ensures
        ManagerState::fresh(owner, org_id).wf(),
        state.set_template(template).0.wf(),
        apply(state, input).0.wf(),
{
}

/// Once the organization stands, no operation changes anything: a template
/// and an initialization are turned down with `AlreadyInitialized`, and a
/// report answers nothing.
pub proof fn law_initialized_is_final(state: ManagerState, template: DAOTemplate, input: Input)
    requires
        state.wf(),
        state.initialized,
    ensures
        state.set_template(template) == (state, Err::<bool, InitError>(InitError::AlreadyInitialized)),
        apply(state, input).0 == state,
        input is Start ==> apply(state, input).1 == Err::<ActionView, InitError>(
            InitError::AlreadyInitialized,
        ),
        input is Step ==> apply(state, input).1 == Err::<ActionView, InitError>(
            InitError::UnexpectedEvent,
        ),
{
}

/// The organization comes to stand exactly when the host is told that it is
/// finished, and at that moment no initialization is under way any more.
pub proof fn law_finished_sets_the_flag(state: ManagerState, input: Input)
    requires
        state.wf(),
        !state.initialized,
    ensures
        apply(state, input).0.initialized <==> apply(state, input).1 == Ok::<
            ActionView,
            InitError,
        >(ActionView::Finished),
        apply(state, input).0.initialized ==> apply(state, input).0.run is None,
{
}

/// Whatever made the organization stand, the initialization that is begun
/// next is turned down with `AlreadyInitialized` and leaves everything as it
/// was.
pub proof fn law_second_initialization_is_rejected(
    state: ManagerState,
    input: Input,
    env: Env,
    params: DAOInitParams,
)
    requires
        state.wf(),
        apply(state, input).1 == Ok::<ActionView, InitError>(ActionView::Finished),
    ensures
        apply(state, input).0.start(env, params) == (
            apply(state, input).0,
            Err::<ActionView, InitError>(InitError::AlreadyInitialized),
        ),
{
}

/// Without a template nothing is begun: the initialization of an
/// orchestrator that was just made is turned down with `TemplateNotSet`, and
/// every address is still absent.
pub proof fn law_template_comes_first(
    owner: AccountId,
    org_id: u64,
    env: Env,
    params: DAOInitParams,
    role: Role,
)
    ensures
        ManagerState::fresh(owner, org_id).start(env, params) == (
            ManagerState::fresh(owner, org_id),
            Err::<ActionView, InitError>(InitError::TemplateNotSet),
        ),
        ManagerState::fresh(owner, org_id).addrs.addr(role) is None,
{
}

/// Only the owner begins an initialization: for any other caller it is
/// turned down with `NotOwner`, nothing is deployed and nothing changes.
pub proof fn law_only_the_owner_initializes(state: ManagerState, env: Env, params: DAOInitParams)
    requires
        !state.initialized,
        state.template is Some,
        env.caller != state.owner,
    ensures
        state.start(env, params) == (
            state,
            Err::<ActionView, InitError>(InitError::NotOwner),
        ),
{
}

/// An initialization that is turned down changes nothing, and it is turned
/// down for one of four reasons, looked for in this order.
pub proof fn law_guards(state: ManagerState, env: Env, params: DAOInitParams)
    ensures
        state.initialized ==> state.start(env, params) == (
            state,
            Err::<ActionView, InitError>(InitError::AlreadyInitialized),
        ),
        !state.initialized && state.template is None ==> state.start(env, params) == (
            state,
            Err::<ActionView, InitError>(InitError::TemplateNotSet),
        ),
        !state.initialized && state.template is Some && env.caller != state.owner
            ==> state.start(env, params) == (
            state,
            Err::<ActionView, InitError>(InitError::NotOwner),
        ),
        !state.initialized && state.template is Some && env.caller == state.owner && state.pending(
            Role::Erc20,
        ) && !params.supply_covers_transfers() ==> state.start(env, params) == (
            state,
            Err::<ActionView, InitError>(InitError::ArithmeticUnderflow),
        ),
        state.start(env, params).1 matches Err(error) && (error is AlreadyInitialized
            || error is TemplateNotSet || error is NotOwner || error is ArithmeticUnderflow)
            ==> state.start(env, params).0 == state,
{
}

/// What is fixed stays fixed: no input changes the owner, the organization's
/// identifier or the template.
pub proof fn law_inputs_keep_the_setup(state: ManagerState, input: Input)
    ensures
        apply(state, input).0.owner == state.owner,
        apply(state, input).0.org_id == state.org_id,
        apply(state, input).0.template == state.template,
{
}

/// An address is recorded for good: no operation changes or removes it.
pub proof fn law_addresses_are_permanent(
    state: ManagerState,
    template: DAOTemplate,
    input: Input,
    role: Role,
)
    requires
        state.wf(),
        state.addrs.addr(role) is Some,
    ensures
        state.set_template(template).0.addrs.addr(role) == state.addrs.addr(role),
        apply(state, input).0.addrs.addr(role) == state.addrs.addr(role),
{
}

/// No component stands without its dependencies: that holds when the
/// orchestrator is made, and every operation keeps it. So the treasury never
/// stands without the membership component and access control, and neither
/// voting nor the token without the treasury.
pub proof fn law_dependencies_stand_first(
    state: ManagerState,
    owner: AccountId,
    org_id: u64,
    template: DAOTemplate,
    input: Input,
)
    requires
        state.wf(),
        state.addrs.dependencies_stand(),
    ensures
        ManagerState::fresh(owner, org_id).addrs.dependencies_stand(),
        state.set_template(template).0.addrs.dependencies_stand(),
        apply(state, input).0.addrs.dependencies_stand(),
{
}

/// One for a role that is still to be deployed, nought for any other.
pub open spec fn pending_one(state: ManagerState, role: Role) -> nat {
    if state.pending(role) {
        1
    } else {
        0
    }
}

/// How many roles are still to be deployed.
pub open spec fn pending_count(state: ManagerState) -> nat {
    pending_one(state, Role::Base) + pending_one(state, Role::Org) + pending_one(
        state,
        Role::Auth,
    ) + pending_one(state, Role::Vault) + pending_one(state, Role::Vote) + pending_one(
        state,
        Role::Erc20,
    )
}

/// The count depends on the template and the addresses alone, and recording
/// the address of a role that was still to be deployed lowers it by one.
proof fn lemma_pending_count(state: ManagerState, other: ManagerState, role: Role, addr: AccountId)
    ensures
        other.template == state.template && other.addrs == state.addrs ==> pending_count(other)
            == pending_count(state),
        state.pending(role) ==> pending_count(state.recorded(role, addr)) + 1 == pending_count(
            state,
        ),
{
    if state.pending(role) {
        let after = state.recorded(role, addr);
        assert(forall|any: Role|
            any != role ==> #[trigger] after.pending(any) == state.pending(any));
        assert(!after.pending(role));
    }
}

/// Every address that is recorded leaves one role less to deploy, and no
/// input leaves more.
pub proof fn law_recording_makes_progress(state: ManagerState, input: Input)
    requires
        state.wf(),
    ensures
        pending_count(apply(state, input).0) <= pending_count(state),
        apply(state, input).0.addrs != state.addrs ==> pending_count(apply(state, input).0) + 1
            == pending_count(state),
{
    let after = apply(state, input).0;
    law_inputs_keep_the_setup(state, input);
    if after.addrs == state.addrs {
        lemma_pending_count(state, after, Role::Base, state.owner);
    } else {
        let run = state.run->Some_0;
        match run.stage {
            Stage::Deploying(role) => {
                let addr = input->Step_0->Deployed_0->Some_0;
                lemma_pending_count(state, state, role, addr);
                lemma_pending_count(state.recorded(role, addr), after, role, addr);
            },
            Stage::Wiring(role, addr) => {
                lemma_pending_count(state, state, role, addr);
                lemma_pending_count(state.recorded(role, addr), after, role, addr);
            },
            Stage::Registering => {},
        }
    }
}

/// An address is recorded only for the role at work, whose blueprint the
/// template names, and only when the host reports: that the deployment gave
/// the address, for a role on which no calls are made, or else that the calls
/// on the component at the address were made.
pub proof fn law_addresses_come_from_deployments(state: ManagerState, input: Input, role: Role)
    requires
        state.wf(),
        apply(state, input).0.addrs.addr(role) != state.addrs.addr(role),
    ensures
        state.in_template(role),
        state.addrs.addr(role) is None,
        state.addrs.missing_dependency(role) is None,
        state.run is Some,
        apply(state, input).0.addrs == state.addrs.with(
            role,
            apply(state, input).0.addrs.addr(role)->Some_0,
        ),
        match state.run->Some_0.stage {
            Stage::Deploying(at_work) => at_work == role && !role.has_wiring() && input
                == Input::Step(
                Event::Deployed(apply(state, input).0.addrs.addr(role)),
                input->Step_1,
            ),
            Stage::Wiring(at_work, addr) => at_work == role && apply(state, input).0.addrs.addr(
                role,
            ) == Some(addr) && input == Input::Step(Event::Called, input->Step_1),
            Stage::Registering => false,
        },
{
}

/// Every deployment that is asked for is that of the next role still to be
/// deployed, with all its dependencies standing. The request names the
/// role's blueprint, a quarter of what the orchestrator holds when it is
/// made, and the organization's salt; the constructor's arguments are the
/// addresses that were recorded.
pub proof fn law_deployments_follow_the_order(state: ManagerState, input: Input)
    requires
        state.wf(),
    ensures
        apply(state, input).1 matches Ok(ActionView::Deploy(deployment)) ==> {
            let after = apply(state, input).0;
            let role = deployment.constructor.role_spec();
            let env = match input {
                Input::Start(env, params) => env,
                Input::Step(event, env) => env,
            };
            &&& after.run is Some
            &&& after.run->Some_0.stage == Stage::Deploying(role)
            &&& after.next_role() == Some(role)
            &&& after.in_template(role)
            &&& forall|i: int|
                0 <= i < role.dependencies().len() ==> after.addrs.addr(
                    #[trigger] role.dependencies()[i],
                ) is Some
            &&& forall|earlier: Role| #[trigger]
                earlier.rank() < role.rank() ==> !after.pending(earlier)
            &&& deployment == after.deployment(role, after.run->Some_0.params, env)
            &&& deployment.code_hash == after.template->Some_0.code_hash_spec(role)->Some_0
            &&& deployment.endowment == quarter(env.balance)
        },
{
    match apply(state, input).1 {
        Ok(ActionView::Deploy(deployment)) => {
            let after = apply(state, input).0;
            after.addrs.lemma_missing_dependency(deployment.constructor.role_spec());
        },
        _ => {},
    }
}

/// The next role is the first in the deployment order that is still to be
/// deployed, and there is none exactly when no role is still to be deployed.
pub proof fn law_next_role_is_first_pending(state: ManagerState, role: Role)
    ensures
        deployment_order()[role.rank() as int] == role,
        state.next_role() == Some(role) <==> state.pending(role) && forall|earlier: Role| #[trigger]
            state.pending(earlier) ==> role.rank() <= earlier.rank(),
        state.next_role() is None <==> forall|any: Role| !#[trigger] state.pending(any),
{
    if state.next_role() is None {
        assert forall|any: Role| !#[trigger] state.pending(any) by {
            match any {
                Role::Base => {},
                Role::Org => {},
                Role::Auth => {},
                Role::Vault => {},
                Role::Vote => {},
                Role::Erc20 => {},
            }
        }
    }
    if state.next_role() == Some(role) {
        assert forall|earlier: Role| #[trigger] state.pending(earlier) implies role.rank()
            <= earlier.rank() by {
            match earlier {
                Role::Base => {},
                Role::Org => {},
                Role::Auth => {},
                Role::Vault => {},
                Role::Vote => {},
                Role::Erc20 => {},
            }
        }
    }
    if state.pending(role) && forall|earlier: Role| #[trigger]
        state.pending(earlier) ==> role.rank() <= earlier.rank() {
        let found = state.next_role()->Some_0;
        assert(state.pending(found));
    }
}

/// When the host is told that the organization stands, every role for which
/// the template names a blueprint has an address.
pub proof fn law_finished_means_complete(state: ManagerState, input: Input, role: Role)
    requires
        state.wf(),
        apply(state, input).1 == Ok::<ActionView, InitError>(ActionView::Finished),
    ensures
        apply(state, input).0.in_template(role) ==> apply(state, input).0.addrs.addr(role) is Some,
{
    let after = apply(state, input).0;
    law_next_role_is_first_pending(after, role);
}

/// The treasury learns its token. The call that registers the token is asked
/// for with the addresses that were recorded for the treasury and the token;
/// and an organization in which both stand came to stand only when the host
/// reported that this call was made.
pub proof fn law_token_is_registered(state: ManagerState, input: Input)
    requires
        state.wf(),
    ensures
        apply(state, input).0.run matches Some(run) && run.stage == Stage::Registering && apply(
            state,
            input,
        ).1 is Ok ==> apply(state, input).1 == Ok::<ActionView, InitError>(
            ActionView::Call(
                vault_token_calls(
                    apply(state, input).0.addrs.vault_addr->Some_0,
                    apply(state, input).0.addrs.erc20_addr->Some_0,
                ),
            ),
        ),
        !state.initialized && apply(state, input).0.initialized && apply(
            state,
            input,
        ).0.addrs.vault_addr is Some && apply(state, input).0.addrs.erc20_addr is Some ==> {
            &&& state.run matches Some(run) && run.stage == Stage::Registering
            &&& input matches Input::Step(event, env) && event == Event::Called
        },
{
}

/// What the sequence does about a role depends on the template through that
/// role's blueprint alone: whether another role is in the template or not
/// makes no difference to it.
pub proof fn law_plan_is_local(
    state: ManagerState,
    template: DAOTemplate,
    other: Role,
    code_hash: Option<CodeHash>,
    role: Role,
    constructor: Constructor,
    env: Env,
)
    requires
        state.template == Some(template),
        other != role,
    ensures
        (ManagerState { template: Some(template.with(other, code_hash)), ..state }).plan(
            role,
            constructor,
            env,
        ) == state.plan(role, constructor, env),
{
}

/// A role is passed over when the template names no blueprint for it: during
/// an initialization its deployment is never asked for.
pub proof fn law_role_without_blueprint_is_not_deployed(
    state: ManagerState,
    input: Input,
    role: Role,
)
    requires
        state.wf(),
        !state.in_template(role),
    ensures
        !(apply(state, input).1 matches Ok(ActionView::Deploy(deployment))
            && deployment.constructor.role_spec() == role),
        apply(state, input).0.addrs.addr(role) == state.addrs.addr(role),
        !apply(state, input).0.in_template(role),
{
}

/// Where the template names no blueprint for a role and the role has no
/// address, it has none after any sequence of inputs either.
pub proof fn law_role_without_blueprint_stays_absent(
    state: ManagerState,
    inputs: Seq<Input>,
    role: Role,
)
    requires
        state.wf(),
        !state.in_template(role),
        state.addrs.addr(role) is None,
    ensures
        run(state, inputs).wf(),
        run(state, inputs).template == state.template,
        run(state, inputs).addrs.addr(role) is None,
    decreases inputs.len(),
{
    if inputs.len() > 0 {
        law_role_without_blueprint_stays_absent(state, inputs.drop_last(), role);
        let before = run(state, inputs.drop_last());
        law_well_formed(before, state.owner, state.org_id, DAOTemplate::empty(), inputs.last());
        law_role_without_blueprint_is_not_deployed(before, inputs.last(), role);
    }
}

/// Where a role depends on one for which the template names no blueprint and
/// which has no address, the role gets no address, whatever the inputs; and
/// if the template names a blueprint for the role, the organization never
/// comes to stand.
pub proof fn law_dependency_is_enforced(
    state: ManagerState,
    inputs: Seq<Input>,
    role: Role,
    i: int,
)
    requires
        state.wf(),
        0 <= i < role.dependencies().len(),
        !state.in_template(role.dependencies()[i]),
        state.addrs.addr(role.dependencies()[i]) is None,
        state.addrs.addr(role) is None,
    ensures
        run(state, inputs).addrs.addr(role) is None,
        state.in_template(role) && !state.initialized ==> !run(state, inputs).initialized,
    decreases inputs.len(),
{
    if inputs.len() > 0 {
        let dependency = role.dependencies()[i];
        law_dependency_is_enforced(state, inputs.drop_last(), role, i);
        law_role_without_blueprint_stays_absent(state, inputs.drop_last(), dependency);
        let before = run(state, inputs.drop_last());
        before.addrs.lemma_missing_dependency(role);
        assert(before.addrs.missing_dependency(role) is Some);
    }
}

/// Where the next role lacks a dependency, the initialization stops there:
/// the host is told which role is missing, nothing is deployed, and the
/// addresses recorded so far remain.
pub proof fn law_missing_dependency_stops(
    state: ManagerState,
    env: Env,
    params: DAOInitParams,
    role: Role,
    dependency: Role,
)
    requires
        !state.initialized,
        state.template is Some,
        env.caller == state.owner,
        state.pending(Role::Erc20) ==> params.supply_covers_transfers(),
        state.next_role() == Some(role),
        state.addrs.missing_dependency(role) == Some(dependency),
    ensures
        state.start(env, params) == (
            state.halted(),
            Err::<ActionView, InitError>(InitError::DependencyMissing(dependency)),
        ),
{
}

/// When the token is deployed, the calls that the host is asked to make on
/// it mint exactly the total supply and leave the token with the owner that
/// the parameters name; the address is recorded once they are made.
pub proof fn law_token_is_set_up(state: ManagerState, token: AccountId, env: Env, before: AccountId)
    requires
        state.wf(),
        state.run matches Some(run) && run.stage == Stage::Deploying(Role::Erc20),
    ensures
        state.step(Event::Deployed(Some(token)), env).1 matches Ok(ActionView::Call(calls)) && {
            let params = state.run->Some_0.params;
            &&& minted(calls, token) == params.erc20.total_supply
            &&& owner_after(calls, token, before) == params.erc20.owner
            &&& state.step(Event::Deployed(Some(token)), env).0 == state.at(
                params,
                Stage::Wiring(Role::Erc20, token),
            )
        },
{
    let params = state.run->Some_0.params;
    let vault = state.addrs.vault_addr->Some_0;
    law_token_conservation(params.erc20, params.erc20_transfers@, token, vault);
    law_ownership_handoff(
        params.org,
        token,
        params.erc20,
        params.erc20_transfers@,
        token,
        vault,
        token,
        before,
    );
}

/// When the membership component is deployed, the calls that the host is
/// asked to make on it leave it with the owner that the parameters name.
pub proof fn law_org_is_handed_over(
    state: ManagerState,
    org: AccountId,
    env: Env,
    before: AccountId,
)
    requires
        state.wf(),
        state.run matches Some(run) && run.stage == Stage::Deploying(Role::Org),
    ensures
        state.step(Event::Deployed(Some(org)), env).1 matches Ok(ActionView::Call(calls))
            && owner_after(calls, org, before) == state.run->Some_0.params.org.owner,
{
    let params = state.run->Some_0.params;
    law_ownership_handoff(
        params.org,
        org,
        params.erc20,
        params.erc20_transfers@,
        org,
        org,
        org,
        before,
    );
}

/// A deployment that fails stops the initialization: the host is told which
/// role failed, the organization does not stand, and the addresses recorded
/// so far remain, so that the initialization can be begun again and goes on
/// from there.
pub proof fn law_failed_deployment_stops(state: ManagerState, role: Role, env: Env)
    requires
        state.wf(),
        state.run matches Some(run) && run.stage == Stage::Deploying(role),
    ensures
        state.step(Event::Deployed(None), env) == (
            state.halted(),
            Err::<ActionView, InitError>(InitError::DeploymentFailed(role)),
        ),
        !state.halted().initialized,
        state.halted().addrs == state.addrs,
        state.halted().next_role() == Some(role),
{
}

} // verus!
