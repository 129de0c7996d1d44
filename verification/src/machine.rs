use vstd::prelude::*;
use crate::account::AccountId;
use crate::host::{quarter, salt_of};
use crate::host::{ActionView, Call, Constructor, Deployment, Env, Event, InitError};
use crate::params::DAOInitParams;
use crate::registry::DAOComponentAddrs;
use crate::role::Role;
use crate::template::DAOTemplate;
use crate::wiring::{base_calls, erc20_calls, org_calls, vault_token_calls};

verus! {

/// Where an initialization stands while the host is at work.
#[derive(Clone, Copy, Debug, PartialEq, Eq)]
pub enum Stage {
    /// The role's deployment was asked for.
    Deploying(Role),
    /// The role's component stands at the address, and the calls that set it
    /// up were asked for.
    Wiring(Role, AccountId),
    /// Every role is done, and the treasury was asked to register its token.
    Registering,
}

/// An initialization that has begun and not ended.
pub struct Run {
    pub params: DAOInitParams,
    pub stage: Stage,
}

/// The orchestrator as the contracts see it.
pub struct ManagerState {
    pub initialized: bool,
    pub owner: AccountId,
    pub org_id: u64,
    pub template: Option<DAOTemplate>,
    pub addrs: DAOComponentAddrs,
    pub run: Option<Run>,
}

/// A state together with what the operation that led to it gave back.
pub type Transition = (ManagerState, Result<ActionView, InitError>);

impl ManagerState {
    /// The orchestrator as it is made: nothing deployed, no template.
    pub open spec fn fresh(owner: AccountId, org_id: u64) -> ManagerState {
        ManagerState {
            initialized: false,
            owner,
            org_id,
            template: None,
            addrs: DAOComponentAddrs::empty(),
            run: None,
        }
    }

    /// Whether the template names a blueprint for the role.
    pub open spec fn in_template(self, role: Role) -> bool {
        self.template matches Some(template) && template.code_hash_spec(role) is Some
    }

    /// Whether the role is still to be deployed: the template names a
    /// blueprint for it and it has no address.
    pub open spec fn pending(self, role: Role) -> bool {
        self.in_template(role) && self.addrs.addr(role) is None
    }

    /// The role that is deployed next: the first in the deployment order
    /// that is still to be deployed.
    pub open spec fn next_role(self) -> Option<Role> {
        if self.pending(Role::Base) {
            Some(Role::Base)
        } else if self.pending(Role::Org) {
            Some(Role::Org)
        } else if self.pending(Role::Auth) {
            Some(Role::Auth)
        } else if self.pending(Role::Vault) {
            Some(Role::Vault)
        } else if self.pending(Role::Vote) {
            Some(Role::Vote)
        } else if self.pending(Role::Erc20) {
            Some(Role::Erc20)
        } else {
            None
        }
    }

    /// The arguments with which a role's component is constructed.
    pub open spec fn constructor(self, role: Role, params: DAOInitParams, env: Env) -> Constructor {
        match role {
            Role::Base => Constructor::Base,
            Role::Org => Constructor::Org { creator: env.account_id, org_id: self.org_id },
            Role::Auth => Constructor::Auth { owner: env.account_id },
            Role::Vault => Constructor::Vault {
                org: self.addrs.org_addr->Some_0,
                auth: self.addrs.auth_addr->Some_0,
            },
            Role::Vote => Constructor::Vote { vault: self.addrs.vault_addr->Some_0 },
            Role::Erc20 => Constructor::Erc20 {
                name: params.erc20.name,
                symbol: params.erc20.symbol,
                initial_supply: 0,
                decimals: params.erc20.decimals,
                minter: env.account_id,
            },
        }
    }

    /// The request that deploys a role with given arguments for its
    /// constructor: it names the role's blueprint, a quarter of what the
    /// orchestrator holds at that moment, and the organization's salt.
    pub open spec fn request(self, role: Role, constructor: Constructor, env: Env) -> Deployment {
        Deployment {
            code_hash: self.template->Some_0.code_hash_spec(role)->Some_0,
            endowment: quarter(env.balance),
            salt: salt_of(self.org_id),
            constructor,
        }
    }

    /// The request that deploys a role.
    pub open spec fn deployment(self, role: Role, params: DAOInitParams, env: Env) -> Deployment {
        self.request(role, self.constructor(role, params, env), env)
    }

    /// What the sequence does about one role, given the arguments for its
    /// constructor. A role that is not to be deployed, or is deployed
    /// already, is passed over. A role that is still to be deployed is
    /// deployed, unless one of its dependencies has no address.
    pub open spec fn plan(self, role: Role, constructor: Constructor, env: Env) -> Result<
        Option<Deployment>,
        InitError,
    > {
        if !self.pending(role) {
            Ok(None)
        } else {
            match self.addrs.missing_dependency(role) {
                Some(dependency) => Err(InitError::DependencyMissing(dependency)),
                None => Ok(Some(self.request(role, constructor, env))),
            }
        }
    }

    /// The calls that set up a role's component once it stands at an address.
    pub open spec fn wiring(self, role: Role, params: DAOInitParams, addr: AccountId) -> Seq<Call> {
        match role {
            Role::Base => base_calls(params.base, addr),
            Role::Org => org_calls(params.org, addr),
            Role::Erc20 => erc20_calls(
                params.erc20,
                params.erc20_transfers@,
                addr,
                self.addrs.vault_addr->Some_0,
            ),
            _ => Seq::empty(),
        }
    }

    /// The state with no initialization under way.
    pub open spec fn halted(self) -> ManagerState {
        ManagerState { run: None, ..self }
    }

    /// The state with an initialization at a stage.
    pub open spec fn at(self, params: DAOInitParams, stage: Stage) -> ManagerState {
        ManagerState { run: Some(Run { params, stage }), ..self }
    }

    /// The state with a role's address recorded and no initialization under way.
    pub open spec fn recorded(self, role: Role, addr: AccountId) -> ManagerState {
        ManagerState { addrs: self.addrs.with(role, addr), run: None, ..self }
    }

    /// The state of an organization that stands.
    pub open spec fn completed(self) -> ManagerState {
        ManagerState { initialized: true, run: None, ..self }
    }

    /// Goes on with the sequence from wherever the registry says it stands.
    /// The next role that is still to be deployed is deployed, unless one of
    /// its dependencies has no address: then the initialization stops. Once
    /// no role is left, the treasury is asked to register the token if both
    /// stand, and else the organization stands.
    pub open spec fn advance(self, params: DAOInitParams, env: Env) -> Transition {
        match self.next_role() {
            Some(role) => match self.addrs.missing_dependency(role) {
                Some(dependency) => (
                    self.halted(),
                    Err(InitError::DependencyMissing(dependency)),
                ),
                None => (
                    self.at(params, Stage::Deploying(role)),
                    Ok(ActionView::Deploy(self.deployment(role, params, env))),
                ),
            },
            None => if self.addrs.vault_addr is Some && self.addrs.erc20_addr is Some {
                (
                    self.at(params, Stage::Registering),
                    Ok(
                        ActionView::Call(
                            vault_token_calls(
                                self.addrs.vault_addr->Some_0,
                                self.addrs.erc20_addr->Some_0,
                            ),
                        ),
                    ),
                )
            } else {
                (self.completed(), Ok(ActionView::Finished))
            },
        }
    }

    /// Replaces the template, unless the organization stands already. An
    /// initialization under way is given up.
    pub open spec fn set_template(self, template: DAOTemplate) -> (
        ManagerState,
        Result<bool, InitError>,
    ) {
        if self.initialized {
            (self, Err(InitError::AlreadyInitialized))
        } else {
            (ManagerState { template: Some(template), run: None, ..self }, Ok(true))
        }
    }

    /// Begins an initialization. It is turned down, and nothing changes,
    /// where the organization stands already, where no template is set, where
    /// the caller is not the owner, and where the token is still to be
    /// deployed and the distribution exceeds its total supply: in that order.
    pub open spec fn start(self, env: Env, params: DAOInitParams) -> Transition {
        if self.initialized {
            (self, Err(InitError::AlreadyInitialized))
        } else if self.template is None {
            (self, Err(InitError::TemplateNotSet))
        } else if env.caller != self.owner {
            (self, Err(InitError::NotOwner))
        } else if self.pending(Role::Erc20) && !params.supply_covers_transfers() {
            (self, Err(InitError::ArithmeticUnderflow))
        } else {
            self.halted().advance(params, env)
        }
    }

    /// Takes in what the host reports and says what it has to do next.
    pub open spec fn step(self, event: Event, env: Env) -> Transition {
        match self.run {
            Some(run) => match (run.stage, event) {
                (Stage::Deploying(role), Event::Deployed(Some(addr))) => if role.has_wiring() {
                    (
                        self.at(run.params, Stage::Wiring(role, addr)),
                        Ok(ActionView::Call(self.wiring(role, run.params, addr))),
                    )
                } else {
                    self.recorded(role, addr).advance(run.params, env)
                },
                (Stage::Deploying(role), Event::Deployed(None)) => (
                    self.halted(),
                    Err(InitError::DeploymentFailed(role)),
                ),
                (Stage::Wiring(role, addr), Event::Called) => self.recorded(role, addr).advance(
                    run.params,
                    env,
                ),
                (Stage::Registering, Event::Called) => (
                    self.completed(),
                    Ok(ActionView::Finished),
                ),
                _ => (self, Err(InitError::UnexpectedEvent)),
            },
            None => (self, Err(InitError::UnexpectedEvent)),
        }
    }

    /// Whether the role is the one to deploy now: it is the next in the
    /// sequence and every dependency of it has an address.
    pub open spec fn due(self, role: Role) -> bool {
        self.next_role() == Some(role) && self.addrs.missing_dependency(role) is None
    }

    /// What holds of every state that the operations lead to. While an
    /// initialization is under way, the organization does not stand yet, a
    /// template is set, and the distribution stays within the total supply
    /// if the token is still to be deployed. The role at work is the one
    /// that is due. Only a role with calls to make is being wired. The token
    /// is registered only when no role is left and both the treasury and the
    /// token stand.
    pub open spec fn wf(self) -> bool {
        self.run matches Some(run) ==> {
            &&& !self.initialized
            &&& self.template is Some
            &&& self.pending(Role::Erc20) ==> run.params.supply_covers_transfers()
            &&& match run.stage {
                Stage::Deploying(role) => self.due(role),
                Stage::Wiring(role, addr) => self.due(role) && role.has_wiring(),
                Stage::Registering => {
                    &&& self.next_role() is None
                    &&& self.addrs.vault_addr is Some
                    &&& self.addrs.erc20_addr is Some
                },
            }
        }
    }
}

} // verus!
