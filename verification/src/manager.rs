use vstd::prelude::*;
use crate::account::{AccountId, CodeHash};
use crate::host::{endowment_share, outcome_view, salt_bytes, version, version_of};
use crate::host::{Action, Constructor, Deployment, Env, Event, InitError};
use crate::machine::{ManagerState, Run, Stage};
use crate::params::{DAOInitParams, ERC20Param};
use crate::registry::DAOComponentAddrs;
use crate::role::Role;
use crate::template::DAOTemplate;
use crate::wiring::{wire_base, wire_erc20, wire_org, wire_vault_token};

verus! {

/// The orchestrator. It is made with an owner, takes a template, and then
/// builds the organization once: `init_by_params` says what the host has to
/// do first, and `step` takes in each report of the host and says what it has
/// to do next, until the organization stands.
pub struct DAOManager {
    init: bool,
    owner: AccountId,
    org_id: u64,
    template: Option<DAOTemplate>,
    component_addrs: DAOComponentAddrs,
    run: Option<Run>,
}

impl View for DAOManager {
    type V = ManagerState;

    closed spec fn view(&self) -> ManagerState {
        ManagerState {
            initialized: self.init,
            owner: self.owner,
            org_id: self.org_id,
            template: self.template,
            addrs: self.component_addrs,
            run: self.run,
        }
    }
}

impl DAOManager {
    #[verifier::type_invariant]
    spec fn inv(&self) -> bool {
        self@.wf()
    }

    /// Makes the orchestrator of an organization: it has an owner and an
    /// identifier, and neither a template nor any component yet.
    pub fn new(owner: AccountId, org_id: u64) -> (r: DAOManager)
        ensures
            r@ == ManagerState::fresh(owner, org_id),
            r@.wf(),
    {
        DAOManager {
            init: false,
            owner,
            org_id,
            template: None,
            component_addrs: DAOComponentAddrs::new(),
            run: None,
        }
    }

    /// Takes up an orchestrator as it was left between two operations, with
    /// no initialization under way.
    pub fn restore(
        initialized: bool,
        owner: AccountId,
        org_id: u64,
        template: Option<DAOTemplate>,
        component_addrs: DAOComponentAddrs,
    ) -> (r: DAOManager)
        ensures
            r@ == (ManagerState {
                initialized,
                owner,
                org_id,
                template,
                addrs: component_addrs,
                run: None,
            }),
            r@.wf(),
    {
        DAOManager { init: initialized, owner, org_id, template, component_addrs, run: None }
    }

    /// Sets the template, in place of the one that was set before. Once the
    /// organization stands the template is fixed, and the call is turned
    /// down with `AlreadyInitialized`. An initialization under way is given
    /// up.
    pub fn set_template(&mut self, template: DAOTemplate) -> (r: Result<bool, InitError>)
        ensures
            (final(self)@, r) == old(self)@.set_template(template),
            final(self)@.wf(),
    {
        proof {
            use_type_invariant(&*self);
        }
        if self.init {
            return Err(InitError::AlreadyInitialized);
        }
        self.run = None;
        self.template = Some(template);
        Ok(true)
    }

    /// Begins the initialization and says what the host has to do first.
    ///
    /// It is turned down, and nothing changes, where the organization stands
    /// already (`AlreadyInitialized`), where no template is set
    /// (`TemplateNotSet`), where the caller that the environment names is not
    /// the owner (`NotOwner`), and where the token is still to be deployed
    /// and the distribution exceeds its total supply (`ArithmeticUnderflow`):
    /// in that order. Otherwise an initialization that was under way is given
    /// up, and the sequence goes on from the addresses that are recorded:
    /// roles that stand already are not deployed again.
    pub fn init_by_params(&mut self, env: &Env, params: DAOInitParams) -> (r: Result<
        Action,
        InitError,
    >)
        ensures
            (final(self)@, outcome_view(r)) == old(self)@.start(*env, params),
            final(self)@.wf(),
    {
        proof {
            use_type_invariant(&*self);
        }
        if self.init {
            return Err(InitError::AlreadyInitialized);
        }
        if self.template.is_none() {
            return Err(InitError::TemplateNotSet);
        }
        if env.caller != self.owner {
            return Err(InitError::NotOwner);
        }
        if self.is_pending(Role::Erc20) && params.remaining_supply().is_none() {
            return Err(InitError::ArithmeticUnderflow);
        }
        self.run = None;
        let r = self.advance(params, env);
        proof {
            use_type_invariant(&*self);
        }
        r
    }

    /// Takes in what the host reports and says what it has to do next. The
    /// environment is the one that the host reads after it has done what it
    /// was asked to do, so that each deployment is endowed from what the
    /// orchestrator holds at that moment.
    ///
    /// A deployment that failed stops the initialization with
    /// `DeploymentFailed`, and a role that is due without one of its
    /// dependencies stops it with `DependencyMissing`; the addresses recorded
    /// so far remain. A report that answers nothing that was asked changes
    /// nothing and is turned down with `UnexpectedEvent`.
    pub fn step(&mut self, event: Event, env: &Env) -> (r: Result<Action, InitError>)
        ensures
            (final(self)@, outcome_view(r)) == old(self)@.step(event, *env),
            final(self)@.wf(),
    {
        proof {
            use_type_invariant(&*self);
        }
        let mut taken: Option<Run> = None;
        core::mem::swap(&mut self.run, &mut taken);
        let r = match taken {
            None => Err(InitError::UnexpectedEvent),
            Some(run) => {
                let Run { params, stage } = run;
                match (stage, event) {
                    (Stage::Deploying(role), Event::Deployed(Some(addr))) => self.deployed(
                        role,
                        addr,
                        params,
                        env,
                    ),
                    (Stage::Deploying(role), Event::Deployed(None)) => Err(
                        InitError::DeploymentFailed(role),
                    ),
                    (Stage::Wiring(role, addr), Event::Called) => {
                        self.record(role, addr);
                        self.advance(params, env)
                    },
                    (Stage::Registering, Event::Called) => {
                        self.init = true;
                        Ok(Action::Finished)
                    },
                    (stage, _) => {
                        self.run = Some(Run { params, stage });
                        Err(InitError::UnexpectedEvent)
                    },
                }
            },
        };
        proof {
            use_type_invariant(&*self);
        }
        r
    }

    /// The addresses of the components that stand.
    pub fn query_component_addrs(&self) -> (r: DAOComponentAddrs)
        ensures
            r == self@.addrs,
    {
        self.component_addrs
    }

    /// Whether the organization stands.
    pub fn is_initialized(&self) -> (r: bool)
        ensures
            r == self@.initialized,
    {
        self.init
    }

    /// Who may initialize the organization.
    pub fn owner(&self) -> (r: AccountId)
        ensures
            r == self@.owner,
    {
        self.owner
    }

    /// The organization's identifier.
    pub fn org_id(&self) -> (r: u64)
        ensures
            r == self@.org_id,
    {
        self.org_id
    }

    /// The template, once one is set.
    pub fn template(&self) -> (r: Option<DAOTemplate>)
        ensures
            r == self@.template,
    {
        self.template
    }

    /// Where the initialization under way stands, if there is one.
    pub fn stage(&self) -> (r: Option<Stage>)
        ensures
            r == match self@.run {
                Some(run) => Some(run.stage),
                None => None,
            },
    {
        match &self.run {
            Some(run) => Some(run.stage),
            None => None,
        }
    }

    /// Tells whether a role is still to be deployed.
    pub fn is_pending(&self, role: Role) -> (r: bool)
        ensures
            r == self@.pending(role),
    {
        match self.template {
            Some(template) => template.code_hash(role).is_some() && self.component_addrs.get(
                role,
            ).is_none(),
            None => false,
        }
    }

    /// Records the address at which a role's component stands.
    fn record(&mut self, role: Role, addr: AccountId)
        requires
            old(self)@.run is None,
        ensures
            final(self)@ == old(self)@.recorded(role, addr),
    {
        let mut addrs = self.component_addrs;
        addrs.set(role, addr);
        self.component_addrs = addrs;
    }

    /// Takes in the address of the component that was deployed for a role.
    /// Where calls are to be made on the component, they are asked for, and
    /// the address is recorded once they are made; else the address is
    /// recorded at once and the sequence goes on.
    fn deployed(&mut self, role: Role, addr: AccountId, params: DAOInitParams, env: &Env) -> (r:
        Result<Action, InitError>)
        requires
            old(self)@.run is None,
            old(self)@.at(params, Stage::Deploying(role)).wf(),
        ensures
            (final(self)@, outcome_view(r)) == old(self)@.at(params, Stage::Deploying(role)).step(
                Event::Deployed(Some(addr)),
                *env,
            ),
    {
        match role {
            Role::Base => {
                let calls = wire_base(&params.base, addr);
                self.run = Some(Run { params, stage: Stage::Wiring(role, addr) });
                Ok(Action::Call(calls))
            },
            Role::Org => {
                let calls = wire_org(&params.org, addr);
                self.run = Some(Run { params, stage: Stage::Wiring(role, addr) });
                Ok(Action::Call(calls))
            },
            Role::Erc20 => {
                // The token was due: the treasury stands and the supply
                // covers the distribution, so neither failure is met here.
                let vault = match self.component_addrs.vault_addr {
                    Some(vault) => vault,
                    None => {
                        return Err(InitError::DependencyMissing(Role::Vault));
                    },
                };
                match wire_erc20(&params.erc20, &params.erc20_transfers, addr, vault) {
                    Ok(calls) => {
                        self.run = Some(Run { params, stage: Stage::Wiring(role, addr) });
                        Ok(Action::Call(calls))
                    },
                    Err(error) => Err(error),
                }
            },
            _ => {
                self.record(role, addr);
                self.advance(params, env)
            },
        }
    }

    /// The profile component. It depends on nothing and its constructor
    /// takes nothing.
    fn _init_base(&self, base_code_hash: Option<CodeHash>, version: u32, env: &Env) -> (r: Result<
        Option<Deployment>,
        InitError,
    >)
        requires
            self@.template is Some,
            base_code_hash == self@.template->Some_0.code_hash_spec(Role::Base),
            version == version_of(self@.org_id),
        ensures
            r == self@.plan(Role::Base, Constructor::Base, *env),
    {
        let code_hash = match base_code_hash {
            Some(code_hash) => code_hash,
            None => {
                return Ok(None);
            },
        };
        if self.component_addrs.base_addr.is_some() {
            return Ok(None);
        }
        let total_balance = env.balance;
        let salt = salt_bytes(version);
        Ok(
            Some(
                Deployment {
                    code_hash,
                    endowment: endowment_share(total_balance),
                    salt,
                    constructor: Constructor::Base,
                },
            ),
        )
    }

    /// The token. It is created with no supply and with the orchestrator as
    /// its minter, and is not deployed without the treasury, to which what
    /// the distribution leaves is minted.
    fn _init_erc20(
        &self,
        erc20_code_hash: Option<CodeHash>,
        param: &ERC20Param,
        version: u32,
        env: &Env,
    ) -> (r: Result<Option<Deployment>, InitError>)
        requires
            self@.template is Some,
            erc20_code_hash == self@.template->Some_0.code_hash_spec(Role::Erc20),
            version == version_of(self@.org_id),
        ensures
            r == self@.plan(
                Role::Erc20,
                Constructor::Erc20 {
                    name: param.name,
                    symbol: param.symbol,
                    initial_supply: 0,
                    decimals: param.decimals,
                    minter: env.account_id,
                },
                *env,
            ),
    {
        let code_hash = match erc20_code_hash {
            Some(code_hash) => code_hash,
            None => {
                return Ok(None);
            },
        };
        if self.component_addrs.erc20_addr.is_some() {
            return Ok(None);
        }
        if self.component_addrs.vault_addr.is_none() {
            return Err(InitError::DependencyMissing(Role::Vault));
        }
        let total_balance = env.balance;
        let salt = salt_bytes(version);
        let constructor = Constructor::Erc20 {
            name: param.name.clone(),
            symbol: param.symbol.clone(),
            initial_supply: 0,
            decimals: param.decimals,
            minter: env.account_id,
        };
        Ok(
            Some(
                Deployment {
                    code_hash,
                    endowment: endowment_share(total_balance),
                    salt,
                    constructor,
                },
            ),
        )
    }

    /// The membership component. It is constructed with the orchestrator's
    /// own address and the organization's identifier.
    fn _init_org(&self, org_code_hash: Option<CodeHash>, version: u32, env: &Env) -> (r: Result<
        Option<Deployment>,
        InitError,
    >)
        requires
            self@.template is Some,
            org_code_hash == self@.template->Some_0.code_hash_spec(Role::Org),
            version == version_of(self@.org_id),
        ensures
            r == self@.plan(
                Role::Org,
                Constructor::Org { creator: env.account_id, org_id: self@.org_id },
                *env,
            ),
    {
        let code_hash = match org_code_hash {
            Some(code_hash) => code_hash,
            None => {
                return Ok(None);
            },
        };
        if self.component_addrs.org_addr.is_some() {
            return Ok(None);
        }
        let total_balance = env.balance;
        let salt = salt_bytes(version);
        let constructor = Constructor::Org { creator: env.account_id, org_id: self.org_id };
        Ok(
            Some(
                Deployment {
                    code_hash,
                    endowment: endowment_share(total_balance),
                    salt,
                    constructor,
                },
            ),
        )
    }

    /// Access control. It is constructed with the orchestrator's own address.
    fn _init_auth(&self, auth_code_hash: Option<CodeHash>, version: u32, env: &Env) -> (r: Result<
        Option<Deployment>,
        InitError,
    >)
        requires
            self@.template is Some,
            auth_code_hash == self@.template->Some_0.code_hash_spec(Role::Auth),
            version == version_of(self@.org_id),
        ensures
            r == self@.plan(Role::Auth, Constructor::Auth { owner: env.account_id }, *env),
    {
        let code_hash = match auth_code_hash {
            Some(code_hash) => code_hash,
            None => {
                return Ok(None);
            },
        };
        if self.component_addrs.auth_addr.is_some() {
            return Ok(None);
        }
        let total_balance = env.balance;
        let salt = salt_bytes(version);
        let constructor = Constructor::Auth { owner: env.account_id };
        Ok(
            Some(
                Deployment {
                    code_hash,
                    endowment: endowment_share(total_balance),
                    salt,
                    constructor,
                },
            ),
        )
    }

    /// The treasury. It is constructed with the addresses of the membership
    /// component and of access control, and is not deployed without them.
    fn _init_vault(&self, vault_code_hash: Option<CodeHash>, version: u32, env: &Env) -> (r: Result<
        Option<Deployment>,
        InitError,
    >)
        requires
            self@.template is Some,
            vault_code_hash == self@.template->Some_0.code_hash_spec(Role::Vault),
            version == version_of(self@.org_id),
        ensures
            r == self@.plan(
                Role::Vault,
                Constructor::Vault {
                    org: self@.addrs.org_addr->Some_0,
                    auth: self@.addrs.auth_addr->Some_0,
                },
                *env,
            ),
    {
        let code_hash = match vault_code_hash {
            Some(code_hash) => code_hash,
            None => {
                return Ok(None);
            },
        };
        if self.component_addrs.vault_addr.is_some() {
            return Ok(None);
        }
        let total_balance = env.balance;
        let org_addr = match self.component_addrs.org_addr {
            Some(org_addr) => org_addr,
            None => {
                return Err(InitError::DependencyMissing(Role::Org));
            },
        };
        let auth_addr = match self.component_addrs.auth_addr {
            Some(auth_addr) => auth_addr,
            None => {
                return Err(InitError::DependencyMissing(Role::Auth));
            },
        };
        let salt = salt_bytes(version);
        let constructor = Constructor::Vault { org: org_addr, auth: auth_addr };
        Ok(
            Some(
                Deployment {
                    code_hash,
                    endowment: endowment_share(total_balance),
                    salt,
                    constructor,
                },
            ),
        )
    }

    /// Voting. It is constructed with the treasury's address, and is not
    /// deployed without it.
    fn _init_vote(&self, vote_code_hash: Option<CodeHash>, version: u32, env: &Env) -> (r: Result<
        Option<Deployment>,
        InitError,
    >)
        requires
            self@.template is Some,
            vote_code_hash == self@.template->Some_0.code_hash_spec(Role::Vote),
            version == version_of(self@.org_id),
        ensures
            r == self@.plan(
                Role::Vote,
                Constructor::Vote { vault: self@.addrs.vault_addr->Some_0 },
                *env,
            ),
    {
        let code_hash = match vote_code_hash {
            Some(code_hash) => code_hash,
            None => {
                return Ok(None);
            },
        };
        if self.component_addrs.vote_addr.is_some() {
            return Ok(None);
        }
        let total_balance = env.balance;
        let vault_addr = match self.component_addrs.vault_addr {
            Some(vault_addr) => vault_addr,
            None => {
                return Err(InitError::DependencyMissing(Role::Vault));
            },
        };
        let salt = salt_bytes(version);
        let constructor = Constructor::Vote { vault: vault_addr };
        Ok(
            Some(
                Deployment {
                    code_hash,
                    endowment: endowment_share(total_balance),
                    salt,
                    constructor,
                },
            ),
        )
    }

    /// Goes through the roles in the deployment order and stops at the first
    /// that is still to be deployed.
    fn next_deployment(&self, params: &DAOInitParams, env: &Env) -> (r: Result<
        Option<(Role, Deployment)>,
        InitError,
    >)
        requires
            self@.template is Some,
        ensures
            r == match self@.next_role() {
                Some(role) => match self@.addrs.missing_dependency(role) {
                    Some(dependency) => Err(InitError::DependencyMissing(dependency)),
                    None => Ok(Some((role, self@.deployment(role, *params, *env)))),
                },
                None => Ok(None),
            },
    {
        let template = self.template.unwrap();
        let version = version(self.org_id);
        match self._init_base(template.code_hash(Role::Base), version, env) {
            Ok(Some(deployment)) => {
                return Ok(Some((Role::Base, deployment)));
            },
            Ok(None) => {},
            Err(error) => {
                return Err(error);
            },
        }
        match self._init_org(template.code_hash(Role::Org), version, env) {
            Ok(Some(deployment)) => {
                return Ok(Some((Role::Org, deployment)));
            },
            Ok(None) => {},
            Err(error) => {
                return Err(error);
            },
        }
        match self._init_auth(template.code_hash(Role::Auth), version, env) {
            Ok(Some(deployment)) => {
                return Ok(Some((Role::Auth, deployment)));
            },
            Ok(None) => {},
            Err(error) => {
                return Err(error);
            },
        }
        match self._init_vault(template.code_hash(Role::Vault), version, env) {
            Ok(Some(deployment)) => {
                return Ok(Some((Role::Vault, deployment)));
            },
            Ok(None) => {},
            Err(error) => {
                return Err(error);
            },
        }
        match self._init_vote(template.code_hash(Role::Vote), version, env) {
            Ok(Some(deployment)) => {
                return Ok(Some((Role::Vote, deployment)));
            },
            Ok(None) => {},
            Err(error) => {
                return Err(error);
            },
        }
        match self._init_erc20(template.code_hash(Role::Erc20), &params.erc20, version, env) {
            Ok(Some(deployment)) => {
                return Ok(Some((Role::Erc20, deployment)));
            },
            Ok(None) => {},
            Err(error) => {
                return Err(error);
            },
        }
        Ok(None)
    }

    /// Goes on with the sequence: asks for the next deployment, or, when no
    /// role is left, has the treasury register the token and lets the
    /// organization stand.
    fn advance(&mut self, params: DAOInitParams, env: &Env) -> (r: Result<Action, InitError>)
        requires
            old(self)@.run is None,
            !old(self)@.initialized,
            old(self)@.template is Some,
            old(self)@.pending(Role::Erc20) ==> params.supply_covers_transfers(),
        ensures
            (final(self)@, outcome_view(r)) == old(self)@.advance(params, *env),
    {
        match self.next_deployment(&params, env) {
            Err(error) => Err(error),
            Ok(Some((role, deployment))) => {
                self.run = Some(Run { params, stage: Stage::Deploying(role) });
                Ok(Action::Deploy(deployment))
            },
            Ok(None) => {
                match (self.component_addrs.vault_addr, self.component_addrs.erc20_addr) {
                    (Some(vault), Some(token)) => {
                        let calls = wire_vault_token(vault, token);
                        self.run = Some(Run { params, stage: Stage::Registering });
                        Ok(Action::Call(calls))
                    },
                    _ => {
                        self.init = true;
                        Ok(Action::Finished)
                    },
                }
            },
        }
    }
}

} // verus!
