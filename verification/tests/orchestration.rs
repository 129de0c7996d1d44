use dao_manager::{
    AccountId, Action, BaseParam, Call, CodeHash, Constructor, DAOComponentAddrs, DAOInitParams,
    DAOManager, DAOTemplate, Deployment, ERC20Param, Env, Event, InitError, Moderator, OrgParam,
    Role, Stage, Transfer,
};

fn addr(n: u8) -> AccountId {
    AccountId([n; 32])
}

fn code(role: Role) -> CodeHash {
    let n = match role {
        Role::Base => 0xb0,
        Role::Erc20 => 0xb1,
        Role::Org => 0xb2,
        Role::Vault => 0xb3,
        Role::Vote => 0xb4,
        Role::Auth => 0xb5,
    };
    CodeHash([n; 32])
}

fn template_of(roles: &[Role]) -> DAOTemplate {
    let mut template = DAOTemplate::new();
    for role in roles {
        template.set(*role, code(*role));
    }
    template
}

const ALL: [Role; 6] = [Role::Base, Role::Org, Role::Auth, Role::Vault, Role::Vote, Role::Erc20];

const OWNER: u8 = 0;
const MANAGER: u8 = 0xaa;
const A: u8 = 0x0a;
const B: u8 = 0x0b;
const ORG_OWNER: u8 = 0x51;
const TOKEN_OWNER: u8 = 0x52;

fn params() -> DAOInitParams {
    DAOInitParams {
        base: BaseParam {
            owner: addr(OWNER),
            name: String::from("dao"),
            logo: String::from("logo.png"),
            desc: String::from("a test organization"),
        },
        erc20: ERC20Param {
            owner: addr(TOKEN_OWNER),
            name: String::from("Token"),
            symbol: String::from("TKN"),
            total_supply: 1000,
            decimals: 18,
        },
        erc20_transfers: vec![
            Transfer { to: addr(A), amount: 300 },
            Transfer { to: addr(B), amount: 200 },
        ],
        org: OrgParam {
            owner: addr(ORG_OWNER),
            moderators: vec![Moderator { name: String::from("alice"), account: addr(1) }],
        },
    }
}

/// A chain that keeps books: it deploys, takes the calls, and remembers.
struct Chain {
    balance: u128,
    next: u8,
    fails: Option<Role>,
    deployments: Vec<(AccountId, Deployment)>,
    profiles: Vec<(AccountId, String, String, String)>,
    moderators: Vec<(AccountId, String, AccountId)>,
    owners: Vec<(AccountId, AccountId)>,
    minted: Vec<(AccountId, AccountId, u64)>,
    vault_tokens: Vec<(AccountId, AccountId)>,
}

impl Chain {
    fn new(balance: u128) -> Chain {
        Chain {
            balance,
            next: 0x10,
            fails: None,
            deployments: Vec::new(),
            profiles: Vec::new(),
            moderators: Vec::new(),
            owners: Vec::new(),
            minted: Vec::new(),
            vault_tokens: Vec::new(),
        }
    }

    fn env(&self, caller: AccountId) -> Env {
        Env { caller, account_id: addr(MANAGER), balance: self.balance }
    }

    fn deploy(&mut self, deployment: &Deployment) -> Option<AccountId> {
        if self.fails == Some(deployment.constructor.role()) {
            return None;
        }
        assert!(deployment.endowment <= self.balance);
        self.balance -= deployment.endowment;
        self.next += 1;
        let at = addr(self.next);
        self.deployments.push((at, deployment.clone()));
        self.owners.push((at, addr(MANAGER)));
        Some(at)
    }

    fn call(&mut self, call: &Call) {
        match call {
            Call::InitProfile { base, name, logo, desc } => {
                self.profiles.push((*base, name.clone(), logo.clone(), desc.clone()));
            },
            Call::AddModerator { org, name, moderator } => {
                self.moderators.push((*org, name.clone(), *moderator));
            },
            Call::TransferOwnership { component, new_owner, .. } => {
                for entry in self.owners.iter_mut() {
                    if entry.0 == *component {
                        entry.1 = *new_owner;
                    }
                }
            },
            Call::Mint { erc20, to, amount } => {
                self.minted.push((*erc20, *to, *amount));
            },
            Call::RegisterVaultToken { vault, token } => {
                self.vault_tokens.push((*vault, *token));
            },
        }
    }

    fn perform(&mut self, action: &Action) -> Option<Event> {
        match action {
            Action::Deploy(deployment) => Some(Event::Deployed(self.deploy(deployment))),
            Action::Call(calls) => {
                for call in calls {
                    self.call(call);
                }
                Some(Event::Called)
            },
            Action::Finished => None,
        }
    }

    /// Drives one initialization to its end.
    fn initialize(
        &mut self,
        manager: &mut DAOManager,
        caller: AccountId,
        params: DAOInitParams,
    ) -> Result<bool, InitError> {
        let mut action = manager.init_by_params(&self.env(caller), params)?;
        loop {
            match self.perform(&action) {
                Some(event) => {
                    action = manager.step(event, &self.env(caller))?;
                },
                None => return Ok(true),
            }
        }
    }

    fn holds(&self, token: AccountId, holder: AccountId) -> u64 {
        self.minted.iter().filter(|m| m.0 == token && m.1 == holder).map(|m| m.2).sum()
    }

    fn supply(&self, token: AccountId) -> u64 {
        self.minted.iter().filter(|m| m.0 == token).map(|m| m.2).sum()
    }

    fn owner_of(&self, component: AccountId) -> AccountId {
        self.owners.iter().find(|o| o.0 == component).unwrap().1
    }

    fn deployed_roles(&self) -> Vec<Role> {
        self.deployments.iter().map(|d| d.1.constructor.role()).collect()
    }
}

fn standing(roles: &[Role]) -> (DAOManager, Chain) {
    let mut manager = DAOManager::new(addr(OWNER), 7);
    assert_eq!(manager.set_template(template_of(roles)), Ok(true));
    let mut chain = Chain::new(1_000_000);
    assert_eq!(chain.initialize(&mut manager, addr(OWNER), params()), Ok(true));
    (manager, chain)
}

#[test]
fn full_template_deploys_all_six() {
    let (manager, chain) = standing(&ALL);
    let addrs = manager.query_component_addrs();
    let all = [
        addrs.base_addr.unwrap(),
        addrs.org_addr.unwrap(),
        addrs.auth_addr.unwrap(),
        addrs.vault_addr.unwrap(),
        addrs.vote_addr.unwrap(),
        addrs.erc20_addr.unwrap(),
    ];
    for i in 0..6 {
        for j in 0..i {
            assert_ne!(all[i], all[j]);
        }
    }
    assert!(manager.is_initialized());
    assert_eq!(manager.stage(), None);
    assert_eq!(chain.deployed_roles(), ALL.to_vec());
    assert_eq!(
        chain.moderators,
        vec![(addrs.org_addr.unwrap(), String::from("alice"), addr(1))]
    );
    assert_eq!(
        chain.vault_tokens,
        vec![(addrs.vault_addr.unwrap(), addrs.erc20_addr.unwrap())]
    );
    assert_eq!(
        chain.profiles,
        vec![(
            addrs.base_addr.unwrap(),
            String::from("dao"),
            String::from("logo.png"),
            String::from("a test organization")
        )]
    );
}

#[test]
fn second_initialization_is_rejected_after_full_run() {
    let (mut manager, mut chain) = standing(&ALL);
    let before = manager.query_component_addrs();
    let deployed = chain.deployments.len();
    let mut other = params();
    other.erc20.total_supply = 5;
    other.erc20_transfers.clear();
    assert_eq!(
        chain.initialize(&mut manager, addr(OWNER), other),
        Err(InitError::AlreadyInitialized)
    );
    assert_eq!(manager.query_component_addrs(), before);
    assert_eq!(chain.deployments.len(), deployed);
    assert!(manager.is_initialized());
}

#[test]
fn initialization_twice_in_a_row_leaves_registry_unchanged() {
    let mut manager = DAOManager::new(addr(OWNER), 1);
    assert_eq!(manager.set_template(template_of(&[Role::Base, Role::Org])), Ok(true));
    let mut chain = Chain::new(4000);
    assert_eq!(chain.initialize(&mut manager, addr(OWNER), params()), Ok(true));
    let before = manager.query_component_addrs();
    let again = manager.init_by_params(&chain.env(addr(OWNER)), params());
    assert_eq!(again, Err(InitError::AlreadyInitialized));
    assert_eq!(manager.query_component_addrs(), before);
}

#[test]
fn initialization_before_template_fails() {
    let mut manager = DAOManager::new(addr(OWNER), 1);
    let chain = Chain::new(4000);
    let result = manager.init_by_params(&chain.env(addr(OWNER)), params());
    assert_eq!(result, Err(InitError::TemplateNotSet));
    assert_eq!(manager.query_component_addrs(), DAOComponentAddrs::default());
    assert_eq!(manager.query_component_addrs().base_addr, None);
    assert_eq!(manager.query_component_addrs().erc20_addr, None);
    assert_eq!(manager.query_component_addrs().org_addr, None);
    assert_eq!(manager.query_component_addrs().vault_addr, None);
    assert_eq!(manager.query_component_addrs().vote_addr, None);
    assert_eq!(manager.query_component_addrs().auth_addr, None);
    assert!(!manager.is_initialized());
}

#[test]
fn template_check_comes_before_owner_check() {
    let mut manager = DAOManager::new(addr(OWNER), 1);
    let chain = Chain::new(4000);
    let result = manager.init_by_params(&chain.env(addr(0x77)), params());
    assert_eq!(result, Err(InitError::TemplateNotSet));
}

#[test]
fn stranger_cannot_initialize() {
    let mut manager = DAOManager::new(addr(OWNER), 1);
    assert_eq!(manager.set_template(template_of(&ALL)), Ok(true));
    let mut chain = Chain::new(4000);
    assert_eq!(
        chain.initialize(&mut manager, addr(0x77), params()),
        Err(InitError::NotOwner)
    );
    assert!(chain.deployments.is_empty());
    assert_eq!(chain.balance, 4000);
    assert_eq!(manager.query_component_addrs(), DAOComponentAddrs::default());
    assert_eq!(manager.stage(), None);
    assert!(!manager.is_initialized());
}

#[test]
fn owner_is_the_stored_one_not_the_orchestrator() {
    let mut manager = DAOManager::new(addr(OWNER), 1);
    assert_eq!(manager.set_template(template_of(&[Role::Base])), Ok(true));
    let mut chain = Chain::new(4000);
    assert_eq!(
        chain.initialize(&mut manager, addr(MANAGER), params()),
        Err(InitError::NotOwner)
    );
    assert_eq!(manager.owner(), addr(OWNER));
}

#[test]
fn role_left_out_of_template_is_skipped() {
    let (manager, chain) = standing(&[Role::Base, Role::Org]);
    let addrs = manager.query_component_addrs();
    assert_eq!(addrs.auth_addr, None);
    assert_eq!(addrs.vault_addr, None);
    assert_eq!(addrs.vote_addr, None);
    assert_eq!(addrs.erc20_addr, None);
    assert!(addrs.base_addr.is_some());
    assert!(addrs.org_addr.is_some());
    assert_eq!(chain.deployed_roles(), vec![Role::Base, Role::Org]);
    assert!(manager.is_initialized());
    assert!(chain.vault_tokens.is_empty());
}

#[test]
fn skipping_auth_leaves_base_and_org_as_they_would_be() {
    let (_, with_auth) = standing(&[Role::Base, Role::Org, Role::Auth]);
    let (without, without_auth) = standing(&[Role::Base, Role::Org]);
    assert_eq!(without.query_component_addrs().auth_addr, None);
    assert_eq!(with_auth.deployments[0], without_auth.deployments[0]);
    assert_eq!(with_auth.deployments[1], without_auth.deployments[1]);
    assert_eq!(with_auth.moderators, without_auth.moderators);
    assert_eq!(with_auth.profiles, without_auth.profiles);
}

#[test]
fn token_left_out_means_nothing_is_minted_or_registered() {
    let (manager, chain) = standing(&[Role::Base, Role::Org, Role::Auth, Role::Vault, Role::Vote]);
    assert_eq!(manager.query_component_addrs().erc20_addr, None);
    assert!(manager.query_component_addrs().vote_addr.is_some());
    assert!(chain.minted.is_empty());
    assert!(chain.vault_tokens.is_empty());
    assert!(manager.is_initialized());
}

#[test]
fn empty_template_finishes_at_once() {
    let mut manager = DAOManager::new(addr(OWNER), 1);
    assert_eq!(manager.set_template(DAOTemplate::new()), Ok(true));
    let chain = Chain::new(4000);
    let action = manager.init_by_params(&chain.env(addr(OWNER)), params());
    assert_eq!(action, Ok(Action::Finished));
    assert!(manager.is_initialized());
    assert_eq!(manager.query_component_addrs(), DAOComponentAddrs::default());
}

#[test]
fn vault_without_org_is_not_deployed() {
    let mut manager = DAOManager::new(addr(OWNER), 1);
    assert_eq!(manager.set_template(template_of(&[Role::Vault])), Ok(true));
    let mut chain = Chain::new(4000);
    assert_eq!(
        chain.initialize(&mut manager, addr(OWNER), params()),
        Err(InitError::DependencyMissing(Role::Org))
    );
    assert_eq!(manager.query_component_addrs().vault_addr, None);
    assert!(chain.deployments.is_empty());
    assert!(!manager.is_initialized());
}

#[test]
fn vault_without_org_fails_after_earlier_roles_were_deployed() {
    let mut manager = DAOManager::new(addr(OWNER), 1);
    let roles = [Role::Base, Role::Auth, Role::Vault, Role::Vote, Role::Erc20];
    assert_eq!(manager.set_template(template_of(&roles)), Ok(true));
    let mut chain = Chain::new(4000);
    assert_eq!(
        chain.initialize(&mut manager, addr(OWNER), params()),
        Err(InitError::DependencyMissing(Role::Org))
    );
    let addrs = manager.query_component_addrs();
    assert!(addrs.base_addr.is_some());
    assert!(addrs.auth_addr.is_some());
    assert_eq!(addrs.vault_addr, None);
    assert_eq!(addrs.vote_addr, None);
    assert_eq!(addrs.erc20_addr, None);
    assert_eq!(chain.deployed_roles(), vec![Role::Base, Role::Auth]);
    assert!(!manager.is_initialized());
    assert_eq!(manager.stage(), None);
}

#[test]
fn vault_without_auth_names_auth() {
    let mut manager = DAOManager::new(addr(OWNER), 1);
    assert_eq!(manager.set_template(template_of(&[Role::Org, Role::Vault])), Ok(true));
    let mut chain = Chain::new(4000);
    assert_eq!(
        chain.initialize(&mut manager, addr(OWNER), params()),
        Err(InitError::DependencyMissing(Role::Auth))
    );
    assert!(manager.query_component_addrs().org_addr.is_some());
    assert_eq!(manager.query_component_addrs().vault_addr, None);
}

#[test]
fn vote_and_token_need_the_vault() {
    for role in [Role::Vote, Role::Erc20] {
        let mut manager = DAOManager::new(addr(OWNER), 1);
        assert_eq!(manager.set_template(template_of(&[Role::Base, role])), Ok(true));
        let mut chain = Chain::new(4000);
        assert_eq!(
            chain.initialize(&mut manager, addr(OWNER), params()),
            Err(InitError::DependencyMissing(Role::Vault))
        );
        assert_eq!(manager.query_component_addrs().get(role), None);
        assert_eq!(chain.deployed_roles(), vec![Role::Base]);
        assert!(chain.minted.is_empty());
    }
}

#[test]
fn tokens_are_conserved() {
    let (manager, chain) = standing(&ALL);
    let addrs = manager.query_component_addrs();
    let token = addrs.erc20_addr.unwrap();
    let vault = addrs.vault_addr.unwrap();
    assert_eq!(chain.holds(token, addr(A)), 300);
    assert_eq!(chain.holds(token, addr(B)), 200);
    assert_eq!(chain.holds(token, vault), 500);
    assert_eq!(chain.supply(token), 1000);
    assert_eq!(
        chain.minted,
        vec![(token, addr(A), 300), (token, addr(B), 200), (token, vault, 500)]
    );
}

#[test]
fn token_is_created_without_supply_and_minted_by_the_orchestrator() {
    let (_, chain) = standing(&ALL);
    let token = &chain.deployments[5].1;
    assert_eq!(
        token.constructor,
        Constructor::Erc20 {
            name: String::from("Token"),
            symbol: String::from("TKN"),
            initial_supply: 0,
            decimals: 18,
            minter: addr(MANAGER),
        }
    );
}

#[test]
fn whole_supply_goes_to_the_vault_without_transfers() {
    let mut manager = DAOManager::new(addr(OWNER), 1);
    assert_eq!(manager.set_template(template_of(&ALL)), Ok(true));
    let mut chain = Chain::new(4000);
    let mut p = params();
    p.erc20_transfers.clear();
    assert_eq!(chain.initialize(&mut manager, addr(OWNER), p), Ok(true));
    let addrs = manager.query_component_addrs();
    assert_eq!(
        chain.minted,
        vec![(addrs.erc20_addr.unwrap(), addrs.vault_addr.unwrap(), 1000)]
    );
}

#[test]
fn transfers_equal_to_supply_leave_nothing_for_the_vault() {
    let mut manager = DAOManager::new(addr(OWNER), 1);
    assert_eq!(manager.set_template(template_of(&ALL)), Ok(true));
    let mut chain = Chain::new(4000);
    let mut p = params();
    p.erc20_transfers.push(Transfer { to: addr(A), amount: 500 });
    assert_eq!(chain.initialize(&mut manager, addr(OWNER), p), Ok(true));
    let addrs = manager.query_component_addrs();
    let token = addrs.erc20_addr.unwrap();
    assert_eq!(chain.holds(token, addrs.vault_addr.unwrap()), 0);
    assert_eq!(chain.holds(token, addr(A)), 800);
    assert_eq!(chain.supply(token), 1000);
}

#[test]
fn transfers_beyond_supply_are_rejected_up_front() {
    let mut manager = DAOManager::new(addr(OWNER), 1);
    assert_eq!(manager.set_template(template_of(&ALL)), Ok(true));
    let mut chain = Chain::new(4000);
    let mut p = params();
    p.erc20_transfers.push(Transfer { to: addr(A), amount: 501 });
    assert_eq!(
        chain.initialize(&mut manager, addr(OWNER), p),
        Err(InitError::ArithmeticUnderflow)
    );
    assert!(chain.deployments.is_empty());
    assert_eq!(manager.query_component_addrs(), DAOComponentAddrs::default());
    assert!(!manager.is_initialized());
    assert_eq!(chain.initialize(&mut manager, addr(OWNER), params()), Ok(true));
}

#[test]
fn transfers_that_overflow_are_rejected_up_front() {
    let mut manager = DAOManager::new(addr(OWNER), 1);
    assert_eq!(manager.set_template(template_of(&ALL)), Ok(true));
    let mut chain = Chain::new(4000);
    let mut p = params();
    p.erc20.total_supply = u64::MAX;
    p.erc20_transfers = vec![
        Transfer { to: addr(A), amount: u64::MAX },
        Transfer { to: addr(B), amount: 1 },
    ];
    assert_eq!(
        chain.initialize(&mut manager, addr(OWNER), p),
        Err(InitError::ArithmeticUnderflow)
    );
    assert!(chain.deployments.is_empty());
}

#[test]
fn transfers_beyond_supply_do_not_matter_without_token() {
    let mut manager = DAOManager::new(addr(OWNER), 1);
    assert_eq!(manager.set_template(template_of(&[Role::Base])), Ok(true));
    let mut chain = Chain::new(4000);
    let mut p = params();
    p.erc20.total_supply = 1;
    assert_eq!(chain.initialize(&mut manager, addr(OWNER), p), Ok(true));
}

#[test]
fn ownership_is_handed_over() {
    let (manager, chain) = standing(&ALL);
    let addrs = manager.query_component_addrs();
    assert_eq!(chain.owner_of(addrs.org_addr.unwrap()), addr(ORG_OWNER));
    assert_eq!(chain.owner_of(addrs.erc20_addr.unwrap()), addr(TOKEN_OWNER));
    assert_ne!(chain.owner_of(addrs.org_addr.unwrap()), addr(MANAGER));
    assert_ne!(chain.owner_of(addrs.erc20_addr.unwrap()), addr(MANAGER));
    assert_eq!(chain.owner_of(addrs.vault_addr.unwrap()), addr(MANAGER));
}

#[test]
fn each_deployment_gets_a_quarter_of_what_is_left() {
    let mut manager = DAOManager::new(addr(OWNER), 1);
    assert_eq!(manager.set_template(template_of(&ALL)), Ok(true));
    let mut chain = Chain::new(1000);
    assert_eq!(chain.initialize(&mut manager, addr(OWNER), params()), Ok(true));
    let endowments: Vec<u128> = chain.deployments.iter().map(|d| d.1.endowment).collect();
    assert_eq!(endowments, vec![250, 187, 140, 105, 79, 59]);
    assert_eq!(chain.balance, 180);
}

#[test]
fn deployments_carry_blueprint_salt_and_addresses() {
    let mut manager = DAOManager::new(addr(OWNER), 0x0000_0001_0403_0201);
    assert_eq!(manager.set_template(template_of(&ALL)), Ok(true));
    let mut chain = Chain::new(1000);
    assert_eq!(chain.initialize(&mut manager, addr(OWNER), params()), Ok(true));
    let addrs = manager.query_component_addrs();
    for (_, deployment) in &chain.deployments {
        assert_eq!(deployment.salt, [1, 2, 3, 4]);
        assert_eq!(deployment.code_hash, code(deployment.constructor.role()));
    }
    assert_eq!(chain.deployments[0].1.constructor, Constructor::Base);
    assert_eq!(
        chain.deployments[1].1.constructor,
        Constructor::Org { creator: addr(MANAGER), org_id: 0x0000_0001_0403_0201 }
    );
    assert_eq!(chain.deployments[2].1.constructor, Constructor::Auth { owner: addr(MANAGER) });
    assert_eq!(
        chain.deployments[3].1.constructor,
        Constructor::Vault { org: addrs.org_addr.unwrap(), auth: addrs.auth_addr.unwrap() }
    );
    assert_eq!(
        chain.deployments[4].1.constructor,
        Constructor::Vote { vault: addrs.vault_addr.unwrap() }
    );
}

#[test]
fn failed_deployment_stops_and_keeps_what_was_deployed() {
    let mut manager = DAOManager::new(addr(OWNER), 1);
    assert_eq!(manager.set_template(template_of(&ALL)), Ok(true));
    let mut chain = Chain::new(4000);
    chain.fails = Some(Role::Vault);
    assert_eq!(
        chain.initialize(&mut manager, addr(OWNER), params()),
        Err(InitError::DeploymentFailed(Role::Vault))
    );
    let addrs = manager.query_component_addrs();
    assert!(addrs.base_addr.is_some());
    assert!(addrs.org_addr.is_some());
    assert!(addrs.auth_addr.is_some());
    assert_eq!(addrs.vault_addr, None);
    assert_eq!(addrs.vote_addr, None);
    assert_eq!(addrs.erc20_addr, None);
    assert!(!manager.is_initialized());
    assert_eq!(manager.stage(), None);
}

#[test]
fn retry_goes_on_from_the_point_of_failure() {
    let mut manager = DAOManager::new(addr(OWNER), 1);
    assert_eq!(manager.set_template(template_of(&ALL)), Ok(true));
    let mut chain = Chain::new(4000);
    chain.fails = Some(Role::Vault);
    assert_eq!(
        chain.initialize(&mut manager, addr(OWNER), params()),
        Err(InitError::DeploymentFailed(Role::Vault))
    );
    let first = manager.query_component_addrs();
    chain.fails = None;
    assert_eq!(chain.initialize(&mut manager, addr(OWNER), params()), Ok(true));
    let second = manager.query_component_addrs();
    assert_eq!(second.base_addr, first.base_addr);
    assert_eq!(second.org_addr, first.org_addr);
    assert_eq!(second.auth_addr, first.auth_addr);
    assert_eq!(chain.deployed_roles(), ALL.to_vec());
    assert_eq!(chain.moderators.len(), 1);
    assert_eq!(chain.profiles.len(), 1);
    assert!(manager.is_initialized());
}

#[test]
fn every_role_can_fail() {
    for role in ALL {
        let mut manager = DAOManager::new(addr(OWNER), 1);
        assert_eq!(manager.set_template(template_of(&ALL)), Ok(true));
        let mut chain = Chain::new(4000);
        chain.fails = Some(role);
        assert_eq!(
            chain.initialize(&mut manager, addr(OWNER), params()),
            Err(InitError::DeploymentFailed(role))
        );
        assert_eq!(manager.query_component_addrs().get(role), None);
        assert!(!manager.is_initialized());
    }
}

#[test]
fn address_is_recorded_once_the_calls_are_made() {
    let mut manager = DAOManager::new(addr(OWNER), 1);
    assert_eq!(manager.set_template(template_of(&[Role::Base])), Ok(true));
    let chain = Chain::new(4000);
    let env = chain.env(addr(OWNER));
    let action = manager.init_by_params(&env, params()).unwrap();
    assert!(matches!(action, Action::Deploy(_)));
    assert_eq!(manager.stage(), Some(Stage::Deploying(Role::Base)));
    let action = manager.step(Event::Deployed(Some(addr(0x21))), &env).unwrap();
    assert_eq!(
        action,
        Action::Call(vec![Call::InitProfile {
            base: addr(0x21),
            name: String::from("dao"),
            logo: String::from("logo.png"),
            desc: String::from("a test organization"),
        }])
    );
    assert_eq!(manager.stage(), Some(Stage::Wiring(Role::Base, addr(0x21))));
    assert_eq!(manager.query_component_addrs().base_addr, None);
    let action = manager.step(Event::Called, &env).unwrap();
    assert_eq!(action, Action::Finished);
    assert_eq!(manager.query_component_addrs().base_addr, Some(addr(0x21)));
    assert!(manager.is_initialized());
}

#[test]
fn report_that_answers_nothing_changes_nothing() {
    let mut manager = DAOManager::new(addr(OWNER), 1);
    let chain = Chain::new(4000);
    let env = chain.env(addr(OWNER));
    assert_eq!(manager.step(Event::Called, &env), Err(InitError::UnexpectedEvent));
    assert_eq!(manager.set_template(template_of(&[Role::Base])), Ok(true));
    assert_eq!(
        manager.step(Event::Deployed(Some(addr(9))), &env),
        Err(InitError::UnexpectedEvent)
    );
    let action = manager.init_by_params(&env, params()).unwrap();
    assert!(matches!(action, Action::Deploy(_)));
    assert_eq!(manager.step(Event::Called, &env), Err(InitError::UnexpectedEvent));
    assert_eq!(manager.stage(), Some(Stage::Deploying(Role::Base)));
    assert!(manager.step(Event::Deployed(Some(addr(9))), &env).is_ok());
    assert_eq!(
        manager.step(Event::Deployed(Some(addr(10))), &env),
        Err(InitError::UnexpectedEvent)
    );
    assert_eq!(manager.stage(), Some(Stage::Wiring(Role::Base, addr(9))));
    assert_eq!(manager.step(Event::Called, &env), Ok(Action::Finished));
    assert_eq!(manager.step(Event::Called, &env), Err(InitError::UnexpectedEvent));
}

#[test]
fn template_cannot_be_set_once_the_organization_stands() {
    let (mut manager, _) = standing(&[Role::Base]);
    let before = manager.template();
    assert_eq!(manager.set_template(template_of(&ALL)), Err(InitError::AlreadyInitialized));
    assert_eq!(manager.template(), before);
}

#[test]
fn template_is_replaced_as_a_whole() {
    let mut manager = DAOManager::new(addr(OWNER), 1);
    assert_eq!(manager.template(), None);
    assert_eq!(manager.set_template(template_of(&[Role::Base, Role::Org])), Ok(true));
    assert_eq!(manager.set_template(template_of(&[Role::Auth])), Ok(true));
    assert_eq!(manager.template(), Some(template_of(&[Role::Auth])));
    let mut chain = Chain::new(4000);
    assert_eq!(chain.initialize(&mut manager, addr(OWNER), params()), Ok(true));
    assert_eq!(chain.deployed_roles(), vec![Role::Auth]);
}

#[test]
fn setting_a_template_gives_up_an_initialization_under_way() {
    let mut manager = DAOManager::new(addr(OWNER), 1);
    assert_eq!(manager.set_template(template_of(&[Role::Base])), Ok(true));
    let chain = Chain::new(4000);
    let env = chain.env(addr(OWNER));
    assert!(manager.init_by_params(&env, params()).is_ok());
    assert_eq!(manager.set_template(template_of(&[Role::Org])), Ok(true));
    assert_eq!(manager.stage(), None);
    assert_eq!(
        manager.step(Event::Deployed(Some(addr(9))), &env),
        Err(InitError::UnexpectedEvent)
    );
    assert_eq!(manager.query_component_addrs().base_addr, None);
}

#[test]
fn new_manager_is_empty() {
    let manager = DAOManager::new(addr(3), 99);
    assert_eq!(manager.owner(), addr(3));
    assert_eq!(manager.org_id(), 99);
    assert!(!manager.is_initialized());
    assert_eq!(manager.template(), None);
    assert_eq!(manager.stage(), None);
    assert_eq!(manager.query_component_addrs(), DAOComponentAddrs::default());
    for role in ALL {
        assert!(!manager.is_pending(role));
    }
}

#[test]
fn pending_roles_are_those_in_the_template_without_address() {
    let mut manager = DAOManager::new(addr(OWNER), 1);
    assert_eq!(manager.set_template(template_of(&[Role::Base, Role::Org])), Ok(true));
    assert!(manager.is_pending(Role::Base));
    assert!(manager.is_pending(Role::Org));
    assert!(!manager.is_pending(Role::Auth));
    let mut chain = Chain::new(4000);
    chain.fails = Some(Role::Org);
    assert_eq!(
        chain.initialize(&mut manager, addr(OWNER), params()),
        Err(InitError::DeploymentFailed(Role::Org))
    );
    assert!(!manager.is_pending(Role::Base));
    assert!(manager.is_pending(Role::Org));
}

#[test]
fn access_control_is_deployed_before_the_treasury() {
    let (manager, chain) = standing(&ALL);
    let roles = chain.deployed_roles();
    let auth = roles.iter().position(|r| *r == Role::Auth).unwrap();
    let vault = roles.iter().position(|r| *r == Role::Vault).unwrap();
    let org = roles.iter().position(|r| *r == Role::Org).unwrap();
    assert!(auth < vault);
    assert!(org < vault);
    let addrs = manager.query_component_addrs();
    assert_eq!(addrs.auth_addr, Some(chain.deployments[auth].0));
    assert_eq!(addrs.org_addr, Some(chain.deployments[org].0));
    assert_ne!(addrs.auth_addr, addrs.org_addr);
}

#[test]
fn restored_manager_goes_on_where_it_was_left() {
    let mut addrs = DAOComponentAddrs::new();
    addrs.set(Role::Base, addr(0x31));
    let mut manager = DAOManager::restore(
        false,
        addr(OWNER),
        5,
        Some(template_of(&[Role::Base, Role::Org])),
        addrs,
    );
    assert_eq!(manager.owner(), addr(OWNER));
    assert_eq!(manager.org_id(), 5);
    assert_eq!(manager.stage(), None);
    let mut chain = Chain::new(4000);
    assert_eq!(chain.initialize(&mut manager, addr(OWNER), params()), Ok(true));
    assert_eq!(chain.deployed_roles(), vec![Role::Org]);
    assert_eq!(manager.query_component_addrs().base_addr, Some(addr(0x31)));

    let mut standing = DAOManager::restore(true, addr(OWNER), 5, None, DAOComponentAddrs::new());
    assert!(standing.is_initialized());
    assert_eq!(
        standing.init_by_params(&chain.env(addr(OWNER)), params()),
        Err(InitError::AlreadyInitialized)
    );
    assert_eq!(standing.set_template(template_of(&ALL)), Err(InitError::AlreadyInitialized));
}

#[test]
fn beginning_again_gives_up_what_was_under_way() {
    let mut manager = DAOManager::new(addr(OWNER), 1);
    assert_eq!(manager.set_template(template_of(&[Role::Base, Role::Org])), Ok(true));
    let chain = Chain::new(4000);
    let env = chain.env(addr(OWNER));
    assert!(manager.init_by_params(&env, params()).is_ok());
    assert!(manager.step(Event::Deployed(Some(addr(0x21))), &env).is_ok());
    assert_eq!(manager.stage(), Some(Stage::Wiring(Role::Base, addr(0x21))));
    let again = manager.init_by_params(&env, params()).unwrap();
    assert!(matches!(again, Action::Deploy(ref d) if d.constructor == Constructor::Base));
    assert_eq!(manager.stage(), Some(Stage::Deploying(Role::Base)));
    assert_eq!(manager.query_component_addrs().base_addr, None);
}

#[test]
fn rejected_beginning_leaves_what_is_under_way() {
    let mut manager = DAOManager::new(addr(OWNER), 1);
    assert_eq!(manager.set_template(template_of(&[Role::Base])), Ok(true));
    let chain = Chain::new(4000);
    assert!(manager.init_by_params(&chain.env(addr(OWNER)), params()).is_ok());
    assert_eq!(
        manager.init_by_params(&chain.env(addr(0x77)), params()),
        Err(InitError::NotOwner)
    );
    assert_eq!(manager.stage(), Some(Stage::Deploying(Role::Base)));
}

#[test]
fn defaults_are_empty() {
    let p = DAOInitParams::default();
    assert_eq!(p.base.owner, AccountId([0; 32]));
    assert_eq!(p.base.name, "");
    assert_eq!(p.erc20.total_supply, 0);
    assert_eq!(p.erc20.decimals, 0);
    assert!(p.erc20_transfers.is_empty());
    assert!(p.org.moderators.is_empty());
    assert_eq!(p.remaining_supply(), Some(0));
    assert_eq!(DAOTemplate::default(), DAOTemplate::new());
    assert_eq!(AccountId::default(), AccountId([0; 32]));
    assert_eq!(CodeHash::default(), CodeHash([0; 32]));
    assert_eq!(BaseParam::default().logo, "");
    assert_eq!(ERC20Param::default().symbol, "");
    assert_eq!(OrgParam::default().owner, AccountId([0; 32]));
}
