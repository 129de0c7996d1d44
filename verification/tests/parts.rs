use dao_manager::host::{endowment_share, salt_bytes, version};
use dao_manager::wiring::{wire_base, wire_erc20, wire_org, wire_vault_token};
use dao_manager::{
    AccountId, BaseParam, Call, CodeHash, Constructor, DAOComponentAddrs, DAOInitParams,
    DAOTemplate, ERC20Param, InitError, Moderator, OrgParam, Role, Transfer,
};

fn addr(n: u8) -> AccountId {
    AccountId([n; 32])
}

fn token_param(total_supply: u64) -> ERC20Param {
    ERC20Param {
        owner: addr(0x52),
        name: String::from("Token"),
        symbol: String::from("TKN"),
        total_supply,
        decimals: 8,
    }
}

fn params_with(total_supply: u64, transfers: Vec<Transfer>) -> DAOInitParams {
    DAOInitParams {
        base: BaseParam {
            owner: addr(0),
            name: String::new(),
            logo: String::new(),
            desc: String::new(),
        },
        erc20: token_param(total_supply),
        erc20_transfers: transfers,
        org: OrgParam { owner: addr(0), moderators: Vec::new() },
    }
}

#[test]
fn account_ids_compare_by_their_bytes() {
    let mut bytes = [7u8; 32];
    assert_eq!(AccountId(bytes), addr(7));
    bytes[31] = 8;
    assert_ne!(AccountId(bytes), addr(7));
    bytes[31] = 7;
    bytes[0] = 6;
    assert_ne!(AccountId(bytes), addr(7));
    assert_eq!(CodeHash([1; 32]), CodeHash([1; 32]));
    assert_ne!(CodeHash([1; 32]), CodeHash([2; 32]));
}

#[test]
fn roles_are_known_by_their_names() {
    assert_eq!(Role::Base.name(), "BASE");
    assert_eq!(Role::Erc20.name(), "ERC20");
    assert_eq!(Role::Org.name(), "ORG");
    assert_eq!(Role::Vault.name(), "VAULT");
    assert_eq!(Role::Vote.name(), "VOTE");
    assert_eq!(Role::Auth.name(), "AUTH");
    for role in [Role::Base, Role::Erc20, Role::Org, Role::Vault, Role::Vote, Role::Auth] {
        assert_eq!(Role::from_name(role.name()), Some(role));
    }
    assert_eq!(Role::from_name("GITHUB"), None);
    assert_eq!(Role::from_name("base"), None);
    assert_eq!(Role::from_name(""), None);
    assert_eq!(Role::from_name("BASE "), None);
}

#[test]
fn template_lists_blueprints_by_name() {
    let mut template = DAOTemplate::new();
    assert_eq!(template.get("BASE"), None);
    assert!(template.insert("BASE", CodeHash([1; 32])));
    assert!(template.insert("VAULT", CodeHash([2; 32])));
    assert!(!template.insert("GITHUB", CodeHash([3; 32])));
    assert_eq!(template.get("BASE"), Some(CodeHash([1; 32])));
    assert_eq!(template.get("VAULT"), Some(CodeHash([2; 32])));
    assert_eq!(template.get("GITHUB"), None);
    assert_eq!(template.get("ORG"), None);
    assert_eq!(template.code_hash(Role::Base), Some(CodeHash([1; 32])));
    assert_eq!(template.code_hash(Role::Vault), Some(CodeHash([2; 32])));
    assert_eq!(template.code_hash(Role::Erc20), None);
    assert!(template.insert("BASE", CodeHash([4; 32])));
    assert_eq!(template.get("BASE"), Some(CodeHash([4; 32])));
    assert_eq!(template.vault, Some(CodeHash([2; 32])));
}

#[test]
fn template_set_touches_one_role() {
    let mut template = DAOTemplate::new();
    template.set(Role::Auth, CodeHash([9; 32]));
    assert_eq!(
        template,
        DAOTemplate {
            base: None,
            erc20: None,
            org: None,
            vault: None,
            vote: None,
            auth: Some(CodeHash([9; 32])),
        }
    );
}

#[test]
fn registry_records_one_role_at_a_time() {
    let mut addrs = DAOComponentAddrs::new();
    assert_eq!(addrs, DAOComponentAddrs::default());
    for role in [Role::Base, Role::Erc20, Role::Org, Role::Vault, Role::Vote, Role::Auth] {
        assert_eq!(addrs.get(role), None);
    }
    addrs.set(Role::Vote, addr(5));
    assert_eq!(addrs.get(Role::Vote), Some(addr(5)));
    assert_eq!(addrs.vote_addr, Some(addr(5)));
    assert_eq!(addrs.get(Role::Vault), None);
    addrs.set(Role::Erc20, addr(6));
    assert_eq!(addrs.erc20_addr, Some(addr(6)));
    assert_eq!(addrs.get(Role::Vote), Some(addr(5)));
}

#[test]
fn endowment_is_a_quarter_rounded_down() {
    assert_eq!(endowment_share(0), 0);
    assert_eq!(endowment_share(3), 0);
    assert_eq!(endowment_share(4), 1);
    assert_eq!(endowment_share(1000), 250);
    assert_eq!(endowment_share(750), 187);
    assert_eq!(endowment_share(u128::MAX), u128::MAX / 4);
}

#[test]
fn salt_is_the_low_half_of_the_id_lowest_byte_first() {
    assert_eq!(version(0), 0);
    assert_eq!(version(7), 7);
    assert_eq!(version(0x1_0000_0002), 2);
    assert_eq!(version(u64::MAX), u32::MAX);
    assert_eq!(salt_bytes(0), [0, 0, 0, 0]);
    assert_eq!(salt_bytes(1), [1, 0, 0, 0]);
    assert_eq!(salt_bytes(0x0403_0201), [1, 2, 3, 4]);
    assert_eq!(salt_bytes(u32::MAX), [255, 255, 255, 255]);
    assert_eq!(salt_bytes(0xdead_beef), 0xdead_beef_u32.to_le_bytes());
}

#[test]
fn constructor_knows_its_role() {
    assert_eq!(Constructor::Base.role(), Role::Base);
    assert_eq!(Constructor::Org { creator: addr(1), org_id: 2 }.role(), Role::Org);
    assert_eq!(Constructor::Auth { owner: addr(1) }.role(), Role::Auth);
    assert_eq!(Constructor::Vault { org: addr(1), auth: addr(2) }.role(), Role::Vault);
    assert_eq!(Constructor::Vote { vault: addr(1) }.role(), Role::Vote);
    assert_eq!(
        Constructor::Erc20 {
            name: String::new(),
            symbol: String::new(),
            initial_supply: 0,
            decimals: 0,
            minter: addr(1),
        }
        .role(),
        Role::Erc20
    );
}

#[test]
fn remaining_supply_is_what_the_transfers_leave() {
    let p = params_with(
        1000,
        vec![Transfer { to: addr(1), amount: 300 }, Transfer { to: addr(2), amount: 200 }],
    );
    assert_eq!(p.remaining_supply(), Some(500));
    assert_eq!(params_with(1000, Vec::new()).remaining_supply(), Some(1000));
    assert_eq!(params_with(0, Vec::new()).remaining_supply(), Some(0));
    let exact = params_with(
        500,
        vec![Transfer { to: addr(1), amount: 300 }, Transfer { to: addr(1), amount: 200 }],
    );
    assert_eq!(exact.remaining_supply(), Some(0));
    let over = params_with(
        499,
        vec![Transfer { to: addr(1), amount: 300 }, Transfer { to: addr(2), amount: 200 }],
    );
    assert_eq!(over.remaining_supply(), None);
    let wraps = params_with(
        u64::MAX,
        vec![
            Transfer { to: addr(1), amount: u64::MAX },
            Transfer { to: addr(2), amount: u64::MAX },
        ],
    );
    assert_eq!(wraps.remaining_supply(), None);
}

#[test]
fn profile_is_set_up_with_one_call() {
    let param = BaseParam {
        owner: addr(0),
        name: String::from("n"),
        logo: String::from("l"),
        desc: String::from("d"),
    };
    assert_eq!(
        wire_base(&param, addr(9)),
        vec![Call::InitProfile {
            base: addr(9),
            name: String::from("n"),
            logo: String::from("l"),
            desc: String::from("d"),
        }]
    );
}

#[test]
fn moderators_are_added_in_order_then_ownership_moves() {
    let param = OrgParam {
        owner: addr(0x51),
        moderators: vec![
            Moderator { name: String::from("alice"), account: addr(1) },
            Moderator { name: String::from("bob"), account: addr(2) },
        ],
    };
    assert_eq!(
        wire_org(&param, addr(9)),
        vec![
            Call::AddModerator { org: addr(9), name: String::from("alice"), moderator: addr(1) },
            Call::AddModerator { org: addr(9), name: String::from("bob"), moderator: addr(2) },
            Call::TransferOwnership { role: Role::Org, component: addr(9), new_owner: addr(0x51) },
        ]
    );
    let nobody = OrgParam { owner: addr(0x51), moderators: Vec::new() };
    assert_eq!(
        wire_org(&nobody, addr(9)),
        vec![Call::TransferOwnership {
            role: Role::Org,
            component: addr(9),
            new_owner: addr(0x51)
        }]
    );
}

#[test]
fn token_is_minted_out_then_ownership_moves() {
    let transfers =
        vec![Transfer { to: addr(1), amount: 300 }, Transfer { to: addr(2), amount: 200 }];
    assert_eq!(
        wire_erc20(&token_param(1000), &transfers, addr(9), addr(8)),
        Ok(vec![
            Call::Mint { erc20: addr(9), to: addr(1), amount: 300 },
            Call::Mint { erc20: addr(9), to: addr(2), amount: 200 },
            Call::Mint { erc20: addr(9), to: addr(8), amount: 500 },
            Call::TransferOwnership {
                role: Role::Erc20,
                component: addr(9),
                new_owner: addr(0x52)
            },
        ])
    );
}

#[test]
fn same_recipient_may_be_listed_twice() {
    let transfers =
        vec![Transfer { to: addr(1), amount: 1 }, Transfer { to: addr(1), amount: 2 }];
    assert_eq!(
        wire_erc20(&token_param(10), &transfers, addr(9), addr(1)),
        Ok(vec![
            Call::Mint { erc20: addr(9), to: addr(1), amount: 1 },
            Call::Mint { erc20: addr(9), to: addr(1), amount: 2 },
            Call::Mint { erc20: addr(9), to: addr(1), amount: 7 },
            Call::TransferOwnership {
                role: Role::Erc20,
                component: addr(9),
                new_owner: addr(0x52)
            },
        ])
    );
}

#[test]
fn minting_beyond_the_supply_underflows() {
    let transfers =
        vec![Transfer { to: addr(1), amount: 300 }, Transfer { to: addr(2), amount: 200 }];
    assert_eq!(
        wire_erc20(&token_param(499), &transfers, addr(9), addr(8)),
        Err(InitError::ArithmeticUnderflow)
    );
    assert!(wire_erc20(&token_param(500), &transfers, addr(9), addr(8)).is_ok());
    let huge = vec![
        Transfer { to: addr(1), amount: u64::MAX },
        Transfer { to: addr(2), amount: 1 },
    ];
    assert_eq!(
        wire_erc20(&token_param(u64::MAX), &huge, addr(9), addr(8)),
        Err(InitError::ArithmeticUnderflow)
    );
}

#[test]
fn vault_learns_its_token() {
    assert_eq!(
        wire_vault_token(addr(3), addr(4)),
        vec![Call::RegisterVaultToken { vault: addr(3), token: addr(4) }]
    );
}
