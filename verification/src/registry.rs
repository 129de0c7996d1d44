use vstd::prelude::*;
use crate::account::AccountId;
use crate::role::Role;

verus! {

/// The address of each deployed component: absent until the role's
/// deployment has succeeded, and kept from then on.
#[derive(Clone, Copy, Debug, PartialEq, Eq)]
pub struct DAOComponentAddrs {
    pub base_addr: Option<AccountId>,
    pub erc20_addr: Option<AccountId>,
    pub org_addr: Option<AccountId>,
    pub vault_addr: Option<AccountId>,
    pub vote_addr: Option<AccountId>,
    pub auth_addr: Option<AccountId>,
}

impl DAOComponentAddrs {
    /// The registry in which every address is absent.
    pub open spec fn empty() -> DAOComponentAddrs {
        DAOComponentAddrs {
            base_addr: None,
            erc20_addr: None,
            org_addr: None,
            vault_addr: None,
            vote_addr: None,
            auth_addr: None,
        }
    }

    /// The address recorded for a role.
    pub open spec fn addr(self, role: Role) -> Option<AccountId> {
        match role {
            Role::Base => self.base_addr,
            Role::Erc20 => self.erc20_addr,
            Role::Org => self.org_addr,
            Role::Vault => self.vault_addr,
            Role::Vote => self.vote_addr,
            Role::Auth => self.auth_addr,
        }
    }

    /// The registry with an address recorded for one role.
    pub open spec fn with(self, role: Role, addr: AccountId) -> DAOComponentAddrs {
        match role {
            Role::Base => DAOComponentAddrs { base_addr: Some(addr), ..self },
            Role::Erc20 => DAOComponentAddrs { erc20_addr: Some(addr), ..self },
            Role::Org => DAOComponentAddrs { org_addr: Some(addr), ..self },
            Role::Vault => DAOComponentAddrs { vault_addr: Some(addr), ..self },
            Role::Vote => DAOComponentAddrs { vote_addr: Some(addr), ..self },
            Role::Auth => DAOComponentAddrs { auth_addr: Some(addr), ..self },
        }
    }

    /// The first of a role's dependencies that has no address yet.
    pub open spec fn missing_dependency(self, role: Role) -> Option<Role> {
        match role {
            Role::Vault => if self.org_addr is None {
                Some(Role::Org)
            } else if self.auth_addr is None {
                Some(Role::Auth)
            } else {
                None
            },
            Role::Vote => if self.vault_addr is None {
                Some(Role::Vault)
            } else {
                None
            },
            Role::Erc20 => if self.vault_addr is None {
                Some(Role::Vault)
            } else {
                None
            },
            _ => None,
        }
    }

    /// Whether every component that stands has its dependencies standing.
    pub open spec fn dependencies_stand(self) -> bool {
        &&& self.vault_addr is Some ==> self.org_addr is Some && self.auth_addr is Some
        &&& self.vote_addr is Some ==> self.vault_addr is Some
        &&& self.erc20_addr is Some ==> self.vault_addr is Some
    }

    /// Makes the registry in which every address is absent.
    pub fn new() -> (r: DAOComponentAddrs)
        ensures
            r == DAOComponentAddrs::empty(),
    {
        DAOComponentAddrs {
            base_addr: None,
            erc20_addr: None,
            org_addr: None,
            vault_addr: None,
            vote_addr: None,
            auth_addr: None,
        }
    }

    /// The address recorded for a role.
    pub fn get(&self, role: Role) -> (r: Option<AccountId>)
        ensures
            r == self.addr(role),
    {
        match role {
            Role::Base => self.base_addr,
            Role::Erc20 => self.erc20_addr,
            Role::Org => self.org_addr,
            Role::Vault => self.vault_addr,
            Role::Vote => self.vote_addr,
            Role::Auth => self.auth_addr,
        }
    }

    /// Records the address of a role's component.
    pub fn set(&mut self, role: Role, addr: AccountId)
        ensures
            *final(self) == old(self).with(role, addr),
    {
        match role {
            Role::Base => self.base_addr = Some(addr),
            Role::Erc20 => self.erc20_addr = Some(addr),
            Role::Org => self.org_addr = Some(addr),
            Role::Vault => self.vault_addr = Some(addr),
            Role::Vote => self.vote_addr = Some(addr),
            Role::Auth => self.auth_addr = Some(addr),
        }
    }

    /// The missing dependency is the first entry of the role's dependency
    /// list without an address; none is missing when all of them have one.
    pub proof fn lemma_missing_dependency(self, role: Role)
        ensures
            match self.missing_dependency(role) {
                Some(dep) => exists|i: int|
                    0 <= i < role.dependencies().len() && role.dependencies()[i] == dep
                        && self.addr(dep) is None && forall|j: int|
                        0 <= j < i ==> self.addr(#[trigger] role.dependencies()[j]) is Some,
                None => forall|i: int|
                    0 <= i < role.dependencies().len() ==> self.addr(
                        #[trigger] role.dependencies()[i],
                    ) is Some,
            },
    {
        match self.missing_dependency(role) {
            Some(dep) => {
                let i: int = if role == Role::Vault && dep == Role::Auth {
                    1
                } else {
                    0
                };
                assert(role.dependencies()[i] == dep);
            },
            None => {},
        }
    }

    /// Recording an address changes what is read for that role, and for no other.
    pub proof fn lemma_with_then_read(self, role: Role, addr: AccountId, other: Role)
        ensures
            self.with(role, addr).addr(other) == if other == role {
                Some(addr)
            } else {
                self.addr(other)
            },
    {
    }
}

impl Default for DAOComponentAddrs {
    fn default() -> (r: DAOComponentAddrs)
        ensures
            r == DAOComponentAddrs::empty(),
    {
        DAOComponentAddrs::new()
    }
}

} // verus!
