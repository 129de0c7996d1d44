use vstd::prelude::*;
use crate::account::CodeHash;
use crate::role::Role;

verus! {

/// The blueprint of each role that an organization is to have. A role without
/// a blueprint is left out of the organization.
#[derive(Clone, Copy, Debug, PartialEq, Eq)]
pub struct DAOTemplate {
    pub base: Option<CodeHash>,
    pub erc20: Option<CodeHash>,
    pub org: Option<CodeHash>,
    pub vault: Option<CodeHash>,
    pub vote: Option<CodeHash>,
    pub auth: Option<CodeHash>,
}

impl DAOTemplate {
    /// The template that names no blueprint.
    pub open spec fn empty() -> DAOTemplate {
        DAOTemplate { base: None, erc20: None, org: None, vault: None, vote: None, auth: None }
    }

    /// The blueprint of a role.
    pub open spec fn code_hash_spec(self, role: Role) -> Option<CodeHash> {
        match role {
            Role::Base => self.base,
            Role::Erc20 => self.erc20,
            Role::Org => self.org,
            Role::Vault => self.vault,
            Role::Vote => self.vote,
            Role::Auth => self.auth,
        }
    }

    /// The template with the blueprint of one role replaced.
    pub open spec fn with(self, role: Role, code_hash: Option<CodeHash>) -> DAOTemplate {
        match role {
            Role::Base => DAOTemplate { base: code_hash, ..self },
            Role::Erc20 => DAOTemplate { erc20: code_hash, ..self },
            Role::Org => DAOTemplate { org: code_hash, ..self },
            Role::Vault => DAOTemplate { vault: code_hash, ..self },
            Role::Vote => DAOTemplate { vote: code_hash, ..self },
            Role::Auth => DAOTemplate { auth: code_hash, ..self },
        }
    }

    /// The blueprint listed under a name; none under a name that is no role's.
    pub open spec fn get_spec(self, name: Seq<char>) -> Option<CodeHash> {
        match Role::of_name(name) {
            Some(role) => self.code_hash_spec(role),
            None => None,
        }
    }

    /// Whether the template leaves out no dependency: it names a blueprint
    /// for every role on which a role that it names depends.
    pub open spec fn closed(self) -> bool {
        &&& self.vault is Some ==> self.org is Some && self.auth is Some
        &&& self.vote is Some ==> self.vault is Some
        &&& self.erc20 is Some ==> self.vault is Some
    }

    /// Makes the template that names no blueprint.
    pub fn new() -> (r: DAOTemplate)
        ensures
            r == DAOTemplate::empty(),
    {
        DAOTemplate { base: None, erc20: None, org: None, vault: None, vote: None, auth: None }
    }

    /// The blueprint of a role, if the template names one.
    pub fn code_hash(&self, role: Role) -> (r: Option<CodeHash>)
        ensures
            r == self.code_hash_spec(role),
    {
        match role {
            Role::Base => self.base,
            Role::Erc20 => self.erc20,
            Role::Org => self.org,
            Role::Vault => self.vault,
            Role::Vote => self.vote,
            Role::Auth => self.auth,
        }
    }

    /// Sets the blueprint of a role.
    pub fn set(&mut self, role: Role, code_hash: CodeHash)
        ensures
            *final(self) == old(self).with(role, Some(code_hash)),
    {
        match role {
            Role::Base => self.base = Some(code_hash),
            Role::Erc20 => self.erc20 = Some(code_hash),
            Role::Org => self.org = Some(code_hash),
            Role::Vault => self.vault = Some(code_hash),
            Role::Vote => self.vote = Some(code_hash),
            Role::Auth => self.auth = Some(code_hash),
        }
    }

    /// Lists a blueprint under a role's name. A name that is no role's is not
    /// listed, and the result says so.
    pub fn insert(&mut self, name: &str, code_hash: CodeHash) -> (known: bool)
        ensures
            known == Role::of_name(name@).is_some(),
            Role::of_name(name@) matches Some(role) ==> *final(self) == old(self).with(
                role,
                Some(code_hash),
            ),
            Role::of_name(name@) is None ==> *final(self) == *old(self),
    {
        match Role::from_name(name) {
            Some(role) => {
                self.set(role, code_hash);
                true
            },
            None => false,
        }
    }

    /// The blueprint listed under a name.
    pub fn get(&self, name: &str) -> (r: Option<CodeHash>)
        ensures
            r == self.get_spec(name@),
    {
        match Role::from_name(name) {
            Some(role) => self.code_hash(role),
            None => None,
        }
    }

    /// What `with` puts under a role is read back under that role, and the
    /// other roles keep their blueprints.
    pub proof fn lemma_with_then_read(self, role: Role, code_hash: Option<CodeHash>, other: Role)
        ensures
            self.with(role, code_hash).code_hash_spec(other) == if other == role {
                code_hash
            } else {
                self.code_hash_spec(other)
            },
    {
    }
}

impl Default for DAOTemplate {
    fn default() -> (r: DAOTemplate)
        ensures
            r == DAOTemplate::empty(),
    {
        DAOTemplate::new()
    }
}

} // verus!
