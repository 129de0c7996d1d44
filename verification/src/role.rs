use vstd::prelude::*;

verus! {

/// One of the six functional slots that an organization may fill.
#[derive(Clone, Copy, Debug, PartialEq, Eq, Structural)]
pub enum Role {
    /// Identity and profile.
    Base,
    /// Fungible token.
    Erc20,
    /// Membership and moderators.
    Org,
    /// Treasury.
    Vault,
    /// Voting.
    Vote,
    /// Access control.
    Auth,
}

/// Tells whether two string slices hold the same characters.
fn str_equal(a: &str, b: &str) -> (r: bool)
    ensures
        r == (a@ == b@),
{
    let left = a.to_owned();
    let right = b.to_owned();
    left == right
}

impl Role {
    /// The name under which a template lists the role's blueprint.
    pub open spec fn name_spec(self) -> Seq<char> {
        match self {
            Role::Base => "BASE"@,
            Role::Erc20 => "ERC20"@,
            Role::Org => "ORG"@,
            Role::Vault => "VAULT"@,
            Role::Vote => "VOTE"@,
            Role::Auth => "AUTH"@,
        }
    }

    /// The role that a name stands for, if any.
    pub open spec fn of_name(name: Seq<char>) -> Option<Role> {
        if name == "BASE"@ {
            Some(Role::Base)
        } else if name == "ERC20"@ {
            Some(Role::Erc20)
        } else if name == "ORG"@ {
            Some(Role::Org)
        } else if name == "VAULT"@ {
            Some(Role::Vault)
        } else if name == "VOTE"@ {
            Some(Role::Vote)
        } else if name == "AUTH"@ {
            Some(Role::Auth)
        } else {
            None
        }
    }

    /// The roles whose addresses the role's constructor takes, in the order
    /// in which they are looked for.
    pub open spec fn dependencies(self) -> Seq<Role> {
        match self {
            Role::Vault => seq![Role::Org, Role::Auth],
            Role::Vote => seq![Role::Vault],
            Role::Erc20 => seq![Role::Vault],
            _ => Seq::empty(),
        }
    }

    /// Whether calls are made on the component right after its deployment.
    pub open spec fn has_wiring(self) -> bool {
        self == Role::Base || self == Role::Org || self == Role::Erc20
    }

    /// The place of the role in the deployment order.
    pub open spec fn rank(self) -> nat {
        match self {
            Role::Base => 0,
            Role::Org => 1,
            Role::Auth => 2,
            Role::Vault => 3,
            Role::Vote => 4,
            Role::Erc20 => 5,
        }
    }

    /// The role's name.
    pub fn name(self) -> (r: &'static str)
        ensures
            r@ == self.name_spec(),
    {
        match self {
            Role::Base => "BASE",
            Role::Erc20 => "ERC20",
            Role::Org => "ORG",
            Role::Vault => "VAULT",
            Role::Vote => "VOTE",
            Role::Auth => "AUTH",
        }
    }

    /// The role that a name stands for; none for a name that is no role's.
    pub fn from_name(name: &str) -> (r: Option<Role>)
        ensures
            r == Role::of_name(name@),
    {
        if str_equal(name, "BASE") {
            Some(Role::Base)
        } else if str_equal(name, "ERC20") {
            Some(Role::Erc20)
        } else if str_equal(name, "ORG") {
            Some(Role::Org)
        } else if str_equal(name, "VAULT") {
            Some(Role::Vault)
        } else if str_equal(name, "VOTE") {
            Some(Role::Vote)
        } else if str_equal(name, "AUTH") {
            Some(Role::Auth)
        } else {
            None
        }
    }

    /// Every role is found again by its name.
    pub proof fn lemma_name_round_trip(role: Role)
        ensures
            Role::of_name(role.name_spec()) == Some(role),
    {
        reveal_strlit("BASE");
        reveal_strlit("ERC20");
        reveal_strlit("ORG");
        reveal_strlit("VAULT");
        reveal_strlit("VOTE");
        reveal_strlit("AUTH");
        assert("BASE"@.len() == 4 && "ERC20"@.len() == 5 && "ORG"@.len() == 3);
        assert("VAULT"@.len() == 5 && "VOTE"@.len() == 4 && "AUTH"@.len() == 4);
        assert("BASE"@[0] == 'B' && "ERC20"@[0] == 'E' && "VAULT"@[0] == 'V');
        assert("VOTE"@[0] == 'V' && "AUTH"@[0] == 'A');
    }
}

/// The order in which the roles are deployed. Access control comes before the
/// treasury, whose constructor takes its address.
pub open spec fn deployment_order() -> Seq<Role> {
    seq![Role::Base, Role::Org, Role::Auth, Role::Vault, Role::Vote, Role::Erc20]
}

/// Every role is deployed after the roles that it depends on.
pub proof fn law_order_respects_dependencies(role: Role, i: int)
    requires
        0 <= i < role.dependencies().len(),
    ensures
        role.dependencies()[i].rank() < role.rank(),
        deployment_order()[role.rank() as int] == role,
{
}

} // verus!
