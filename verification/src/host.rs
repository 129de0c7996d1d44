use vstd::prelude::*;
use crate::account::{AccountId, Balance, CodeHash};
use crate::role::Role;

verus! {

/// What the host reads from its environment before it asks for the next
/// action: who called, the orchestrator's own address, and what the
/// orchestrator holds at that moment.
#[derive(Clone, Copy, Debug, PartialEq, Eq)]
pub struct Env {
    pub caller: AccountId,
    pub account_id: AccountId,
    pub balance: Balance,
}

/// The arguments of a component's constructor.
#[derive(Clone, Debug, PartialEq, Eq)]
pub enum Constructor {
    Base,
    Erc20 { name: String, symbol: String, initial_supply: u64, decimals: u8, minter: AccountId },
    Org { creator: AccountId, org_id: u64 },
    Vault { org: AccountId, auth: AccountId },
    Vote { vault: AccountId },
    Auth { owner: AccountId },
}

impl Constructor {
    /// The role whose component the constructor builds.
    pub open spec fn role_spec(self) -> Role {
        match self {
            Constructor::Base => Role::Base,
            Constructor::Erc20 { .. } => Role::Erc20,
            Constructor::Org { .. } => Role::Org,
            Constructor::Vault { .. } => Role::Vault,
            Constructor::Vote { .. } => Role::Vote,
            Constructor::Auth { .. } => Role::Auth,
        }
    }

    /// The role whose component the constructor builds.
    pub fn role(&self) -> (r: Role)
        ensures
            r == self.role_spec(),
    {
        match self {
            Constructor::Base => Role::Base,
            Constructor::Erc20 { .. } => Role::Erc20,
            Constructor::Org { .. } => Role::Org,
            Constructor::Vault { .. } => Role::Vault,
            Constructor::Vote { .. } => Role::Vote,
            Constructor::Auth { .. } => Role::Auth,
        }
    }
}

/// A request to the deployer: make an instance of a blueprint, endow it, and
/// report its address.
#[derive(Clone, Debug, PartialEq, Eq)]
pub struct Deployment {
    pub code_hash: CodeHash,
    pub endowment: Balance,
    pub salt: [u8; 4],
    pub constructor: Constructor,
}

/// A call on a deployed component. None of them returns anything that the
/// orchestrator reads.
#[derive(Clone, Debug, PartialEq, Eq)]
pub enum Call {
    InitProfile { base: AccountId, name: String, logo: String, desc: String },
    AddModerator { org: AccountId, name: String, moderator: AccountId },
    /// Hands a component over to its new owner. The role says which
    /// component the callee is.
    TransferOwnership { role: Role, component: AccountId, new_owner: AccountId },
    Mint { erc20: AccountId, to: AccountId, amount: u64 },
    RegisterVaultToken { vault: AccountId, token: AccountId },
}

/// What the host has to do next.
#[derive(Clone, Debug, PartialEq, Eq)]
pub enum Action {
    /// Deploy, then report `Event::Deployed`.
    Deploy(Deployment),
    /// Make the calls in order, then report `Event::Called`.
    Call(Vec<Call>),
    /// Nothing: the organization stands.
    Finished,
}

/// An action, with its calls as a sequence.
pub enum ActionView {
    Deploy(Deployment),
    Call(Seq<Call>),
    Finished,
}

impl View for Action {
    type V = ActionView;

    open spec fn view(&self) -> ActionView {
        match *self {
            Action::Deploy(deployment) => ActionView::Deploy(deployment),
            Action::Call(calls) => ActionView::Call(calls@),
            Action::Finished => ActionView::Finished,
        }
    }
}

/// What the host reports once it has done what it was asked to do.
#[derive(Clone, Copy, Debug, PartialEq, Eq)]
pub enum Event {
    /// The outcome of a deployment: the new instance's address, or nothing
    /// where the deployer failed.
    Deployed(Option<AccountId>),
    /// The calls were made.
    Called,
}

/// Why an operation was turned down or an initialization stopped.
#[derive(Clone, Copy, Debug, PartialEq, Eq, Structural)]
pub enum InitError {
    AlreadyInitialized,
    TemplateNotSet,
    NotOwner,
    /// The deployer returned no address for the role.
    DeploymentFailed(Role),
    /// The role named has no address, and a role that is due needs it.
    DependencyMissing(Role),
    /// The distribution exceeds the total supply.
    ArithmeticUnderflow,
    /// The event answers no action that is waiting for one.
    UnexpectedEvent,
}

/// The result of a step, with its calls as a sequence.
pub open spec fn outcome_view(outcome: Result<Action, InitError>) -> Result<ActionView, InitError> {
    match outcome {
        Ok(action) => Ok(action@),
        Err(error) => Err(error),
    }
}

/// A quarter of an amount, rounded down: what one deployment is endowed with.
pub open spec fn quarter(balance: Balance) -> Balance {
    balance / 4
}

/// The four bytes of a number, lowest first.
pub open spec fn le_bytes(version: u32) -> [u8; 4] {
    [
        (version % 256) as u8,
        ((version / 256) % 256) as u8,
        ((version / 65536) % 256) as u8,
        ((version / 16777216) % 256) as u8,
    ]
}

/// The low 32 bits of an organization's identifier.
pub open spec fn version_of(org_id: u64) -> u32 {
    (org_id % 0x1_0000_0000) as u32
}

/// The salt of every deployment that an organization makes.
pub open spec fn salt_of(org_id: u64) -> [u8; 4] {
    le_bytes(version_of(org_id))
}

/// A share never exceeds what it is taken from, and of what a deployment
/// leaves the next share is no larger than the one before.
pub proof fn law_shares_shrink(balance: Balance)
    ensures
        quarter(balance) <= balance,
        quarter((balance - quarter(balance)) as Balance) <= quarter(balance),
        balance >= 4 ==> quarter(balance) > 0,
{
}

/// The bytes of a number, written with shifts and masks.
proof fn lemma_le_bytes(v: u32)
    ensures
        le_bytes(v)@[0] == v & 0xff,
        le_bytes(v)@[1] == (v >> 8) & 0xff,
        le_bytes(v)@[2] == (v >> 16) & 0xff,
        le_bytes(v)@[3] == (v >> 24) & 0xff,
{
    assert(v & 0xff == v % 256) by (bit_vector);
    assert((v >> 8) & 0xff == (v / 256) % 256) by (bit_vector);
    assert((v >> 16) & 0xff == (v / 65536) % 256) by (bit_vector);
    assert((v >> 24) & 0xff == (v / 16777216) % 256) by (bit_vector);
}

/// Organizations whose identifiers differ in their low 32 bits have
/// different salts, and only they.
pub proof fn law_salt_tells_versions_apart(a: u64, b: u64)
    ensures
        salt_of(a) == salt_of(b) <==> version_of(a) == version_of(b),
{
    let v = version_of(a);
    let w = version_of(b);
    if salt_of(a) == salt_of(b) {
        lemma_le_bytes(v);
        lemma_le_bytes(w);
        assert(le_bytes(v)@[0] == le_bytes(w)@[0]);
        assert(le_bytes(v)@[1] == le_bytes(w)@[1]);
        assert(le_bytes(v)@[2] == le_bytes(w)@[2]);
        assert(le_bytes(v)@[3] == le_bytes(w)@[3]);
        assert(v & 0xff == w & 0xff && (v >> 8) & 0xff == (w >> 8) & 0xff && (v >> 16) & 0xff == (w
            >> 16) & 0xff && (v >> 24) & 0xff == (w >> 24) & 0xff ==> v == w) by (bit_vector);
    }
}

/// Computes what one deployment is endowed with out of what is held.
pub fn endowment_share(balance: Balance) -> (r: Balance)
    ensures
        r == quarter(balance),
        4 * r <= balance < 4 * r + 4,
{
    balance / 4
}

/// Takes the low 32 bits of an organization's identifier.
pub fn version(org_id: u64) -> (r: u32)
    ensures
        r == version_of(org_id),
{
    let low: u64 = org_id & 0xffff_ffff;
    assert(org_id & 0xffff_ffff == org_id % 0x1_0000_0000) by (bit_vector);
    low as u32
}

/// Lays a number out in four bytes, lowest first.
pub fn salt_bytes(version: u32) -> (r: [u8; 4])
    ensures
        r == le_bytes(version),
{
    let b0: u8 = (version & 0xff) as u8;
    let b1: u8 = ((version >> 8) & 0xff) as u8;
    let b2: u8 = ((version >> 16) & 0xff) as u8;
    let b3: u8 = ((version >> 24) & 0xff) as u8;
    proof {
        lemma_le_bytes(version);
    }
    let r = [b0, b1, b2, b3];
    assert(r =~= le_bytes(version));
    r
}

} // verus!
