// Orchestration core of a DAO factory: it provisions the components of an
// organization in dependency order, wires them together by address and hands
// their ownership over, exactly once. Deployments and cross-contract calls are
// left to the host; this library decides what the host has to do next.
pub mod account;
pub mod completion;
pub mod host;
pub mod laws;
pub mod machine;
pub mod manager;
pub mod params;
pub mod registry;
pub mod role;
pub mod template;
pub mod wiring;

pub use crate::account::{AccountId, Balance, CodeHash};
pub use crate::host::{Action, Call, Constructor, Deployment, Env, Event, InitError};
pub use crate::machine::Stage;
pub use crate::manager::DAOManager;
pub use crate::params::{BaseParam, DAOInitParams, ERC20Param, Moderator, OrgParam, Transfer};
pub use crate::registry::DAOComponentAddrs;
pub use crate::role::Role;
pub use crate::template::DAOTemplate;
