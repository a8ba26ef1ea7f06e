use vstd::prelude::*;
use dashmap::DashMap;
use crate::db::fs as fs_dao;
use crate::external::fs::interface::FsProvider;
use crate::external::fs::local::LocalFs;
use crate::types::err::{AppError, StatusCode};
use crate::types::service::AppService;
use crate::utils::text::same_text;

pub mod interface;
pub mod local;

verus! {

/// The id of the storage policy that is used where none is named.
pub const DEFAULT_POLICY_ID: i32 = 1;

/// A storage policy that is ready for use: what the store says of it, and
/// the provider that does its work.
#[derive(Debug, Clone)]
pub struct FsPolicy {
    pub info: fs_dao::FsPolicy,
    pub instance: FsProvider,
}

/// What can be wrong with a request to the file storage.
#[derive(Debug, Clone, Copy, PartialEq, Eq)]
pub enum FsUserError {
    PolicyNotFound,
    PathNameNotValid,
}

impl FsUserError {
    pub open spec fn code(self) -> u16 {
        200
    }

    pub open spec fn msg(self) -> &'static str {
        match self {
            FsUserError::PolicyNotFound => "policy not found",
            FsUserError::PathNameNotValid => "path name not valid",
        }
    }

    /// The error as a handler answers it.
    pub open spec fn error(self) -> AppError {
        AppError::User(StatusCode::of(self.code()), self.msg())
    }

    pub fn to_error(self) -> (e: AppError)
        ensures
            e == self.error(),
    {
        let msg: &'static str = match self {
            FsUserError::PolicyNotFound => "policy not found",
            FsUserError::PathNameNotValid => "path name not valid",
        };
        AppError::new_user(StatusCode::from_u16(200).unwrap(), msg)
    }
}

impl From<FsUserError> for AppError {
    fn from(value: FsUserError) -> (e: AppError) {
        value.to_error()
    }
}

impl vstd::std_specs::convert::FromSpecImpl<FsUserError> for AppError {
    open spec fn obeys_from_spec() -> bool {
        true
    }

    open spec fn from_spec(value: FsUserError) -> AppError {
        value.error()
    }
}

/// What a map of storage policies holds: for each id that has an entry,
/// the policy stored under it.
pub uninterp spec fn policy_map(m: DashMap<i32, FsPolicy>) -> Map<i32, FsPolicy>;

/// `DashMap::new` makes a map without entries.
#[verifier::external_body]
fn policies_new() -> (made: DashMap<i32, FsPolicy>)
    ensures
        policy_map(made) =~= Map::empty(),
{
    DashMap::new()
}

/// `DashMap::insert` stores `policy` under `id`, in place of what was
/// stored under that id before; every other entry stays as it was.
#[verifier::external_body]
fn policies_insert(m: &mut DashMap<i32, FsPolicy>, id: i32, policy: FsPolicy)
    ensures
        policy_map(*final(m)) == policy_map(*old(m)).insert(id, policy),
{
    m.insert(id, policy);
}

/// `DashMap::get` finds the entry stored under `id`. The policy of that
/// entry is copied out; `None` says that there is no such entry.
#[verifier::external_body]
fn policies_get(m: &DashMap<i32, FsPolicy>, id: i32) -> (policy: Option<FsPolicy>)
    ensures
        policy == if policy_map(*m).contains_key(id) { Some(policy_map(*m)[id]) } else { None },
{
    match m.get(&id) {
        Some(entry) => Some(entry.value().clone()),
        None => None,
    }
}

/// What is to be done with a storage policy when the service starts.
pub enum PolicyStep {
    /// The policy is for the local file system but names no path: it is
    /// passed over.
    Skip,
    /// The policy is for the local file system, rooted at this path.
    Local(String),
    /// The policy is for a provider that does not exist.
    Unsupported,
}

/// What is to be done with the storage policy `info` when the service
/// starts.
pub fn policy_step(info: &fs_dao::FsPolicy) -> (step: PolicyStep)
    ensures
        match step {
            PolicyStep::Unsupported => info.extension@ != LocalFs::EXTENSION_NAME@,
            PolicyStep::Skip => info.extension@ == LocalFs::EXTENSION_NAME@ && fs_dao::meta_value(
                info.meta@,
                "path"@,
            ) is None,
            PolicyStep::Local(path) => info.extension@ == LocalFs::EXTENSION_NAME@
                && fs_dao::meta_value(info.meta@, "path"@) == Some(path@),
        },
{
    if !same_text(info.extension.as_str(), LocalFs::EXTENSION_NAME) {
        return PolicyStep::Unsupported;
    }
    match info.meta_get("path") {
        Some(path) => PolicyStep::Local(path.clone()),
        None => PolicyStep::Skip,
    }
}

/// The service that holds the storage policies that are ready for use.
pub struct FsService {
    policies: DashMap<i32, FsPolicy>,
}

impl View for FsService {
    type V = Map<i32, FsPolicy>;

    closed spec fn view(&self) -> Map<i32, FsPolicy> {
        policy_map(self.policies)
    }
}

impl FsService {
    /// A service without policies.
    pub fn new() -> (service: FsService)
        ensures
            service@ == Map::<i32, FsPolicy>::empty(),
    {
        FsService { policies: policies_new() }
    }

    /// Takes up the policy `info` with its provider `instance`, under the
    /// id of the policy.
    pub fn register(&mut self, info: fs_dao::FsPolicy, instance: FsProvider)
        ensures
            final(self)@ == old(self)@.insert(info.id, FsPolicy { info, instance }),
    {
        let id = info.id;
        policies_insert(&mut self.policies, id, FsPolicy { info, instance });
    }

    /// The policy with the id `policy_id`, if the service holds one.
    pub fn get(&self, policy_id: i32) -> (policy: Option<FsPolicy>)
        ensures
            policy == if self@.contains_key(policy_id) {
                Some(self@[policy_id])
            } else {
                None
            },
    {
        policies_get(&self.policies, policy_id)
    }
}

impl AppService for FsService {
    open spec fn service_name() -> &'static str {
        "FsService"
    }

    fn name() -> (name: &'static str) {
        "FsService"
    }
}

} // verus!
