//! Build and response status codes.

use vstd::prelude::*;

verus! {

/// Every state a build or a submission response can be in: terminal build
/// outcomes (`Success`, `Error`, `Aborted`), in-flight states (`Pending`,
/// `Building`, `StartingCommand`) and structured rejection codes.
#[derive(Clone, Copy, Debug, PartialEq, Eq, Structural)]
pub enum Status {
    Error,
    Success,
    Pending,
    Building,
    Full,
    AlreadyBuilding,
    AlreadyQueue,
    Aborted,
    NotFound,
    SomethingWentWrong,
    Unauthorized,
    MissingUniqueId,
    MaxPending,
    MissingPayload,
    FileCreateFailed,
    MissingProjectToken,
    StartingCommand,
    ChangeProjectToken,
}

impl Status {
    /// The wire name of this status.
    pub open spec fn spec_str(self) -> Seq<char> {
        match self {
            Status::ChangeProjectToken => "change_project_token"@,
            Status::StartingCommand => "starting_command"@,
            Status::FileCreateFailed => "file_create_failed"@,
            Status::MissingPayload => "missing_payload"@,
            Status::Error => "error"@,
            Status::Success => "success"@,
            Status::Pending => "pending"@,
            Status::Building => "building"@,
            Status::Full => "full"@,
            Status::AlreadyBuilding => "already_building"@,
            Status::AlreadyQueue => "already_queue"@,
            Status::Aborted => "aborted"@,
            Status::NotFound => "not_found"@,
            Status::SomethingWentWrong => "something_went_wrong"@,
            Status::Unauthorized => "unauthorized"@,
            Status::MissingUniqueId => "missing_unique_id"@,
            Status::MaxPending => "max_pending"@,
            Status::MissingProjectToken => "missing_project_token"@,
        }
    }

    /// Snake-case name of the status, as transmitted in responses.
    pub fn as_str(&self) -> (r: &'static str)
        ensures
            r@ == self.spec_str(),
    {
        match self {
            Status::ChangeProjectToken => "change_project_token",
            Status::StartingCommand => "starting_command",
            Status::FileCreateFailed => "file_create_failed",
            Status::MissingPayload => "missing_payload",
            Status::Error => "error",
            Status::Success => "success",
            Status::Pending => "pending",
            Status::Building => "building",
            Status::Full => "full",
            Status::AlreadyBuilding => "already_building",
            Status::AlreadyQueue => "already_queue",
            Status::Aborted => "aborted",
            Status::NotFound => "not_found",
            Status::SomethingWentWrong => "something_went_wrong",
            Status::Unauthorized => "unauthorized",
            Status::MissingUniqueId => "missing_unique_id",
            Status::MaxPending => "max_pending",
            Status::MissingProjectToken => "missing_project_token",
        }
    }
}

} // verus!
