//! Project-token handling and the snapshot side of the
//! replay-then-subscribe pattern: a new subscriber first receives the
//! current history, then live events from the fan-out channel.

use vstd::prelude::*;

use crate::state::AppState;
use crate::state::BuildLog;
use crate::state::BuildResponse;
use crate::state::ProjectLog;
use crate::status::Status;

verus! {

/// An element-exact copy of a build-log history.
pub fn clone_build_logs(v: &Vec<BuildLog>) -> (r: Vec<BuildLog>)
    ensures
        r@ == v@,
{
    let n = v.len();
    let mut r: Vec<BuildLog> = Vec::new();
    let mut i: usize = 0;
    while i < n
        invariant
            n == v@.len(),
            i <= n,
            r@ == v@.subrange(0, i as int),
        decreases n - i,
    {
        r.push(v[i].clone());
        proof {
            assert(r@ =~= v@.subrange(0, i + 1));
        }
        i += 1;
    }
    proof {
        assert(v@.subrange(0, n as int) =~= v@);
    }
    r
}

/// An element-exact copy of a project-event history.
pub fn clone_project_logs(v: &Vec<ProjectLog>) -> (r: Vec<ProjectLog>)
    ensures
        r@ == v@,
{
    let n = v.len();
    let mut r: Vec<ProjectLog> = Vec::new();
    let mut i: usize = 0;
    while i < n
        invariant
            n == v@.len(),
            i <= n,
            r@ == v@.subrange(0, i as int),
        decreases n - i,
    {
        r.push(v[i].clone());
        proof {
            assert(r@ =~= v@.subrange(0, i + 1));
        }
        i += 1;
    }
    proof {
        assert(v@.subrange(0, n as int) =~= v@);
    }
    r
}

impl AppState {
    /// Stores the project token presented with a submission.
    pub fn set_project_token(&mut self, token: String)
        ensures
            *final(self) == (AppState { project_token: Some(token), ..*old(self) }),
    {
        self.project_token = Some(token);
    }

    /// Validates a presented project token: `Success` when it matches the
    /// stored one; otherwise the caller may rotate the token by presenting
    /// a replacement (`ChangeProjectToken`); a missing field is reported
    /// as `MissingProjectToken` and changes nothing.
    pub fn check_project_token(&mut self, provided: Option<&String>, change: Option<&String>) -> (r:
        BuildResponse)
        requires
            old(self).project_token is Some,
        ensures
            r.token is None && r.build_id is None,
            match provided {
                None => r.status == Status::MissingProjectToken && *final(self) == *old(self),
                Some(p) => {
                    if p@ == old(self).project_token->0@ {
                        r.status == Status::Success && *final(self) == *old(self)
                    } else {
                        match change {
                            None => r.status == Status::MissingProjectToken && *final(self)
                                == *old(self),
                            Some(c) => r.status == Status::ChangeProjectToken && *final(self)
                                == (AppState { project_token: Some(*c), ..*old(self) }),
                        }
                    }
                },
            },
    {
        let provided = match provided {
            None => {
                return BuildResponse {
                    message: "Missing project token".to_owned(),
                    status: Status::MissingProjectToken,
                    token: None,
                    build_id: None,
                };
            },
            Some(p) => p,
        };
        let matches_current = match &self.project_token {
            Some(t) => *t == *provided,
            None => false,
        };
        if matches_current {
            return BuildResponse {
                message: "Valid Project Token".to_owned(),
                status: Status::Success,
                token: None,
                build_id: None,
            };
        }
        match change {
            None => BuildResponse {
                message: "Missing change project token".to_owned(),
                status: Status::MissingProjectToken,
                token: None,
                build_id: None,
            },
            Some(c) => {
                self.project_token = Some(c.clone());
                BuildResponse {
                    message: "Change the project token".to_owned(),
                    status: Status::ChangeProjectToken,
                    token: None,
                    build_id: None,
                }
            },
        }
    }

    /// The snapshot a new per-build subscriber receives: the active
    /// build's log history, provided the requested key names the active
    /// build.  `NotFound` when no build runs, `Unauthorized` when the key
    /// names another build.
    pub fn build_snapshot(&self, requested_key: &String) -> (r: Result<Vec<BuildLog>, Status>)
        ensures
            match r {
                Ok(logs) => self.builds.current_build matches Some(b) && b.unique_id@
                    == requested_key@ && logs@ == b.logs@,
                Err(st) => match self.builds.current_build {
                    None => st == Status::NotFound,
                    Some(b) => b.unique_id@ != requested_key@ && st == Status::Unauthorized,
                },
            },
    {
        match &self.builds.current_build {
            None => Err(Status::NotFound),
            Some(b) => {
                if b.unique_id == *requested_key {
                    Ok(clone_build_logs(&b.logs))
                } else {
                    Err(Status::Unauthorized)
                }
            },
        }
    }

    /// The snapshot a new project-event subscriber receives: the whole
    /// event history, provided the presented token matches the stored
    /// project token.
    pub fn project_snapshot(&self, token: &String) -> (r: Result<Vec<ProjectLog>, Status>)
        ensures
            match r {
                Ok(logs) => (self.project_token matches Some(t) && t@ == token@) && logs@
                    == self.project_logs@,
                Err(st) => st == Status::Unauthorized && (match self.project_token {
                    None => true,
                    Some(t) => t@ != token@,
                }),
            },
    {
        match &self.project_token {
            None => Err(Status::Unauthorized),
            Some(t) => {
                if *t == *token {
                    Ok(clone_project_logs(&self.project_logs))
                } else {
                    Err(Status::Unauthorized)
                }
            },
        }
    }
}

} // verus!
