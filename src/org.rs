//! Departments, roles and users of the organisation.
use vstd::prelude::*;

verus! {

/// A department of the organisation.
pub struct Department {
    pub id: u32,
    pub name: String,
    pub desc: String,
}

impl Department {
    /// A copy of this department.
    pub fn duplicate(&self) -> (r: Department)
        ensures
            r == *self,
    {
        Department { id: self.id, name: self.name.clone(), desc: self.desc.clone() }
    }
}

/// The department a user belongs to.
#[derive(Debug, Clone, Copy, PartialEq, Eq, Structural)]
pub struct Membership {
    pub user_id: u32,
    pub department_id: u32,
}

/// The standing of a member. Stored as 0 to 3.
#[derive(Debug, Clone, Copy, PartialEq, Eq, Structural)]
pub enum UserStatus {
    /// Not recorded.
    Unknown,
    /// On probation.
    Intern,
    /// Full member.
    Formal,
    /// Retired.
    Retaired,
}

/// The stored code of a member standing.
pub open spec fn user_status_code(s: UserStatus) -> u32 {
    match s {
        UserStatus::Unknown => 0,
        UserStatus::Intern => 1,
        UserStatus::Formal => 2,
        UserStatus::Retaired => 3,
    }
}

/// The value a stored code names, if it names one.
pub open spec fn user_status_decoded(code: u32) -> Option<UserStatus> {
    if code == 0 {
        Some(UserStatus::Unknown)
    } else if code == 1 {
        Some(UserStatus::Intern)
    } else if code == 2 {
        Some(UserStatus::Formal)
    } else if code == 3 {
        Some(UserStatus::Retaired)
    } else {
        None
    }
}

/// Decoding with the fallback: an unknown code reads as `Unknown`.
pub open spec fn user_status_or_default(code: u32) -> UserStatus {
    match user_status_decoded(code) {
        Some(s) => s,
        None => UserStatus::Unknown,
    }
}

impl UserStatus {
    /// The value a stored code names, or `None` for any other code.
    pub fn decode(code: u32) -> (r: Option<UserStatus>)
        ensures
            r == user_status_decoded(code),
    {
        if code == 0 {
            Some(UserStatus::Unknown)
        } else if code == 1 {
            Some(UserStatus::Intern)
        } else if code == 2 {
            Some(UserStatus::Formal)
        } else if code == 3 {
            Some(UserStatus::Retaired)
        } else {
            None
        }
    }

    /// The stored code of this value.
    pub fn code(self) -> (r: u32)
        ensures
            r == user_status_code(self),
    {
        match self {
            UserStatus::Unknown => 0,
            UserStatus::Intern => 1,
            UserStatus::Formal => 2,
            UserStatus::Retaired => 3,
        }
    }
}

impl From<u32> for UserStatus {
    /// Decodes with the `Unknown` fallback for unknown codes.
    fn from(code: u32) -> (r: UserStatus) {
        match UserStatus::decode(code) {
            Some(s) => s,
            None => UserStatus::Unknown,
        }
    }
}

impl vstd::std_specs::convert::FromSpecImpl<u32> for UserStatus {
    open spec fn obeys_from_spec() -> bool {
        true
    }

    open spec fn from_spec(code: u32) -> UserStatus {
        user_status_or_default(code)
    }
}

impl From<UserStatus> for u32 {
    fn from(s: UserStatus) -> (r: u32) {
        s.code()
    }
}

impl vstd::std_specs::convert::FromSpecImpl<UserStatus> for u32 {
    open spec fn obeys_from_spec() -> bool {
        true
    }

    open spec fn from_spec(s: UserStatus) -> u32 {
        user_status_code(s)
    }
}

/// What the organisation records about a member.
pub struct UserBasicInfo {
    pub username: Option<String>,
    pub name: String,
    pub stu_id: String,
    pub email: Option<String>,
    /// The college.
    pub xueyuan: u32,
    /// The post held.
    pub gangwei: Option<String>,
    /// Whether the member is in the member register.
    pub zaiku: bool,
    /// Whether the member holds a work-study post.
    pub qingonggang: bool,
    pub status: UserStatus,
    pub department_id: u32,
}

/// A role: a named bundle of permissions held by users.
pub struct Role {
    pub id: u32,
    pub name: String,
}

} // verus!
