use vstd::prelude::*;

verus! {

/// How the program ends.
pub enum ExitCode {
    Success,
    KilledBySigint,
    GeneralError(String),
}

pub open spec fn status_of(code: &ExitCode) -> i32 {
    match code {
        ExitCode::Success => 0,
        ExitCode::GeneralError(_) => 1,
        ExitCode::KilledBySigint => 130,
    }
}

impl ExitCode {
    /// The process exit status: 0 on success, 1 on an error, 130 when
    /// interrupted.
    pub fn status(&self) -> (r: i32)
        ensures
            r == status_of(self),
    {
        match self {
            ExitCode::Success => 0,
            ExitCode::GeneralError(_) => 1,
            ExitCode::KilledBySigint => 130,
        }
    }
}

impl From<ExitCode> for i32 {
    fn from(code: ExitCode) -> (r: i32) {
        code.status()
    }
}

impl vstd::std_specs::convert::FromSpecImpl<ExitCode> for i32 {
    open spec fn obeys_from_spec() -> bool {
        true
    }

    open spec fn from_spec(code: ExitCode) -> i32 {
        status_of(&code)
    }
}

} // verus!
