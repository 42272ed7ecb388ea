use vstd::prelude::*;

verus! {

/// Where a run's output directory stands: still being filled, or tagged with
/// its terminal outcome.
#[derive(Debug, Clone, Copy, PartialEq, Eq, Structural)]
pub enum Status {
    Process,
    Success,
    Fail,
}

/// The word that tags a directory with this status.
pub open spec fn status_label(s: Status) -> Seq<char> {
    match s {
        Status::Process => seq!['p', 'r', 'o', 'c', 'e', 's', 's'],
        Status::Success => seq!['s', 'u', 'c', 'c', 'e', 's', 's'],
        Status::Fail => seq!['f', 'a', 'i', 'l'],
    }
}

impl Status {
    /// Success and Fail end a run; Process does not.
    pub open spec fn spec_is_terminal(self) -> bool {
        !(self is Process)
    }

    pub fn is_terminal(&self) -> (r: bool)
        ensures
            r == self.spec_is_terminal(),
    {
        !matches!(self, Status::Process)
    }

    /// The lower-case label of this status (`process`, `success`, `fail`).
    pub fn label(&self) -> (r: String)
        ensures
            r@ == status_label(*self),
    {
        let r = match self {
            Status::Process => "process",
            Status::Success => "success",
            Status::Fail => "fail",
        };
        proof {
            reveal_strlit("process");
            reveal_strlit("success");
            reveal_strlit("fail");
        }
        String::from_str(r)
    }
}

} // verus!
