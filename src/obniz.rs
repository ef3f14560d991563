use vstd::prelude::*;

verus! {

/// The status that the sensor service reports along with a reading.
#[derive(PartialEq, Eq, Structural, Clone, Copy, Debug)]
pub enum Status {
    Good,
    Ng,
    NoData,
}

/// The status that a status string of the service stands for, if any.
pub open spec fn status_of(s: Seq<char>) -> Option<Status> {
    if s == "ok"@ {
        Some(Status::Good)
    } else if s == "ng"@ {
        Some(Status::Ng)
    } else if s == "noData"@ {
        Some(Status::NoData)
    } else {
        None
    }
}

/// Reads the status field of a service response: `"ok"`, `"ng"` or
/// `"noData"`; any other text gives `None`.
pub fn parse_status(s: &String) -> (r: Option<Status>)
    ensures
        r == status_of(s@),
{
    proof {
        reveal_strlit("ok");
        reveal_strlit("ng");
        reveal_strlit("noData");
    }
    if *s == "ok".to_owned() {
        Some(Status::Good)
    } else if *s == "ng".to_owned() {
        Some(Status::Ng)
    } else if *s == "noData".to_owned() {
        Some(Status::NoData)
    } else {
        None
    }
}

} // verus!
