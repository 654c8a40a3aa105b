//! The text form of a temple's status.

use vstd::prelude::*;
use vstd::string::StringExecFns;
use crate::data::Status;
use crate::text::{same_text, uppercase};

verus! {

/// The status that an upper-case name stands for.
pub open spec fn status_named(upper: Seq<char>) -> Option<Status> {
    if upper == "RENOVATION"@ {
        Some(Status::Renovation)
    } else if upper == "CONSTRUCTION"@ {
        Some(Status::Construction)
    } else if upper == "OPERATING"@ {
        Some(Status::Operating)
    } else if upper == "ANNOUNCED"@ {
        Some(Status::Announced)
    } else {
        None
    }
}

/// The upper-case name of a status.
pub open spec fn status_name(status: Status) -> Seq<char> {
    match status {
        Status::Renovation => "RENOVATION"@,
        Status::Construction => "CONSTRUCTION"@,
        Status::Operating => "OPERATING"@,
        Status::Announced => "ANNOUNCED"@,
    }
}

/// The status that an upper-case name stands for.
pub fn from_upper(upper: &str) -> (result: Option<Status>)
    ensures
        result == status_named(upper@),
{
    if same_text(upper, "RENOVATION") {
        Some(Status::Renovation)
    } else if same_text(upper, "CONSTRUCTION") {
        Some(Status::Construction)
    } else if same_text(upper, "OPERATING") {
        Some(Status::Operating)
    } else if same_text(upper, "ANNOUNCED") {
        Some(Status::Announced)
    } else {
        None
    }
}

/// Reads a status from its name, whatever its case; for an unknown name, a
/// message that quotes it in upper case.
pub fn deserialize(v: &str) -> (result: Result<Status, String>)
    ensures
        match result {
            Ok(status) => status_named(uppercase(v@)) == Some(status),
            Err(message) => status_named(uppercase(v@)) is None && message@
                == "Unable to parse status from string "@ + uppercase(v@),
        },
{
    let upper = v.to_uppercase();
    match from_upper(upper.as_str()) {
        Some(status) => Ok(status),
        None => Err(String::from_str("Unable to parse status from string ").concat(upper.as_str())),
    }
}

/// The name a status is written with.
pub fn serialize(status: &Status) -> (text: &'static str)
    ensures
        text@ == status_name(*status),
{
    match status {
        Status::Renovation => "RENOVATION",
        Status::Construction => "CONSTRUCTION",
        Status::Operating => "OPERATING",
        Status::Announced => "ANNOUNCED",
    }
}

/// The name a status is written with is read back as that status.
pub proof fn lemma_status_name_read_back(status: Status)
    ensures
        status_named(status_name(status)) == Some(status),
{
    reveal_strlit("RENOVATION");
    reveal_strlit("CONSTRUCTION");
    reveal_strlit("OPERATING");
    reveal_strlit("ANNOUNCED");
    assert("RENOVATION"@.len() == 10);
    assert("CONSTRUCTION"@.len() == 12);
    assert("OPERATING"@.len() == 9);
    assert("ANNOUNCED"@[0] == 'A');
    assert("OPERATING"@[0] == 'O');
}

} // verus!
