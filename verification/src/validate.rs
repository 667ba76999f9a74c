//! Submission validator: per task type, the required payload fields and the
//! character-class rule their string values must satisfy. Shared between the
//! ingress path and the worker.

use vstd::prelude::*;
use vstd::string::StringExecFns;
use crate::json::Json;

verus! {

/// Whether a string matches the anchored pattern `^[\w\s.,@!?\-]+$`: one or
/// more characters, each a word character, whitespace, or one of `.,@!?-`.
pub uninterp spec fn safe_text(s: Seq<char>) -> bool;

/// Relies on regex::Regex::is_match with the anchored pattern
/// `^[\w\s.,@!?\-]+$`: whether it matches depends on the characters of the
/// input alone. `Regex::new` cannot fail here, since the pattern is a fixed,
/// valid one. An empty input never matches, since `+` demands at least one
/// character.
#[verifier::external_body]
pub(crate) fn sanitize_input(input: &str) -> (r: bool)
    ensures
        r == safe_text(input@),
        input@.len() == 0 ==> !r,
{
    let re = regex::Regex::new(r"^[\w\s.,@!?\-]+$").unwrap();
    re.is_match(input)
}

/// A validation rejection, carrying the offending field where there is one.
#[derive(Clone, Debug)]
pub enum ValidationError {
    /// A required field is absent from the payload.
    MissingField(String),
    /// A required field is present but is not a string, or fails the
    /// character-class rule.
    InvalidField(String),
    /// The task type tag is none of the supported ones.
    UnsupportedTaskType,
}

/// The validator's verdict, stated over character sequences.
pub enum Verdict {
    Accepted,
    MissingField(Seq<char>),
    InvalidField(Seq<char>),
    UnsupportedTaskType,
}

impl ValidationError {
    /// The verdict this error stands for.
    pub open spec fn as_verdict(self) -> Verdict {
        match self {
            ValidationError::MissingField(n) => Verdict::MissingField(n@),
            ValidationError::InvalidField(n) => Verdict::InvalidField(n@),
            ValidationError::UnsupportedTaskType => Verdict::UnsupportedTaskType,
        }
    }

    pub open spec fn spec_message(self) -> Seq<char> {
        match self {
            ValidationError::MissingField(n) => "Missing field '"@ + n@ + "'"@,
            ValidationError::InvalidField(n) => "Invalid or unsafe value for field '"@ + n@
                + "'"@,
            ValidationError::UnsupportedTaskType => "Unsupported task type"@,
        }
    }

    /// The reason served to the submitter with the 4xx answer.
    pub fn message(&self) -> (r: String)
        ensures
            r@ == self.spec_message(),
    {
        match self {
            ValidationError::MissingField(n) => {
                let mut m = String::from_str("Missing field '");
                m.append(n.as_str());
                m.append("'");
                m
            },
            ValidationError::InvalidField(n) => {
                let mut m = String::from_str("Invalid or unsafe value for field '");
                m.append(n.as_str());
                m.append("'");
                m
            },
            ValidationError::UnsupportedTaskType => String::from_str("Unsupported task type"),
        }
    }
}

/// Verdict on one required string field: it must be present, a string, and
/// made of safe characters.
pub open spec fn spec_check_field(payload: Json, name: Seq<char>) -> Verdict {
    match payload.spec_get(name) {
        Option::None => Verdict::MissingField(name),
        Option::Some(v) => match v.spec_as_str() {
            Option::Some(s) => if safe_text(s) {
                Verdict::Accepted
            } else {
                Verdict::InvalidField(name)
            },
            Option::None => Verdict::InvalidField(name),
        },
    }
}

/// The validator: per task type, the required fields in the order they are
/// checked; `resize_factor` only has to be present.
pub open spec fn spec_validate(task_type: Seq<char>, payload: Json) -> Verdict {
    if task_type == "email"@ {
        let c = spec_check_field(payload, "from"@);
        if !(c is Accepted) {
            c
        } else {
            let c = spec_check_field(payload, "to"@);
            if !(c is Accepted) {
                c
            } else {
                let c = spec_check_field(payload, "subject"@);
                if !(c is Accepted) {
                    c
                } else {
                    spec_check_field(payload, "content"@)
                }
            }
        }
    } else if task_type == "image"@ {
        let c = spec_check_field(payload, "img_src"@);
        if !(c is Accepted) {
            c
        } else if payload.spec_get("resize_factor"@) is None {
            Verdict::MissingField("resize_factor"@)
        } else {
            Verdict::Accepted
        }
    } else if task_type == "video"@ {
        let c = spec_check_field(payload, "vid_src"@);
        if !(c is Accepted) {
            c
        } else if payload.spec_get("resize_factor"@) is None {
            Verdict::MissingField("resize_factor"@)
        } else {
            Verdict::Accepted
        }
    } else {
        Verdict::UnsupportedTaskType
    }
}

/// Checks one required string field of the payload.
fn check_field(payload: &Json, name: &String) -> (r: Option<ValidationError>)
    ensures
        match r {
            Some(e) => e.as_verdict() == spec_check_field(*payload, name@) && !(spec_check_field(
                *payload,
                name@,
            ) is Accepted),
            None => spec_check_field(*payload, name@) is Accepted,
        },
{
    match payload.get(name) {
        None => Some(ValidationError::MissingField(name.clone())),
        Some(v) => match v.as_str() {
            Some(s) => {
                if sanitize_input(s.as_str()) {
                    None
                } else {
                    Some(ValidationError::InvalidField(name.clone()))
                }
            },
            None => Some(ValidationError::InvalidField(name.clone())),
        },
    }
}

/// Accepts a `(task_type, payload)` pair or answers with the first rejection,
/// exactly as `spec_validate` rules.
pub fn validate_payload(task_type: &String, payload: &Json) -> (r: Result<(), ValidationError>)
    ensures
        match r {
            Ok(_) => spec_validate(task_type@, *payload) is Accepted,
            Err(e) => e.as_verdict() == spec_validate(task_type@, *payload) && !(spec_validate(
                task_type@,
                *payload,
            ) is Accepted),
        },
{
    let email = String::from_str("email");
    let image = String::from_str("image");
    let video = String::from_str("video");
    if *task_type == email {
        if let Some(e) = check_field(payload, &String::from_str("from")) {
            return Err(e);
        }
        if let Some(e) = check_field(payload, &String::from_str("to")) {
            return Err(e);
        }
        if let Some(e) = check_field(payload, &String::from_str("subject")) {
            return Err(e);
        }
        if let Some(e) = check_field(payload, &String::from_str("content")) {
            return Err(e);
        }
        Ok(())
    } else if *task_type == image {
        if let Some(e) = check_field(payload, &String::from_str("img_src")) {
            return Err(e);
        }
        if payload.get(&String::from_str("resize_factor")).is_none() {
            return Err(ValidationError::MissingField(String::from_str("resize_factor")));
        }
        Ok(())
    } else if *task_type == video {
        if let Some(e) = check_field(payload, &String::from_str("vid_src")) {
            return Err(e);
        }
        if payload.get(&String::from_str("resize_factor")).is_none() {
            return Err(ValidationError::MissingField(String::from_str("resize_factor")));
        }
        Ok(())
    } else {
        Err(ValidationError::UnsupportedTaskType)
    }
}

} // verus!
