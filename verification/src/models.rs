//! The contact form and its per-field rules.

use vstd::prelude::*;
use vstd::string::StrSliceExecFns;
use vstd::string::StringExecFns;

verus! {

/// One invalid field of a submitted form, with every message for that field.
#[derive(Clone, Debug)]
pub struct FieldError {
    pub field: String,
    pub messages: Vec<String>,
}

impl FieldError {
    pub fn new(field: String, messages: Vec<String>) -> (r: FieldError)
        ensures
            r.field == field,
            r.messages == messages,
    {
        FieldError { field, messages }
    }
}

/// The contact form as submitted. Carries no invariant of its own:
/// `validate` decides whether the field rules hold.
#[derive(Debug)]
pub struct LetsStartForm {
    pub email: String,
    pub min_budget: u16,
    pub max_budget: u16,
    pub name: String,
    pub project_description: String,
}

/// Whether a string is a valid email address. The grammar (the HTML5 one,
/// with internationalised domains folded through punycode) is the outside
/// crate's; only its outcome is named here.
pub uninterp spec fn email_ok(s: Seq<char>) -> bool;

/// Relies on validator's `ValidateEmail` for `&str`: validity under the HTML5
/// email grammar, a function of the characters alone.
#[verifier::external_body]
fn email_is_valid(s: &str) -> (r: bool)
    ensures
        r == email_ok(s@),
{
    validator::ValidateEmail::validate_email(&s)
}

pub open spec fn min_budget_ok(b: u16) -> bool {
    1000 <= b < 50000
}

pub open spec fn max_budget_ok(b: u16) -> bool {
    1000 <= b <= 50000
}

pub open spec fn name_ok(s: Seq<char>) -> bool {
    2 <= s.len() <= 32
}

pub open spec fn description_ok(s: Seq<char>) -> bool {
    64 <= s.len() <= 512
}

/// All five field rules, over the field values themselves.
pub open spec fn fields_valid(
    email: Seq<char>,
    min_budget: u16,
    max_budget: u16,
    name: Seq<char>,
    description: Seq<char>,
) -> bool {
    &&& email_ok(email)
    &&& min_budget_ok(min_budget)
    &&& max_budget_ok(max_budget)
    &&& name_ok(name)
    &&& description_ok(description)
}

pub open spec fn form_valid(f: &LetsStartForm) -> bool {
    fields_valid(f.email@, f.min_budget, f.max_budget, f.name@, f.project_description@)
}

/// The error list a form earns, as pairs of (wire field name, message),
/// one entry per failing field, in declaration order.
pub open spec fn spec_field_errors(
    email: Seq<char>,
    min_budget: u16,
    max_budget: u16,
    name: Seq<char>,
    description: Seq<char>,
) -> Seq<(Seq<char>, Seq<char>)> {
    (if email_ok(email) {
        seq![]
    } else {
        seq![("email"@, "Incorrect @mail address"@)]
    }) + (if min_budget_ok(min_budget) {
        seq![]
    } else {
        seq![("minBudget"@, "The value of the field goes out of range"@)]
    }) + (if max_budget_ok(max_budget) {
        seq![]
    } else {
        seq![("maxBudget"@, "The value of the field goes out of range"@)]
    }) + (if name_ok(name) {
        seq![]
    } else {
        seq![("name"@, "The length of the field goes out of bounds"@)]
    }) + (if description_ok(description) {
        seq![]
    } else {
        seq![("projectDescription"@, "The length of the field goes out of bounds"@)]
    })
}

/// An executable error list renders a spec one: same length, same field
/// names, and one message per entry, the spec one.
pub open spec fn errors_match(errs: Seq<FieldError>, entries: Seq<(Seq<char>, Seq<char>)>) -> bool {
    &&& errs.len() == entries.len()
    &&& forall|i: int|
        0 <= i < errs.len() ==> {
            &&& (#[trigger] errs[i]).field@ == entries[i].0
            &&& errs[i].messages@.len() == 1
            &&& errs[i].messages@[0]@ == entries[i].1
        }
}

impl LetsStartForm {
    /// Runs every field rule, never stopping at the first failure, and
    /// returns every violation, one `FieldError` per failing field, in
    /// declaration order.
    pub fn validate(&self) -> (r: Result<(), Vec<FieldError>>)
        ensures
            r is Ok <==> form_valid(self),
            r matches Err(errs) ==> errors_match(
                errs@,
                spec_field_errors(
                    self.email@,
                    self.min_budget,
                    self.max_budget,
                    self.name@,
                    self.project_description@,
                ),
            ) && errs@.len() >= 1,
    {
        let mut errors: Vec<FieldError> = Vec::new();
        if !email_is_valid(self.email.as_str()) {
            errors.push(
                FieldError::new(
                    String::from_str("email"),
                    vec![String::from_str("Incorrect @mail address")],
                ),
            );
        }
        if !(1000 <= self.min_budget && self.min_budget < 50000) {
            errors.push(
                FieldError::new(
                    String::from_str("minBudget"),
                    vec![String::from_str("The value of the field goes out of range")],
                ),
            );
        }
        if !(1000 <= self.max_budget && self.max_budget <= 50000) {
            errors.push(
                FieldError::new(
                    String::from_str("maxBudget"),
                    vec![String::from_str("The value of the field goes out of range")],
                ),
            );
        }
        let name_len = self.name.as_str().unicode_len();
        if !(2 <= name_len && name_len <= 32) {
            errors.push(
                FieldError::new(
                    String::from_str("name"),
                    vec![String::from_str("The length of the field goes out of bounds")],
                ),
            );
        }
        let description_len = self.project_description.as_str().unicode_len();
        if !(64 <= description_len && description_len <= 512) {
            errors.push(
                FieldError::new(
                    String::from_str("projectDescription"),
                    vec![String::from_str("The length of the field goes out of bounds")],
                ),
            );
        }
        if errors.len() == 0 {
            assert(spec_field_errors(
                self.email@,
                self.min_budget,
                self.max_budget,
                self.name@,
                self.project_description@,
            ).len() == 0);
            Ok(())
        } else {
            Err(errors)
        }
    }

    /// Builds the form from raw field values and accepts it only if every
    /// rule holds; otherwise hands back the full violation list.
    pub fn new_validated(
        email: String,
        min_budget: u16,
        max_budget: u16,
        name: String,
        project_description: String,
    ) -> (r: Result<LetsStartForm, Vec<FieldError>>)
        ensures
            r is Ok <==> fields_valid(email@, min_budget, max_budget, name@, project_description@),
            r matches Ok(f) ==> {
                &&& f.email == email
                &&& f.min_budget == min_budget
                &&& f.max_budget == max_budget
                &&& f.name == name
                &&& f.project_description == project_description
            },
            r matches Err(errs) ==> errors_match(
                errs@,
                spec_field_errors(email@, min_budget, max_budget, name@, project_description@),
            ) && errs@.len() >= 1,
    {
        let form = LetsStartForm { email, min_budget, max_budget, name, project_description };
        match form.validate() {
            Ok(()) => Ok(form),
            Err(errors) => Err(errors),
        }
    }
}

/// How many of the five field rules the values break.
pub open spec fn failing_count(
    email: Seq<char>,
    min_budget: u16,
    max_budget: u16,
    name: Seq<char>,
    description: Seq<char>,
) -> int {
    (if email_ok(email) {
        0int
    } else {
        1int
    }) + (if min_budget_ok(min_budget) {
        0int
    } else {
        1int
    }) + (if max_budget_ok(max_budget) {
        0int
    } else {
        1int
    }) + (if name_ok(name) {
        0int
    } else {
        1int
    }) + (if description_ok(description) {
        0int
    } else {
        1int
    })
}

/// For an input that violates exactly one field rule, the error list
/// `validate` hands back holds exactly one entry: for that field, with a
/// non-empty message list.
pub proof fn lemma_single_violation_single_error(
    errs: Seq<FieldError>,
    email: Seq<char>,
    min_budget: u16,
    max_budget: u16,
    name: Seq<char>,
    description: Seq<char>,
)
    requires
        errors_match(errs, spec_field_errors(email, min_budget, max_budget, name, description)),
        failing_count(email, min_budget, max_budget, name, description) == 1,
    ensures
        errs.len() == 1,
        errs[0].messages@.len() >= 1,
        !email_ok(email) ==> errs[0].field@ == "email"@,
        !min_budget_ok(min_budget) ==> errs[0].field@ == "minBudget"@,
        !max_budget_ok(max_budget) ==> errs[0].field@ == "maxBudget"@,
        !name_ok(name) ==> errs[0].field@ == "name"@,
        !description_ok(description) ==> errs[0].field@ == "projectDescription"@,
{
}

/// For an input that violates rules in several fields, the error list
/// `validate` hands back aggregates them all: one entry per failing field —
/// as many entries as failing fields, and a field's wire name stands in the
/// list exactly when its rule is broken.
pub proof fn lemma_one_error_per_failing_field(
    errs: Seq<FieldError>,
    email: Seq<char>,
    min_budget: u16,
    max_budget: u16,
    name: Seq<char>,
    description: Seq<char>,
)
    requires
        errors_match(errs, spec_field_errors(email, min_budget, max_budget, name, description)),
    ensures
        errs.len() == failing_count(email, min_budget, max_budget, name, description),
        !email_ok(email) <==> exists|i: int|
            0 <= i < errs.len() && (#[trigger] errs[i]).field@ == "email"@,
        !min_budget_ok(min_budget) <==> exists|i: int|
            0 <= i < errs.len() && (#[trigger] errs[i]).field@ == "minBudget"@,
        !max_budget_ok(max_budget) <==> exists|i: int|
            0 <= i < errs.len() && (#[trigger] errs[i]).field@ == "maxBudget"@,
        !name_ok(name) <==> exists|i: int|
            0 <= i < errs.len() && (#[trigger] errs[i]).field@ == "name"@,
        !description_ok(description) <==> exists|i: int|
            0 <= i < errs.len() && (#[trigger] errs[i]).field@ == "projectDescription"@,
{
    reveal_strlit("email");
    reveal_strlit("minBudget");
    reveal_strlit("maxBudget");
    reveal_strlit("name");
    reveal_strlit("projectDescription");
    // the five wire names are pairwise distinct: four have distinct lengths,
    // and the two budget names differ in their second character
    assert("email"@.len() == 5);
    assert("minBudget"@.len() == 9);
    assert("maxBudget"@.len() == 9);
    assert("name"@.len() == 4);
    assert("projectDescription"@.len() == 18);
    assert("minBudget"@[1] == 'i');
    assert("maxBudget"@[1] == 'a');
    let entries = spec_field_errors(email, min_budget, max_budget, name, description);
    let ghost a: int = if email_ok(email) {
        0
    } else {
        1
    };
    let ghost b: int = if min_budget_ok(min_budget) {
        0
    } else {
        1
    };
    let ghost c: int = if max_budget_ok(max_budget) {
        0
    } else {
        1
    };
    let ghost d: int = if name_ok(name) {
        0
    } else {
        1
    };
    if !email_ok(email) {
        assert(entries[0].0 == "email"@);
        assert(errs[0].field@ == "email"@);
    }
    if !min_budget_ok(min_budget) {
        assert(entries[a].0 == "minBudget"@);
        assert(errs[a].field@ == "minBudget"@);
    }
    if !max_budget_ok(max_budget) {
        assert(entries[a + b].0 == "maxBudget"@);
        assert(errs[a + b].field@ == "maxBudget"@);
    }
    if !name_ok(name) {
        assert(entries[a + b + c].0 == "name"@);
        assert(errs[a + b + c].field@ == "name"@);
    }
    if !description_ok(description) {
        assert(entries[a + b + c + d].0 == "projectDescription"@);
        assert(errs[a + b + c + d].field@ == "projectDescription"@);
    }
    assert forall|i: int| 0 <= i < entries.len() implies {
        &&& (entries[i].0 == "email"@ ==> !email_ok(email))
        &&& (entries[i].0 == "minBudget"@ ==> !min_budget_ok(min_budget))
        &&& (entries[i].0 == "maxBudget"@ ==> !max_budget_ok(max_budget))
        &&& (entries[i].0 == "name"@ ==> !name_ok(name))
        &&& (entries[i].0 == "projectDescription"@ ==> !description_ok(description))
    } by {
        if i < a {
            assert(entries[i].0 == "email"@);
        } else if i < a + b {
            assert(entries[i].0 == "minBudget"@);
        } else if i < a + b + c {
            assert(entries[i].0 == "maxBudget"@);
        } else if i < a + b + c + d {
            assert(entries[i].0 == "name"@);
        } else {
            assert(entries[i].0 == "projectDescription"@);
        }
    }
}

} // verus!
