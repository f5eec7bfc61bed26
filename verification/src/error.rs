//! Error values reported by validation and by schema maintenance.

use vstd::prelude::*;

verus! {

/// One violated rule: the offending field and what is wrong with it.
#[derive(Clone, Debug)]
pub struct ValidationError {
    pub field: String,
    pub message: String,
}

/// The `(field, message)` view of a validation error.
pub open spec fn error_view(e: ValidationError) -> (Seq<char>, Seq<char>) {
    (e.field@, e.message@)
}

/// The `(field, message)` views of a list of validation errors.
pub open spec fn error_views(v: Seq<ValidationError>) -> Seq<(Seq<char>, Seq<char>)> {
    v.map_values(|e: ValidationError| error_view(e))
}

impl ValidationError {
    /// An error for `field` with the text `message`.
    pub fn new(field: &str, message: &str) -> (e: ValidationError)
        ensures
            e.field@ == field@,
            e.message@ == message@,
    {
        ValidationError { field: field.to_owned(), message: message.to_owned() }
    }
}

/// Errors of the library's operations.
#[derive(Clone, Debug)]
pub enum BeadsError {
    /// A single violated rule.
    Validation { field: String, reason: String },
    /// Several violated rules, in the order they were checked.
    ValidationErrors { errors: Vec<ValidationError> },
    /// A configuration or schema layout problem.
    Config(String),
    /// A failure reported by the database, with its text.
    Database(String),
}

/// What `from_validation_errors` makes of a list of errors.
pub open spec fn spec_from_validation_errors(errors: Seq<ValidationError>, r: BeadsError) -> bool {
    if errors.len() == 1 {
        r matches BeadsError::Validation { field, reason } && field@ == errors[0].field@
            && reason@ == errors[0].message@
    } else {
        r matches BeadsError::ValidationErrors { errors: es } && error_views(es@) == error_views(
            errors,
        )
    }
}

/// `a` and `b` carry the same kind of error with the same texts.
pub open spec fn same_error(a: BeadsError, b: BeadsError) -> bool {
    match (a, b) {
        (
            BeadsError::Validation { field: f1, reason: r1 },
            BeadsError::Validation { field: f2, reason: r2 },
        ) => f1@ == f2@ && r1@ == r2@,
        (BeadsError::ValidationErrors { errors: e1 }, BeadsError::ValidationErrors { errors: e2 }) =>
            error_views(e1@) == error_views(e2@),
        (BeadsError::Config(m1), BeadsError::Config(m2)) => m1@ == m2@,
        (BeadsError::Database(m1), BeadsError::Database(m2)) => m1@ == m2@,
        _ => false,
    }
}

impl ValidationError {
    /// A copy of this error.
    pub fn duplicate(&self) -> (r: ValidationError)
        ensures
            r.field@ == self.field@,
            r.message@ == self.message@,
    {
        ValidationError { field: self.field.clone(), message: self.message.clone() }
    }
}

impl BeadsError {
    /// A copy of this error.
    pub fn duplicate(&self) -> (r: BeadsError)
        ensures
            same_error(r, *self),
    {
        match self {
            BeadsError::Validation { field, reason } => BeadsError::Validation {
                field: field.clone(),
                reason: reason.clone(),
            },
            BeadsError::ValidationErrors { errors } => {
                let mut copy: Vec<ValidationError> = Vec::new();
                let mut i: usize = 0;
                while i < errors.len()
                    invariant
                        i <= errors.len(),
                        error_views(copy@) == error_views(errors@.subrange(0, i as int)),
                    decreases errors.len() - i,
                {
                    let d = errors[i].duplicate();
                    let ghost before = copy@;
                    copy.push(d);
                    assert(copy@ == before.push(d));
                    assert(error_view(d) == error_view(errors@[i as int]));
                    assert(errors@.subrange(0, i + 1) == errors@.subrange(0, i as int).push(errors@[i as int]));
                    assert(error_views(copy@) =~= error_views(before).push(error_view(d)));
                    assert(error_views(errors@.subrange(0, i + 1)) =~= error_views(
                        errors@.subrange(0, i as int),
                    ).push(error_view(errors@[i as int])));
                    assert(error_views(copy@) =~= error_views(errors@.subrange(0, i + 1)));
                    i += 1;
                }
                assert(errors@.subrange(0, errors.len() as int) =~= errors@);
                BeadsError::ValidationErrors { errors: copy }
            },
            BeadsError::Config(m) => BeadsError::Config(m.clone()),
            BeadsError::Database(m) => BeadsError::Database(m.clone()),
        }
    }

    /// A single error becomes `Validation`; any other number of errors
    /// becomes `ValidationErrors`, keeping their order.
    pub fn from_validation_errors(errors: Vec<ValidationError>) -> (r: BeadsError)
        ensures
            spec_from_validation_errors(errors@, r),
    {
        if errors.len() == 1 {
            let mut errors = errors;
            let e = errors.pop().unwrap();
            BeadsError::Validation { field: e.field, reason: e.message }
        } else {
            BeadsError::ValidationErrors { errors }
        }
    }
}

} // verus!
