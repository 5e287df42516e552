//! The text of validation error responses, as the `validator` crate
//! renders it.

use vstd::prelude::*;
use crate::tracking::join;
use crate::validation::{message_view, Violation, ViolationView};

verus! {

/// Errors of the `validator` crate, which render the response text.
#[verifier::external_type_specification]
#[verifier::external_body]
pub struct ExOutsideValidationErrors(validator::ValidationErrors);

/// One error of a field as `validator` holds it: its code and its message.
pub type OutsideError = (Seq<char>, Option<Seq<char>>);

/// What a `validator::ValidationErrors` holds in its entries of kind
/// `Field`: for each such field, its errors (code and message) in the
/// order they were added.
pub uninterp spec fn outside_fields(errors: validator::ValidationErrors) -> Map<Seq<char>, Seq<OutsideError>>;

/// Whether every entry of a `validator::ValidationErrors` is a list of a
/// field's own errors (kind `Field`), none a nested struct or list.
pub uninterp spec fn only_field_entries(errors: validator::ValidationErrors) -> bool;

/// Whether no error of a `validator::ValidationErrors` has parameters (the
/// values `add_param` records, which its text prints).
pub uninterp spec fn no_error_params(errors: validator::ValidationErrors) -> bool;

/// `fields` after adding error `e` to `field`, behind its earlier errors.
pub open spec fn with_error(
    fields: Map<Seq<char>, Seq<OutsideError>>,
    field: Seq<char>,
    e: OutsideError,
) -> Map<Seq<char>, Seq<OutsideError>> {
    fields.insert(field, if fields.contains_key(field) { fields[field].push(e) } else { seq![e] })
}

/// How `validator` prints one error without parameters: its message, or
/// else its code and the empty parameter map.
pub open spec fn error_display(e: OutsideError) -> Seq<char> {
    match e.1 {
        Some(m) => m,
        None => "Validation error: "@ + e.0 + " [{}]"@,
    }
}

/// How `validator` prints the errors of one field.
pub open spec fn field_line(field: Seq<char>, errors: Seq<OutsideError>) -> Seq<char> {
    field + ": "@ + join(errors.map_values(|e: OutsideError| error_display(e)), ", "@)
}

/// Whether `order` lists each field of `fields` exactly once.
pub open spec fn is_field_order(fields: Map<Seq<char>, Seq<OutsideError>>, order: Seq<Seq<char>>) -> bool {
    &&& order.no_duplicates()
    &&& forall|f: Seq<char>| #[trigger] order.contains(f) <==> fields.contains_key(f)
}

/// How `validator` prints all errors when it walks the fields in `order`:
/// one line per field.
pub open spec fn errors_display(fields: Map<Seq<char>, Seq<OutsideError>>, order: Seq<Seq<char>>) -> Seq<char> {
    join(order.map_values(|f: Seq<char>| field_line(f, fields[f])), "\n"@)
}

/// No field has errors.
pub open spec fn no_fields() -> Map<Seq<char>, Seq<OutsideError>> {
    Map::empty()
}

/// Whether `text` is how `validator` prints `fields`, walking them in
/// some order.
pub open spec fn is_errors_text(fields: Map<Seq<char>, Seq<OutsideError>>, text: Seq<char>) -> bool {
    exists|order: Seq<Seq<char>>| #[trigger] is_field_order(fields, order) && text == errors_display(fields, order)
}

/// The errors `validator` holds after the violations are added in order.
pub open spec fn fields_of(violations: Seq<ViolationView>) -> Map<Seq<char>, Seq<OutsideError>>
    decreases violations.len(),
{
    if violations.len() == 0 {
        Map::empty()
    } else {
        let v = violations.last();
        with_error(fields_of(violations.drop_last()), v.0, (v.1, v.2))
    }
}

/// An empty `validator::ValidationErrors` (`ValidationErrors::new`).
#[verifier::external_body]
fn new_outside_errors() -> (e: validator::ValidationErrors)
    ensures
        outside_fields(e) == no_fields(),
        only_field_entries(e),
        no_error_params(e),
{
    validator::ValidationErrors::new()
}

/// Adds to `errors` a `validator::ValidationError` of `code` with
/// `message` for `field` (`ValidationErrors::add`): the error goes behind
/// the field's earlier errors. `add` panics where the field's entry is a
/// nested struct or list, so only errors whose entries are all of kind
/// `Field` are admitted, and they stay so. The new error has no parameters
/// (`ValidationError::new` leaves them empty).
#[verifier::external_body]
fn add_outside_error(
    errors: &mut validator::ValidationErrors,
    field: &'static str,
    code: &'static str,
    message: Option<&'static str>,
)
    requires
        only_field_entries(*old(errors)),
        no_error_params(*old(errors)),
    ensures
        only_field_entries(*final(errors)),
        no_error_params(*final(errors)),
        outside_fields(*final(errors)) == with_error(
            outside_fields(*old(errors)),
            field@,
            (code@, message_view(message)),
        ),
{
    let mut e = validator::ValidationError::new(code);
    e.message = message.map(std::borrow::Cow::from);
    errors.add(field, e);
}

/// The text `validator::ValidationErrors` prints (its `Display`), for errors
/// whose entries are all of kind `Field` and carry no parameters (an error
/// without a message prints its parameters): one line per field. The crate
/// walks its fields in the order of a `HashMap`, which each process seeds
/// anew, so only that some order of the fields is used is stated.
#[verifier::external_body]
fn outside_errors_text(errors: &validator::ValidationErrors) -> (text: String)
    requires
        only_field_entries(*errors),
        no_error_params(*errors),
    ensures
        is_errors_text(outside_fields(*errors), text@),
{
    errors.to_string()
}

/// Renders violations the way `validator::ValidationErrors` prints them,
/// adding each violation in order: one line per field, with the field's
/// errors in order, the fields in some order.
pub fn render_violations(violations: &Vec<Violation>) -> (text: String)
    ensures
        is_errors_text(fields_of(violations@.map_values(|v: Violation| v@)), text@),
{
    let mut out = new_outside_errors();
    let mut i: usize = 0;
    while i < violations.len()
        invariant
            i <= violations@.len(),
            only_field_entries(out),
            no_error_params(out),
            outside_fields(out) == fields_of(violations@.subrange(0, i as int).map_values(|v: Violation| v@)),
        decreases violations.len() - i,
    {
        let v = violations[i];
        add_outside_error(&mut out, v.field, v.code, v.message);
        proof {
            let done = violations@.subrange(0, i as int).map_values(|w: Violation| w@);
            let next = violations@.subrange(0, i + 1).map_values(|w: Violation| w@);
            assert(next.drop_last() =~= done);
            assert(next.last() == v@);
        }
        i = i + 1;
    }
    proof {
        assert(violations@.subrange(0, violations@.len() as int) =~= violations@);
    }
    outside_errors_text(&out)
}

} // verus!
