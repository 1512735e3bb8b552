//! Multipart forms: the parts that the library has put together, handed to
//! the transport's own form type.

use vstd::prelude::*;
use reqwest::multipart::Form;
use crate::http::FormPart;

verus! {

#[verifier::external_type_specification]
#[verifier::external_body]
pub struct ExForm(reqwest::multipart::Form);

/// The fields of a form in the order in which they will be sent: the name
/// of each and the bytes of its content.
pub uninterp spec fn form_fields(form: Form) -> Seq<(Seq<char>, Seq<u8>)>;

/// `Form::new`: a form without fields. (Each form draws a boundary of its
/// own, of which nothing is said here.)
#[verifier::external_body]
fn empty_form() -> (form: Form)
    ensures
        form_fields(form) == Seq::<(Seq<char>, Seq<u8>)>::empty(),
{
    Form::new()
}

/// `Form::part` with a part made by `Part::bytes`: one more field at the
/// end, with this name and these bytes; the fields before it stay.
#[verifier::external_body]
fn with_field(form: Form, name: String, content: Vec<u8>) -> (extended: Form)
    ensures
        form_fields(extended) == form_fields(form).push((name@, content@)),
{
    form.part(name, reqwest::multipart::Part::bytes(content))
}

/// Turns the parts of a request into a form for the transport: one field for
/// each part, in the same order.
pub fn multipart_form(parts: Vec<FormPart>) -> (form: Form)
    ensures
        form_fields(form) == parts.deep_view(),
{
    let ghost all = parts.deep_view();
    let ghost items = parts@;
    let mut form = empty_form();
    for part in iter: parts
        invariant
            iter.seq() == items,
            all.len() == items.len(),
            forall|j: int| 0 <= j < items.len() ==> all[j] == items[j].deep_view(),
            form_fields(form) == all.subrange(0, iter.index()),
    {
        form = with_field(form, part.name, part.content);
    }
    form
}

} // verus!
