//! Multipart forms, built through `reqwest`.
//!
//! A form is `reqwest`'s own value. What it holds is named by
//! [`form_fields`]; the functions here say what each of `reqwest`'s builders
//! does to that sequence, and the rest of the crate proves which fields a
//! request puts on the wire, and in which order, from these statements.

use vstd::prelude::*;
use vstd::utf8::encode_utf8;

verus! {

#[verifier::external_type_specification]
#[verifier::external_body]
pub struct ExForm(reqwest::multipart::Form);

#[verifier::external_type_specification]
#[verifier::external_body]
pub struct ExPart(reqwest::multipart::Part);

/// A part of a form: the bytes it carries, and the file name it announces.
/// A part made of a text carries the text's bytes; nothing in a part tells
/// it from one made of those bytes.
pub struct PartView {
    pub body: Seq<u8>,
    pub file_name: Option<Seq<char>>,
}

/// The fields of a form, each a name and a part, in the order in which they
/// were added, which is the order in which they are sent.
pub uninterp spec fn form_fields(form: reqwest::multipart::Form) -> Seq<(Seq<char>, PartView)>;

/// What a part holds.
pub uninterp spec fn part_view(part: reqwest::multipart::Part) -> PartView;

/// A text field: a part without a file name that carries the bytes of
/// `value`.
pub open spec fn text_field(name: Seq<char>, value: Seq<char>) -> (Seq<char>, PartView) {
    (name, PartView { body: encode_utf8(value), file_name: None })
}

/// A field that uploads `content` under `file_name`.
pub open spec fn file_field(name: Seq<char>, content: Seq<u8>, file_name: Seq<char>) -> (
    Seq<char>,
    PartView,
) {
    (name, PartView { body: content, file_name: Some(file_name) })
}

/// `reqwest::multipart::Form::new`: a form without fields.
#[verifier::external_body]
pub(crate) fn new_form() -> (form: reqwest::multipart::Form)
    ensures
        form_fields(form) == Seq::<(Seq<char>, PartView)>::empty(),
{
    reqwest::multipart::Form::new()
}

/// `reqwest::multipart::Form::text`: appends a part without a file name that
/// carries the bytes of `value` under `name`, after the fields that are
/// there.
#[verifier::external_body]
pub(crate) fn add_text(form: reqwest::multipart::Form, name: &str, value: &str) -> (out:
    reqwest::multipart::Form)
    ensures
        form_fields(out) == form_fields(form).push(text_field(name@, value@)),
{
    form.text(name.to_owned(), value.to_owned())
}

/// `reqwest::multipart::Part::bytes`: a part that carries `content` and has
/// no file name.
#[verifier::external_body]
pub(crate) fn bytes_part(content: Vec<u8>) -> (part: reqwest::multipart::Part)
    ensures
        part_view(part) == (PartView { body: content@, file_name: None }),
{
    reqwest::multipart::Part::bytes(content)
}

/// `reqwest::multipart::Part::file_name`: sets the file name and leaves what
/// the part carries.
#[verifier::external_body]
pub(crate) fn with_file_name(part: reqwest::multipart::Part, file_name: String) -> (out:
    reqwest::multipart::Part)
    ensures
        part_view(out) == (PartView {
            body: part_view(part).body,
            file_name: Some(file_name@),
        }),
{
    part.file_name(file_name)
}

/// `reqwest::multipart::Form::part`: appends `part` under `name`, after the
/// fields that are there.
#[verifier::external_body]
pub(crate) fn add_part(
    form: reqwest::multipart::Form,
    name: &str,
    part: reqwest::multipart::Part,
) -> (out: reqwest::multipart::Form)
    ensures
        form_fields(out) == form_fields(form).push((name@, part_view(part))),
{
    form.part(name.to_owned(), part)
}

} // verus!
