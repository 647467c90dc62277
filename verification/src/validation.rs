//! The rules on the fields of a request. They are checked before anything is
//! asked of the store.

use vstd::prelude::*;
use vstd::string::*;
use crate::error::{field_errors_of, outcome, AppError, ErrorView, FieldError, FieldErrorView};
use crate::models::{
    CreateCommentRequest, CreateTagRequest, CreateTicketRequest, UpdateCommentRequest,
    UpdateTagRequest, UpdateTicketRequest,
};

verus! {

/// Whether a text has at least `min` and, where a bound is given, at most
/// `max` characters.
pub open spec fn length_within(text: Seq<char>, min: Option<u64>, max: Option<u64>) -> bool {
    &&& min matches Some(least) ==> least <= text.len()
    &&& max matches Some(most) ==> text.len() <= most
}

/// `validate_length` of `validator::ValidateLength`, on a text and without
/// its `equal` bound: whether the number of characters lies within the
/// bounds that are given.
#[verifier::external_body]
pub(crate) fn has_length(text: &str, min: Option<u64>, max: Option<u64>) -> (ok: bool)
    ensures
        ok == length_within(text@, min, max),
{
    validator::ValidateLength::validate_length(text, min, max, None)
}

/// Whether a character is a hexadecimal digit, in either case.
pub open spec fn is_hex_digit(c: char) -> bool {
    ('0' <= c <= '9') || ('a' <= c <= 'f') || ('A' <= c <= 'F')
}

/// Whether a text is a colour in hexadecimal form: `#` and six hexadecimal
/// digits.
pub open spec fn is_hex_color(text: Seq<char>) -> bool {
    &&& text.len() == 7
    &&& text[0] == '#'
    &&& forall|i: int| 1 <= i < 7 ==> is_hex_digit(#[trigger] text[i])
}

/// Checks that a text is a colour in hexadecimal form.
pub fn check_hex_color(text: &str) -> (ok: bool)
    ensures
        ok == is_hex_color(text@),
{
    if !has_length(text, Some(7), Some(7)) {
        return false;
    }
    if text.get_char(0) != '#' {
        return false;
    }
    let mut i: usize = 1;
    while i < 7
        invariant
            1 <= i <= 7,
            text@.len() == 7,
            text@[0] == '#',
            forall|j: int| 1 <= j < i ==> is_hex_digit(#[trigger] text@[j]),
        decreases 7 - i,
    {
        let c = text.get_char(i);
        let digit = ('0' <= c && c <= '9') || ('a' <= c && c <= 'f') || ('A' <= c && c <= 'F');
        if !digit {
            return false;
        }
        i = i + 1;
    }
    true
}

/// The rule on a tag's name: one to fifty characters.
pub open spec fn name_violations(name: Seq<char>) -> Seq<FieldErrorView> {
    if length_within(name, Some(1), Some(50)) {
        Seq::empty()
    } else {
        seq![FieldErrorView { field: "name"@, message: "标签名称长度必须在1-50个字符之间"@ }]
    }
}

/// The rule on a tag's colour: `#` and six hexadecimal digits.
pub open spec fn color_violations(color: Seq<char>) -> Seq<FieldErrorView> {
    if is_hex_color(color) {
        Seq::empty()
    } else {
        seq![FieldErrorView { field: "color"@, message: "颜色必须是7位HEX值"@ }]
    }
}

/// The rule on a ticket's title: one to 255 characters.
pub open spec fn title_violations(title: Seq<char>) -> Seq<FieldErrorView> {
    if length_within(title, Some(1), Some(255)) {
        Seq::empty()
    } else {
        seq![FieldErrorView { field: "title"@, message: "标题长度必须在1-255个字符之间"@ }]
    }
}

/// The rule on a comment's content: it is not empty.
pub open spec fn content_violations(content: Seq<char>) -> Seq<FieldErrorView> {
    if length_within(content, Some(1), None) {
        Seq::empty()
    } else {
        seq![FieldErrorView { field: "content"@, message: "评论内容不能为空"@ }]
    }
}

/// The violations of a rule on a field that may be absent: none when it is.
pub open spec fn when_present(
    value: Option<String>,
    rule: spec_fn(Seq<char>) -> Seq<FieldErrorView>,
) -> Seq<FieldErrorView> {
    match value {
        Some(text) => rule(text@),
        None => Seq::empty(),
    }
}

/// What validation comes to: nothing to report, or the list of violations.
pub open spec fn verdict(violations: Seq<FieldErrorView>) -> Result<(), ErrorView> {
    if violations.len() == 0 {
        Ok(())
    } else {
        Err(ErrorView::Validation(violations))
    }
}

fn note(ok: bool, field: &str, message: &str, errors: &mut Vec<FieldError>)
    ensures
        field_errors_of(final(errors)@) == field_errors_of(old(errors)@) + (if ok {
            Seq::<FieldErrorView>::empty()
        } else {
            seq![FieldErrorView { field: field@, message: message@ }]
        }),
{
    if !ok {
        errors.push(
            FieldError { field: String::from_str(field), message: String::from_str(message) },
        );
    }
    assert(field_errors_of(errors@) =~= field_errors_of(old(errors)@) + (if ok {
        Seq::<FieldErrorView>::empty()
    } else {
        seq![FieldErrorView { field: field@, message: message@ }]
    }));
}

fn check_name(name: &str, errors: &mut Vec<FieldError>)
    ensures
        field_errors_of(final(errors)@) == field_errors_of(old(errors)@) + name_violations(name@),
{
    note(has_length(name, Some(1), Some(50)), "name", "标签名称长度必须在1-50个字符之间", errors);
}

fn check_color(color: &str, errors: &mut Vec<FieldError>)
    ensures
        field_errors_of(final(errors)@) == field_errors_of(old(errors)@) + color_violations(
            color@,
        ),
{
    note(check_hex_color(color), "color", "颜色必须是7位HEX值", errors);
}

fn check_title(title: &str, errors: &mut Vec<FieldError>)
    ensures
        field_errors_of(final(errors)@) == field_errors_of(old(errors)@) + title_violations(
            title@,
        ),
{
    note(has_length(title, Some(1), Some(255)), "title", "标题长度必须在1-255个字符之间", errors);
}

fn check_content(content: &str, errors: &mut Vec<FieldError>)
    ensures
        field_errors_of(final(errors)@) == field_errors_of(old(errors)@) + content_violations(
            content@,
        ),
{
    note(has_length(content, Some(1), None), "content", "评论内容不能为空", errors);
}

fn conclude(errors: Vec<FieldError>) -> (result: Result<(), AppError>)
    ensures
        outcome(result) == verdict(field_errors_of(errors@)),
{
    if errors.len() == 0 {
        Ok(())
    } else {
        Err(AppError::Validation(errors))
    }
}

impl CreateTagRequest {
    pub open spec fn violations(self) -> Seq<FieldErrorView> {
        name_violations(self.name@) + when_present(self.color, |c: Seq<char>| color_violations(c))
    }

    /// Checks the name and, where one is given, the colour.
    pub fn validate(&self) -> (result: Result<(), AppError>)
        ensures
            outcome(result) == verdict(self.violations()),
    {
        let mut errors: Vec<FieldError> = Vec::new();
        assert(field_errors_of(errors@) =~= Seq::<FieldErrorView>::empty());
        check_name(self.name.as_str(), &mut errors);
        if let Some(color) = &self.color {
            check_color(color.as_str(), &mut errors);
        }
        assert(field_errors_of(errors@) =~= self.violations());
        conclude(errors)
    }
}

impl UpdateTagRequest {
    pub open spec fn violations(self) -> Seq<FieldErrorView> {
        when_present(self.name, |n: Seq<char>| name_violations(n)) + when_present(
            self.color,
            |c: Seq<char>| color_violations(c),
        )
    }

    /// Checks the fields that are given.
    pub fn validate(&self) -> (result: Result<(), AppError>)
        ensures
            outcome(result) == verdict(self.violations()),
    {
        let mut errors: Vec<FieldError> = Vec::new();
        assert(field_errors_of(errors@) =~= Seq::<FieldErrorView>::empty());
        if let Some(name) = &self.name {
            check_name(name.as_str(), &mut errors);
        }
        if let Some(color) = &self.color {
            check_color(color.as_str(), &mut errors);
        }
        assert(field_errors_of(errors@) =~= self.violations());
        conclude(errors)
    }
}

impl CreateTicketRequest {
    pub open spec fn violations(self) -> Seq<FieldErrorView> {
        title_violations(self.title@)
    }

    /// Checks the title.
    pub fn validate(&self) -> (result: Result<(), AppError>)
        ensures
            outcome(result) == verdict(self.violations()),
    {
        let mut errors: Vec<FieldError> = Vec::new();
        assert(field_errors_of(errors@) =~= Seq::<FieldErrorView>::empty());
        check_title(self.title.as_str(), &mut errors);
        assert(field_errors_of(errors@) =~= self.violations());
        conclude(errors)
    }
}

impl UpdateTicketRequest {
    pub open spec fn violations(self) -> Seq<FieldErrorView> {
        when_present(self.title, |t: Seq<char>| title_violations(t))
    }

    /// Checks the title, where one is given.
    pub fn validate(&self) -> (result: Result<(), AppError>)
        ensures
            outcome(result) == verdict(self.violations()),
    {
        let mut errors: Vec<FieldError> = Vec::new();
        assert(field_errors_of(errors@) =~= Seq::<FieldErrorView>::empty());
        if let Some(title) = &self.title {
            check_title(title.as_str(), &mut errors);
        }
        assert(field_errors_of(errors@) =~= self.violations());
        conclude(errors)
    }
}

impl CreateCommentRequest {
    pub open spec fn violations(self) -> Seq<FieldErrorView> {
        content_violations(self.content@)
    }

    /// Checks that the content is not empty.
    pub fn validate(&self) -> (result: Result<(), AppError>)
        ensures
            outcome(result) == verdict(self.violations()),
    {
        let mut errors: Vec<FieldError> = Vec::new();
        assert(field_errors_of(errors@) =~= Seq::<FieldErrorView>::empty());
        check_content(self.content.as_str(), &mut errors);
        assert(field_errors_of(errors@) =~= self.violations());
        conclude(errors)
    }
}

impl UpdateCommentRequest {
    pub open spec fn violations(self) -> Seq<FieldErrorView> {
        content_violations(self.content@)
    }

    /// Checks that the content is not empty.
    pub fn validate(&self) -> (result: Result<(), AppError>)
        ensures
            outcome(result) == verdict(self.violations()),
    {
        let mut errors: Vec<FieldError> = Vec::new();
        assert(field_errors_of(errors@) =~= Seq::<FieldErrorView>::empty());
        check_content(self.content.as_str(), &mut errors);
        assert(field_errors_of(errors@) =~= self.violations());
        conclude(errors)
    }
}

} // verus!
