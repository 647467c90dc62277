//! The kinds of failure, the status each is answered with, and the message
//! that may be shown to a caller.

use vstd::prelude::*;
use vstd::string::*;

verus! {

/// One rule that a field of a request broke.
#[derive(Debug, Clone, PartialEq, Eq)]
pub struct FieldError {
    pub field: String,
    pub message: String,
}

/// A broken rule with its texts as sequences of characters.
pub struct FieldErrorView {
    pub field: Seq<char>,
    pub message: Seq<char>,
}

impl View for FieldError {
    type V = FieldErrorView;

    open spec fn view(&self) -> FieldErrorView {
        FieldErrorView { field: self.field@, message: self.message@ }
    }
}

/// The views of a sequence of field errors.
pub open spec fn field_errors_of(errors: Seq<FieldError>) -> Seq<FieldErrorView> {
    errors.map_values(|e: FieldError| e@)
}

/// A failure of the service, by kind.
#[derive(Debug, Clone, PartialEq, Eq)]
pub enum AppError {
    /// The store failed; the text is the store's own detail and is never shown.
    Database(String),
    /// A request broke the rules on its fields.
    Validation(Vec<FieldError>),
    NotFound(String),
    Conflict(String),
    BadRequest(String),
    Internal(String),
}

/// A failure with its texts as sequences of characters.
pub enum ErrorView {
    Database(Seq<char>),
    Validation(Seq<FieldErrorView>),
    NotFound(Seq<char>),
    Conflict(Seq<char>),
    BadRequest(Seq<char>),
    Internal(Seq<char>),
}

impl View for AppError {
    type V = ErrorView;

    open spec fn view(&self) -> ErrorView {
        match *self {
            AppError::Database(detail) => ErrorView::Database(detail@),
            AppError::Validation(errors) => ErrorView::Validation(field_errors_of(errors@)),
            AppError::NotFound(message) => ErrorView::NotFound(message@),
            AppError::Conflict(message) => ErrorView::Conflict(message@),
            AppError::BadRequest(message) => ErrorView::BadRequest(message@),
            AppError::Internal(message) => ErrorView::Internal(message@),
        }
    }
}

/// A result with its failure seen as a view.
pub open spec fn outcome<T>(result: Result<T, AppError>) -> Result<T, ErrorView> {
    match result {
        Ok(value) => Ok(value),
        Err(error) => Err(error@),
    }
}

/// The lines of a list of field errors: `field: message`, one line each.
pub open spec fn field_lines(errors: Seq<FieldErrorView>) -> Seq<char>
    decreases errors.len(),
{
    if errors.len() == 0 {
        Seq::empty()
    } else if errors.len() == 1 {
        errors[0].field + ": "@ + errors[0].message
    } else {
        field_lines(errors.drop_last()) + "\n"@ + errors.last().field + ": "@
            + errors.last().message
    }
}

impl ErrorView {
    /// The status a failure is answered with.
    pub open spec fn status_code(self) -> u16 {
        match self {
            ErrorView::Database(_) => 500,
            ErrorView::Validation(_) => 400,
            ErrorView::NotFound(_) => 404,
            ErrorView::Conflict(_) => 409,
            ErrorView::BadRequest(_) => 400,
            ErrorView::Internal(_) => 500,
        }
    }

    /// The message shown to the caller. A failure of the store or of the
    /// service itself is answered with a fixed sentence: its detail stays
    /// inside.
    pub open spec fn response_message(self) -> Seq<char> {
        match self {
            ErrorView::Database(_) => "数据库操作失败"@,
            ErrorView::Validation(_) => "输入数据验证失败"@,
            ErrorView::NotFound(message) => message,
            ErrorView::Conflict(message) => message,
            ErrorView::BadRequest(message) => message,
            ErrorView::Internal(_) => "内部服务器错误"@,
        }
    }

    /// The full description of a failure, for logs and reports.
    pub open spec fn description(self) -> Seq<char> {
        match self {
            ErrorView::Database(detail) => "数据库错误: "@ + detail,
            ErrorView::Validation(errors) => "验证错误: "@ + field_lines(errors),
            ErrorView::NotFound(message) => "未找到资源: "@ + message,
            ErrorView::Conflict(message) => "已存在: "@ + message,
            ErrorView::BadRequest(message) => "无效请求: "@ + message,
            ErrorView::Internal(message) => "内部服务器错误: "@ + message,
        }
    }
}

impl AppError {
    /// A resource that is not there.
    pub fn not_found(resource: &str) -> (error: AppError)
        ensures
            error@ == ErrorView::NotFound(resource@ + "未找到"@),
    {
        let mut message = String::from_str(resource);
        message.append("未找到");
        AppError::NotFound(message)
    }

    /// A resource that is there already.
    pub fn conflict(resource: &str) -> (error: AppError)
        ensures
            error@ == ErrorView::Conflict(resource@ + "已存在"@),
    {
        let mut message = String::from_str(resource);
        message.append("已存在");
        AppError::Conflict(message)
    }

    /// A request that is malformed.
    pub fn bad_request(message: &str) -> (error: AppError)
        ensures
            error@ == ErrorView::BadRequest(message@),
    {
        AppError::BadRequest(String::from_str(message))
    }

    /// A failure inside the service.
    pub fn internal(message: &str) -> (error: AppError)
        ensures
            error@ == ErrorView::Internal(message@),
    {
        AppError::Internal(String::from_str(message))
    }

    /// The status a failure is answered with.
    pub fn status_code(&self) -> (code: u16)
        ensures
            code == self@.status_code(),
    {
        match self {
            AppError::Database(_) => 500,
            AppError::Validation(_) => 400,
            AppError::NotFound(_) => 404,
            AppError::Conflict(_) => 409,
            AppError::BadRequest(_) => 400,
            AppError::Internal(_) => 500,
        }
    }

    /// The message shown to the caller.
    pub fn response_message(&self) -> (message: String)
        ensures
            message@ == self@.response_message(),
    {
        match self {
            AppError::Database(_) => String::from_str("数据库操作失败"),
            AppError::Validation(_) => String::from_str("输入数据验证失败"),
            AppError::NotFound(message) => message.clone(),
            AppError::Conflict(message) => message.clone(),
            AppError::BadRequest(message) => message.clone(),
            AppError::Internal(_) => String::from_str("内部服务器错误"),
        }
    }

    /// The full description of a failure, for logs and reports.
    pub fn description(&self) -> (text: String)
        ensures
            text@ == self@.description(),
    {
        match self {
            AppError::Database(detail) => {
                let mut text = String::from_str("数据库错误: ");
                text.append(detail.as_str());
                text
            },
            AppError::Validation(errors) => {
                let mut text = String::from_str("验证错误: ");
                text.append(describe_fields(errors).as_str());
                text
            },
            AppError::NotFound(message) => {
                let mut text = String::from_str("未找到资源: ");
                text.append(message.as_str());
                text
            },
            AppError::Conflict(message) => {
                let mut text = String::from_str("已存在: ");
                text.append(message.as_str());
                text
            },
            AppError::BadRequest(message) => {
                let mut text = String::from_str("无效请求: ");
                text.append(message.as_str());
                text
            },
            AppError::Internal(message) => {
                let mut text = String::from_str("内部服务器错误: ");
                text.append(message.as_str());
                text
            },
        }
    }
}

/// Writes a list of field errors as lines.
pub fn describe_fields(errors: &Vec<FieldError>) -> (text: String)
    ensures
        text@ == field_lines(field_errors_of(errors@)),
{
    let mut text = String::new();
    let mut i: usize = 0;
    let ghost all = field_errors_of(errors@);
    while i < errors.len()
        invariant
            i <= errors.len(),
            all == field_errors_of(errors@),
            text@ == field_lines(all.subrange(0, i as int)),
        decreases errors.len() - i,
    {
        let ghost upto = all.subrange(0, i + 1);
        assert(upto.drop_last() =~= all.subrange(0, i as int));
        assert(upto.last() == errors[i as int]@);
        if i > 0 {
            text.append("\n");
        }
        text.append(errors[i].field.as_str());
        text.append(": ");
        text.append(errors[i].message.as_str());
        assert(text@ =~= field_lines(upto));
        i = i + 1;
    }
    assert(all.subrange(0, errors.len() as int) =~= all);
    text
}

} // verus!
