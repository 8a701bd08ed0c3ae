//! The response logic of the web example: greeting, error and success bodies.

use vstd::prelude::*;
use vstd::string::StringExecFns;

verus! {

/// The status given to a query that names none.
pub fn default_status() -> (s: Option<i8>)
    ensures
        s == Some(2i8),
{
    Some(2)
}

/// The greeting returned by the `hello` endpoint.
pub struct HelloResponse {
    /// `Hello, {name}!`
    pub message: String,
    /// The greeted name.
    pub name: String,
    /// The age reported back.
    pub age: u64,
}

/// Builds the greeting for `name`.
pub fn build_hello_response(name: String, age: u64) -> (r: HelloResponse)
    ensures
        r.message@ == "Hello, "@ + name@ + "!"@,
        r.name@ == name@,
        r.age == age,
{
    let mut message = String::from_str("Hello, ");
    message.append(name.as_str());
    message.append("!");
    HelloResponse { message, name, age }
}

/// The body of every response: a code (0 for success), a message and data.
pub struct BaseResponse<T> {
    /// 0 for success, 1 for an error.
    pub code: i32,
    /// `SUCCESS`, or the error's message.
    pub msg: String,
    /// The payload.
    pub data: Option<T>,
}

/// An error of the web example.
#[derive(Clone, Copy, Debug)]
pub enum AppError {
    /// An internal error, with its description.
    InternalError(&'static str),
}

/// How an error is displayed: `内部异常: {description}`.
pub open spec fn app_error_text(e: AppError) -> Seq<char> {
    match e {
        AppError::InternalError(d) => "内部异常: "@ + d@,
    }
}

impl AppError {
    /// The error's message.
    pub fn message(&self) -> (s: String)
        ensures
            s@ == app_error_text(*self),
    {
        match self {
            AppError::InternalError(d) => {
                let mut s = String::from_str("内部异常: ");
                s.append(d);
                s
            },
        }
    }

    /// The HTTP status of the error's response: 500.
    pub fn status_code(&self) -> (code: u16)
        ensures
            code == 500,
    {
        500
    }

    /// The body of the error's response: code 1, the error's message, and the
    /// data `None` as text.
    pub fn error_response(&self) -> (r: BaseResponse<String>)
        ensures
            r.code == 1,
            r.msg@ == app_error_text(*self),
            r.data matches Some(d) && d@ == "None"@,
    {
        BaseResponse { msg: self.message(), code: 1, data: Some(String::from_str("None")) }
    }
}

/// The successful body carrying `data`: code 0 and message `SUCCESS`.
pub fn ok_result_data<T>(data: T) -> (r: Result<BaseResponse<T>, AppError>)
    ensures
        r matches Ok(b) && b.code == 0 && b.msg@ == "SUCCESS"@ && b.data == Some(data),
{
    Ok(BaseResponse { msg: String::from_str("SUCCESS"), code: 0, data: Some(data) })
}

} // verus!
