use vstd::prelude::*;

verus! {

/// Uniform reply carried back to the host: a status code, an optional payload and a message.
pub struct Response<T> {
    pub code: i32,
    pub data: Option<T>,
    pub msg: String,
}

/// Status code of a successful reply.
pub const SUCCESS_CODE: i32 = 0;

/// Status code of a failed reply.
pub const ERROR_CODE: i32 = -1;

impl<T> Response<T> {
    /// A reply with an explicit status code.
    pub fn new(code: i32, data: Option<T>, msg: &str) -> (r: Self)
        ensures
            r.code == code,
            r.data == data,
            r.msg@ == msg@,
    {
        Response { code, data, msg: msg.to_owned() }
    }

    /// A successful reply carrying `data` and the message "success".
    pub fn success(data: T) -> (r: Self)
        ensures
            r.code == SUCCESS_CODE,
            r.data == Some(data),
            r.msg@ == "success"@,
    {
        Self::new(SUCCESS_CODE, Some(data), "success")
    }

    /// A failed reply carrying no payload and the given message.
    pub fn error(msg: &str) -> (r: Self)
        ensures
            r.code == ERROR_CODE,
            r.data.is_none(),
            r.msg@ == msg@,
    {
        Self::new(ERROR_CODE, None, msg)
    }

    /// The reply for an outcome: a success carrying the value, or a failure carrying
    /// the error's text.
    pub fn from_result(result: Result<T, String>) -> (r: Self)
        ensures
            match result {
                Ok(v) => r.code == SUCCESS_CODE && r.data == Some(v) && r.msg@ == "success"@,
                Err(e) => r.code == ERROR_CODE && r.data.is_none() && r.msg@ == e@,
            },
    {
        match result {
            Ok(v) => Self::success(v),
            Err(e) => Self::error(e.as_str()),
        }
    }
}

} // verus!
