use vstd::prelude::*;
use vstd::string::*;

verus! {

/// The envelope around every reply: a status word, a message and, on
/// success, a payload.
#[derive(Clone, Debug)]
pub struct ApiResponse<T> {
    pub status: String,
    pub message: String,
    pub data: Option<T>,
}

impl<T> ApiResponse<T> {
    pub fn success(message: &str, data: Option<T>) -> (r: Self)
        ensures
            r.status@ == "success"@,
            r.message@ == message@,
            r.data == data,
    {
        ApiResponse { status: String::from_str("success"), message: String::from_str(message), data }
    }

    pub fn error(message: &str) -> (r: Self)
        ensures
            r.status@ == "error"@,
            r.message@ == message@,
            r.data.is_none(),
    {
        ApiResponse { status: String::from_str("error"), message: String::from_str(message), data: None }
    }
}

} // verus!
