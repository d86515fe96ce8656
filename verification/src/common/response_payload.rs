use vstd::prelude::*;

verus! {

/// The empty `data` member of a payload that carries no data.
pub struct ResponseEmptyData;

/// The JSON envelope of every answer of the service:
/// `error` is 0 on success and the error code otherwise.
pub struct ResponsePayload<Data> {
    pub error: u64,
    pub message: String,
    pub data: Data,
}

impl ResponsePayload<ResponseEmptyData> {
    /// A payload that reports the error `error` with `message` and no data.
    pub fn error(error: u64, message: String) -> (res: Self)
        ensures
            res.error == error,
            res.message@ == message@,
    {
        ResponsePayload { error, message, data: ResponseEmptyData }
    }

    /// A successful payload (error 0) with `message` and no data.
    pub fn succes_and_empty(message: String) -> (res: Self)
        ensures
            res.error == 0,
            res.message@ == message@,
    {
        ResponsePayload { error: 0, message, data: ResponseEmptyData }
    }
}

impl<Data> ResponsePayload<Data> {
    /// A successful payload (error 0) with `message` that carries `data`.
    pub fn succes(message: String, data: Data) -> (res: Self)
        ensures
            res.error == 0,
            res.message@ == message@,
            res.data == data,
    {
        ResponsePayload { error: 0, message, data }
    }
}

} // verus!
