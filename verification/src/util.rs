//! The first form of parameter access: errors carry a description only.
use vstd::prelude::*;
use crate::params::{lookup, FromParam, ParamValue, Params};

verus! {

/// An error with a description only.
#[derive(Debug)]
pub struct ApiError {
    pub desc: String,
}

impl ApiError {
    pub fn new(msg: &'static str) -> (r: ApiError)
        ensures
            r.desc@ == msg@,
    {
        ApiError { desc: String::from_str(msg) }
    }

    /// The description of the error.
    pub fn description(&self) -> (r: &str)
        ensures
            r@ == self.desc@,
    {
        self.desc.as_str()
    }
}

/// The parameters of a request, read by name and type.
pub struct SmartParam<'a> {
    pub param: &'a Params,
}

impl<'a> SmartParam<'a> {
    /// Reads the parameter named `key` as a `T`: "Not there" where the
    /// request has no such parameter, "Not parse" where its text does not
    /// read as a `T`.
    pub fn get<T: FromParam>(&self, key: &str) -> (r: Result<T, ApiError>)
        requires
            lookup(self.param@, key@) != Some(None::<Seq<char>>),
        ensures
            match lookup(self.param@, key@) {
                None => r matches Err(e) && e.desc@ == "Not there"@,
                Some(Some(text)) => match T::parse_spec(text) {
                    Some(v) => r matches Ok(x) && x@ == v,
                    None => r matches Err(e) && e.desc@ == "Not parse"@,
                },
                Some(None) => false,
            },
    {
        match self.param.get(key) {
            Some(ParamValue::Text(s)) => match T::from_param(s.as_str()) {
                Some(v) => Ok(v),
                None => Err(ApiError::new("Not parse")),
            },
            Some(ParamValue::Other) => {
                proof { assert(false); }
                Err(ApiError::new("Not there"))
            },
            None => Err(ApiError::new("Not there")),
        }
    }
}

} // verus!
