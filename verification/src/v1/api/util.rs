//! Typed access to the parameters of a request.
use vstd::prelude::*;
use crate::params::{lookup, FromParam, Params};
use crate::v1::{ApiError, ApiErrorView, StatusCode};

verus! {

/// The error for a parameter that the request does not carry.
pub open spec fn missing_param_error(key: Seq<char>) -> ApiErrorView {
    ApiErrorView {
        status: StatusCode::BadRequest,
        desc: "Missing Parameter '"@ + key + "'"@,
        details: None,
    }
}

/// The error for a parameter whose text does not read as the wanted type.
pub open spec fn unparsable_param_error(key: Seq<char>, ty: Seq<char>, text: Seq<char>) -> ApiErrorView {
    ApiErrorView {
        status: StatusCode::BadRequest,
        desc: "Parameter '"@ + key + "' cannot be parsed as '"@ + ty + "'"@,
        details: Some("value: '"@ + text + "'"@),
    }
}

/// The parameters of a request, read by name and type.
pub struct LazyParam<'a> {
    pub param: &'a Params,
}

impl<'a> LazyParam<'a> {
    /// Reads the parameter named `key` as a `T`.
    pub fn get<T: FromParam>(&self, key: &str) -> (r: Result<T, ApiError>)
        requires
            lookup(self.param@, key@) != Some(None::<Seq<char>>),
        ensures
            match lookup(self.param@, key@) {
                None => r matches Err(e) && e@ == missing_param_error(key@),
                Some(Some(text)) => match T::parse_spec(text) {
                    Some(v) => r matches Ok(x) && x@ == v,
                    None => r matches Err(e) && e@ == unparsable_param_error(
                        key@,
                        T::type_label_spec(),
                        text,
                    ),
                },
                Some(None) => false,
            },
    {
        let text: &String = match self.param.get(key) {
            Some(crate::params::ParamValue::Text(s)) => s,
            Some(crate::params::ParamValue::Other) => {
                proof { assert(false); }
                return Err(ApiError::new(StatusCode::BadRequest, String::new()));
            },
            None => {
                let mut desc = String::from_str("Missing Parameter '");
                desc.append(key);
                desc.append("'");
                return Err(ApiError::new(StatusCode::BadRequest, desc));
            },
        };
        match T::from_param(text.as_str()) {
            Some(v) => Ok(v),
            None => {
                let mut desc = String::from_str("Parameter '");
                desc.append(key);
                desc.append("' cannot be parsed as '");
                desc.append(T::type_label());
                desc.append("'");
                let mut details = String::from_str("value: '");
                details.append(text.as_str());
                details.append("'");
                Err(ApiError::detailed(StatusCode::BadRequest, desc, details))
            },
        }
    }
}

} // verus!
