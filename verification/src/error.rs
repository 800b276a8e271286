//! The unified error taxonomy: transport, HTTP-protocol and application-level
//! failures classified into one closed set of variants, generic over the
//! transport's own error type.

use serde_json::Error as JsonError;
use vstd::prelude::*;

verus! {

/// Declares `serde_json::Error`, the JSON decoder's native error type; values
/// of it are carried through the taxonomy opaquely, never inspected.
#[verifier::external_type_specification]
#[verifier::external_body]
pub struct ExSerdeJsonError(JsonError);

/// Declares `quick_xml::DeError`, the XML decoder's native error type; values
/// of it are carried through the taxonomy opaquely, never inspected.
#[verifier::external_type_specification]
#[verifier::external_body]
pub struct ExQuickXmlDeError(quick_xml::DeError);

/// The wire-level shape of a server-reported application error: a numeric
/// `code` field and an optional human-readable `message` field (camelCase on
/// the wire; the serde attributes live on the unverified mirror of this type).
#[derive(Debug, Clone, PartialEq, Eq)]
pub struct RawJsonApiError {
    pub code: u32,
    pub message: Option<String>,
}

/// A server-reported application error, classified from its raw numeric code
/// into a semantic category. A code without a dedicated category is preserved
/// whole, message included, in `OtherError`.
#[derive(Debug, Clone, PartialEq, Eq)]
pub enum ApiError {
    InvalidParameter,
    AccessForbidden,
    UnsupportedHttpMethod,
    UnsupportedApiVersion,
    UnsupportedApiMethod,
    InvalidJsonFormat,
    RequiredParameterIsMissing,
    InternalError,
    OtherError(Box<RawJsonApiError>),
}

/// The documented mapping from a raw numeric code to its semantic category;
/// an unrecognized code is kept, with its message, in `OtherError`.
pub open spec fn classify(e: RawJsonApiError) -> ApiError {
    if e.code == 1000 {
        ApiError::InvalidParameter
    } else if e.code == 2001 {
        ApiError::AccessForbidden
    } else if e.code == 2002 {
        ApiError::UnsupportedHttpMethod
    } else if e.code == 2003 {
        ApiError::UnsupportedApiVersion
    } else if e.code == 2004 {
        ApiError::UnsupportedApiMethod
    } else if e.code == 4000 {
        ApiError::InvalidJsonFormat
    } else if e.code == 4002 {
        ApiError::RequiredParameterIsMissing
    } else if e.code == 8000 {
        ApiError::InternalError
    } else {
        ApiError::OtherError(Box::new(e))
    }
}

impl From<RawJsonApiError> for ApiError {
    fn from(e: RawJsonApiError) -> (r: ApiError) {
        match e.code {
            1000 => ApiError::InvalidParameter,
            2001 => ApiError::AccessForbidden,
            2002 => ApiError::UnsupportedHttpMethod,
            2003 => ApiError::UnsupportedApiVersion,
            2004 => ApiError::UnsupportedApiMethod,
            4000 => ApiError::InvalidJsonFormat,
            4002 => ApiError::RequiredParameterIsMissing,
            8000 => ApiError::InternalError,
            _ => ApiError::OtherError(Box::new(e)),
        }
    }
}

impl vstd::std_specs::convert::FromSpecImpl<RawJsonApiError> for ApiError {
    open spec fn obeys_from_spec() -> bool {
        true
    }

    open spec fn from_spec(e: RawJsonApiError) -> ApiError {
        classify(e)
    }
}

/// Which structured-decoding format failed on a response body whose declared
/// content type was recognized: JSON or XML, each with the decoder's own
/// error detail.
#[derive(Debug)]
pub enum UnparseableResponseError {
    /// JSON deserialization failed.
    JsonDeError(JsonError),
    /// XML deserialization failed.
    XmlDeError(quick_xml::DeError),
}

/// The unified error type, parameterized by the transport error type `TE`.
/// Exactly one variant is active per value; a consumer matching on all seven
/// handles every failure this layer can produce.
#[derive(Debug)]
pub enum Error<TE> {
    /// An error from the transport, wrapped unchanged.
    TransportError(TE),
    /// An HTTP request returned a status code indicating failure; the literal
    /// code is carried, uncategorized.
    BadStatusCodeError(u16),
    /// An HTTP request returned an unexpected content type; the header value
    /// is carried if it was present at all.
    BadContentTypeError(Option<String>),
    /// An HTTP request returned a response which could not be parsed.
    UnparseableResponseError(UnparseableResponseError),
    /// The API call returned a structured error.
    ApiError(ApiError),
    /// The device does not support this feature.
    UnsupportedFeature,
    /// An error which isn't yet properly itemized; the description is a fixed
    /// string, never runtime-computed detail.
    Other(&'static str),
}

impl<TE> From<JsonError> for Error<TE> {
    fn from(e: JsonError) -> (r: Self) {
        Error::UnparseableResponseError(UnparseableResponseError::JsonDeError(e))
    }
}

impl<TE> vstd::std_specs::convert::FromSpecImpl<JsonError> for Error<TE> {
    open spec fn obeys_from_spec() -> bool {
        true
    }

    open spec fn from_spec(e: JsonError) -> Self {
        Error::UnparseableResponseError(UnparseableResponseError::JsonDeError(e))
    }
}

impl<TE> From<quick_xml::DeError> for Error<TE> {
    fn from(e: quick_xml::DeError) -> (r: Self) {
        Error::UnparseableResponseError(UnparseableResponseError::XmlDeError(e))
    }
}

impl<TE> vstd::std_specs::convert::FromSpecImpl<quick_xml::DeError> for Error<TE> {
    open spec fn obeys_from_spec() -> bool {
        true
    }

    open spec fn from_spec(e: quick_xml::DeError) -> Self {
        Error::UnparseableResponseError(UnparseableResponseError::XmlDeError(e))
    }
}

impl<TE> From<ApiError> for Error<TE> {
    fn from(e: ApiError) -> (r: Self) {
        Error::ApiError(e)
    }
}

impl<TE> vstd::std_specs::convert::FromSpecImpl<ApiError> for Error<TE> {
    open spec fn obeys_from_spec() -> bool {
        true
    }

    open spec fn from_spec(e: ApiError) -> Self {
        Error::ApiError(e)
    }
}

impl<TE> From<RawJsonApiError> for Error<TE> {
    fn from(e: RawJsonApiError) -> (r: Self) {
        Error::ApiError(ApiError::from(e))
    }
}

impl<TE> vstd::std_specs::convert::FromSpecImpl<RawJsonApiError> for Error<TE> {
    open spec fn obeys_from_spec() -> bool {
        true
    }

    open spec fn from_spec(e: RawJsonApiError) -> Self {
        Error::ApiError(classify(e))
    }
}

/// The 404-normalization rule on a whole result value: a `BadStatusCodeError`
/// with code exactly 404 becomes `UnsupportedFeature`; every other value,
/// `Ok` or `Err`, passes through unchanged.
pub open spec fn normalize_404<T, TE>(r: Result<T, Error<TE>>) -> Result<T, Error<TE>> {
    match r {
        Err(Error::BadStatusCodeError(code)) => if code == 404 {
            Err(Error::UnsupportedFeature)
        } else {
            r
        },
        _ => r,
    }
}

/// Reinterprets an HTTP 404 failure as "this device does not support that
/// feature". An explicit, opt-in step: no other status code is touched.
pub fn map_404_to_unsupported_feature<T, TE>(r: Result<T, Error<TE>>) -> (out: Result<
    T,
    Error<TE>,
>)
    ensures
        out == normalize_404(r),
{
    match r {
        Err(Error::BadStatusCodeError(code)) => {
            if code == 404 {
                Err(Error::UnsupportedFeature)
            } else {
                Err(Error::BadStatusCodeError(code))
            }
        },
        other => other,
    }
}

/// The 404 normalization leaves every result alone except a bad-status error
/// with code exactly 404, which it rewrites to `UnsupportedFeature`; applying
/// it twice equals applying it once.
pub proof fn lemma_normalize_404_properties<T, TE>(r: Result<T, Error<TE>>)
    ensures
        forall|code: u16|
            code != 404 ==> normalize_404(Err::<T, Error<TE>>(Error::BadStatusCodeError(code)))
                == Err::<T, Error<TE>>(Error::BadStatusCodeError(code)),
        !(r matches Err(Error::BadStatusCodeError(c)) && c == 404) ==> normalize_404(r) == r,
        normalize_404(Err::<T, Error<TE>>(Error::BadStatusCodeError(404))) == Err::<
            T,
            Error<TE>,
        >(Error::UnsupportedFeature),
        normalize_404(normalize_404(r)) == normalize_404(r),
{
}

} // verus!
