//! A response envelope paired with the format it is to be sent in.

use vstd::prelude::*;
use crate::format::ResponseFormat;
use crate::models::response::common::{SubsonicResponse, is_ok_response, is_failed_response};

verus! {

/// A Subsonic response and the format (JSON or XML) it is sent in.
pub struct ApiResponse<T> {
    data: SubsonicResponse<T>,
    format: ResponseFormat,
}

impl<T> ApiResponse<T> {
    /// The envelope to send.
    pub closed spec fn data_spec(&self) -> SubsonicResponse<T> {
        self.data
    }

    /// The format to send it in.
    pub closed spec fn format_spec(&self) -> ResponseFormat {
        self.format
    }

    /// Pairs an envelope with a format.
    pub fn new(data: SubsonicResponse<T>, format: ResponseFormat) -> (r: Self)
        ensures
            r.data_spec() == data,
            r.format_spec() == format,
    {
        ApiResponse { data, format }
    }

    /// A successful response carrying `data`, in the given format.
    pub fn ok(data: Option<T>, format: ResponseFormat) -> (r: Self)
        ensures
            is_ok_response(r.data_spec(), data),
            r.format_spec() == format,
    {
        let response = match format {
            ResponseFormat::Json => SubsonicResponse::ok(data),
            ResponseFormat::Xml => SubsonicResponse::ok_xml(data),
        };
        Self::new(response, format)
    }

    /// A failed response with an error code and message, in the given
    /// format.
    pub fn _error(code: i32, message: String, format: ResponseFormat) -> (r: Self)
        ensures
            is_failed_response(r.data_spec(), code, message),
            r.format_spec() == format,
    {
        let response = match format {
            ResponseFormat::Json => SubsonicResponse::failed(code, message),
            ResponseFormat::Xml => SubsonicResponse::failed_xml(code, message),
        };
        Self::new(response, format)
    }

    /// The envelope.
    pub fn data(&self) -> (d: &SubsonicResponse<T>)
        ensures
            *d == self.data_spec(),
    {
        &self.data
    }

    /// The format.
    pub fn format(&self) -> (f: ResponseFormat)
        ensures
            f == self.format_spec(),
    {
        self.format
    }
}

} // verus!
