//! The DriverUI proxy: requests that arrive over SDV RPC are passed on to
//! HAR's DriverUI service, and HAR's answers are passed back. Enum fields
//! travel as wire numbers and are checked on the way.

use crate::text::{decimal, i64_text};
use vstd::prelude::*;

verus! {

/// Where a heartbeat comes from.
#[derive(PartialEq, Eq, Structural, Clone, Copy, Debug)]
pub enum Source {
    SOURCE_UNKNOWN,
    SOURCE_ANDROID,
    SOURCE_INSTRUMENT_CLUSTER,
    SOURCE_CAMERA_SERVICE,
}

/// The status HAR answers with.
#[derive(PartialEq, Eq, Structural, Clone, Copy, Debug)]
pub enum ResponseStatus {
    STATUS_UNKNOWN,
    STATUS_OK,
    STATUS_PROCESSING_ERROR,
}

/// The heartbeat source that a wire number stands for.
pub open spec fn source_of(n: i32) -> Option<Source> {
    if n == 0 {
        Some(Source::SOURCE_UNKNOWN)
    } else if n == 1 {
        Some(Source::SOURCE_ANDROID)
    } else if n == 2 {
        Some(Source::SOURCE_INSTRUMENT_CLUSTER)
    } else if n == 3 {
        Some(Source::SOURCE_CAMERA_SERVICE)
    } else {
        None
    }
}

/// The response status that a wire number stands for.
pub open spec fn status_of(n: i32) -> Option<ResponseStatus> {
    if n == 0 {
        Some(ResponseStatus::STATUS_UNKNOWN)
    } else if n == 1 {
        Some(ResponseStatus::STATUS_OK)
    } else if n == 2 {
        Some(ResponseStatus::STATUS_PROCESSING_ERROR)
    } else {
        None
    }
}

/// Decodes a heartbeat source.
pub fn source_from_number(n: i32) -> (r: Option<Source>)
    ensures
        r == source_of(n),
{
    match n {
        0 => Some(Source::SOURCE_UNKNOWN),
        1 => Some(Source::SOURCE_ANDROID),
        2 => Some(Source::SOURCE_INSTRUMENT_CLUSTER),
        3 => Some(Source::SOURCE_CAMERA_SERVICE),
        _ => None,
    }
}

/// Decodes a response status.
pub fn status_from_number(n: i32) -> (r: Option<ResponseStatus>)
    ensures
        r == status_of(n),
{
    match n {
        0 => Some(ResponseStatus::STATUS_UNKNOWN),
        1 => Some(ResponseStatus::STATUS_OK),
        2 => Some(ResponseStatus::STATUS_PROCESSING_ERROR),
        _ => None,
    }
}

/// The kind of failure an SDV RPC call reports.
#[derive(PartialEq, Eq, Structural, Clone, Copy, Debug)]
pub enum SdvStatusCode {
    InvalidArgument,
    Internal,
    Cancelled,
}

/// The failure of an SDV RPC call, with an optional message.
#[derive(Debug)]
pub struct SdvStatus {
    pub code: SdvStatusCode,
    pub message: Option<String>,
}

/// A heartbeat; `source` is a wire number.
#[derive(PartialEq, Eq, Structural, Clone, Copy, Debug)]
pub struct HeartbeatRequest {
    pub uptime: i64,
    pub source: i32,
}

/// An answer that carries only a status; `status` is a wire number.
#[derive(PartialEq, Eq, Structural, Clone, Copy, Debug)]
pub struct StatusResponse {
    pub status: i32,
}

/// Tells HAR which document is shown.
#[derive(Debug)]
pub struct DocumentSwitchedRequest {
    pub document_id: String,
}

/// Sends HAR a new version of a document.
#[derive(Debug)]
pub struct DocumentUpdatedRequest {
    pub document_id: String,
    pub serialized_document: Vec<u8>,
}

/// Tells HAR the theme and variable mode of the design tokens.
#[derive(Debug)]
pub struct DesignTokenUpdateRequest {
    pub theme: String,
    pub variable_mode: String,
}

/// Tells HAR the language of the user interface.
#[derive(Debug)]
pub struct LocaleUpdateRequest {
    pub language_tag: String,
}

/// `r` is a failure with code `code` and no message.
pub open spec fn fails_with(r: Result<HeartbeatRequest, SdvStatus>, code: SdvStatusCode) -> bool {
    r matches Err(e) && e.code == code && e.message is None
}

/// The heartbeat to pass on to HAR: the same heartbeat, when its source is
/// one HAR knows; otherwise an invalid argument.
pub fn heartbeat_to_har(request: &HeartbeatRequest) -> (r: Result<HeartbeatRequest, SdvStatus>)
    ensures
        source_of(request.source) is Some ==> r == Ok::<HeartbeatRequest, SdvStatus>(*request),
        source_of(request.source) is None ==> fails_with(r, SdvStatusCode::InvalidArgument),
{
    match source_from_number(request.source) {
        Some(_) => Ok(*request),
        None => Err(SdvStatus { code: SdvStatusCode::InvalidArgument, message: None }),
    }
}

/// `r` is an internal failure whose message is `text`.
pub open spec fn is_internal_failure<T>(r: Result<T, SdvStatus>, text: Seq<char>) -> bool {
    match r {
        Err(e) => e.code == SdvStatusCode::Internal && match e.message {
            Some(m) => m@ == text,
            None => false,
        },
        Ok(_) => false,
    }
}

/// What the proxy answers for HAR's answer to a request that carries a
/// status: the same status when HAR's call succeeded and the status is
/// known; an invalid argument for an unknown status; an internal failure
/// with the call's error text when the call failed.
pub open spec fn status_answer(
    outcome: Result<StatusResponse, String>,
    r: Result<StatusResponse, SdvStatus>,
) -> bool {
    match outcome {
        Ok(resp) => if status_of(resp.status) is Some {
            r == Ok::<StatusResponse, SdvStatus>(resp)
        } else {
            r matches Err(e) && e.code == SdvStatusCode::InvalidArgument && e.message is None
        },
        Err(text) => is_internal_failure(r, text@),
    }
}

/// Passes back HAR's answer to a heartbeat, a document switch or a document
/// update.
pub fn status_response_from_har(outcome: Result<StatusResponse, String>) -> (r: Result<
    StatusResponse,
    SdvStatus,
>)
    ensures
        status_answer(outcome, r),
{
    match outcome {
        Ok(resp) => match status_from_number(resp.status) {
            Some(_) => Ok(resp),
            None => Err(SdvStatus { code: SdvStatusCode::InvalidArgument, message: None }),
        },
        Err(text) => Err(SdvStatus { code: SdvStatusCode::Internal, message: Some(text) }),
    }
}

/// Passes back HAR's answer to a design token or locale update: the empty
/// answer when the call succeeded, otherwise an internal failure with the
/// call's error text.
pub fn empty_response_from_har(outcome: Result<(), String>) -> (r: Result<(), SdvStatus>)
    ensures
        outcome is Ok ==> r is Ok,
        outcome matches Err(text) ==> is_internal_failure(r, text@),
{
    match outcome {
        Ok(()) => Ok(()),
        Err(text) => Err(SdvStatus { code: SdvStatusCode::Internal, message: Some(text) }),
    }
}

/// The document switch to pass on to HAR: the same document.
pub fn document_switched_to_har(request: &DocumentSwitchedRequest) -> (r: DocumentSwitchedRequest)
    ensures
        r.document_id@ == request.document_id@,
{
    DocumentSwitchedRequest { document_id: request.document_id.clone() }
}

/// The document update to pass on to HAR: the same document and content.
pub fn document_updated_to_har(request: &DocumentUpdatedRequest) -> (r: DocumentUpdatedRequest)
    ensures
        r.document_id@ == request.document_id@,
        r.serialized_document@ == request.serialized_document@,
{
    DocumentUpdatedRequest {
        document_id: request.document_id.clone(),
        serialized_document: crate::user_preferences::setting::copy_bytes(
            &request.serialized_document,
        ),
    }
}

/// The design token update to pass on to HAR: the same theme and mode.
pub fn design_token_update_to_har(request: &DesignTokenUpdateRequest) -> (r:
    DesignTokenUpdateRequest)
    ensures
        r.theme@ == request.theme@,
        r.variable_mode@ == request.variable_mode@,
{
    DesignTokenUpdateRequest {
        theme: request.theme.clone(),
        variable_mode: request.variable_mode.clone(),
    }
}

/// The locale update to pass on to HAR: the same language.
pub fn locale_update_to_har(request: &LocaleUpdateRequest) -> (r: LocaleUpdateRequest)
    ensures
        r.language_tag@ == request.language_tag@,
{
    LocaleUpdateRequest { language_tag: request.language_tag.clone() }
}

/// A line of the test log: the state that changed, its new value and what happened.
#[derive(Debug)]
pub struct TestLogEntry {
    pub state_name: String,
    pub value: String,
    pub message: String,
}

/// The name under which the test log reports a heartbeat source; an unknown
/// number reads as unknown.
pub open spec fn source_log_name(n: i32) -> Seq<char> {
    match source_of(n) {
        Some(Source::SOURCE_ANDROID) => "ANDROID"@,
        Some(Source::SOURCE_INSTRUMENT_CLUSTER) => "INSTRUMENT_CLUSTER"@,
        Some(Source::SOURCE_CAMERA_SERVICE) => "CAMERA_SERVICE"@,
        _ => "UNKNOWN"@,
    }
}

/// The test log line for a processed heartbeat.
pub fn heartbeat_log_entry(req: &HeartbeatRequest) -> (e: TestLogEntry)
    ensures
        e.state_name@ == "DriverUI:heartbeat::source"@,
        e.value@ == source_log_name(req.source),
        e.message@ == "processed, uptime="@ + decimal(req.uptime as int),
{
    let value = match source_from_number(req.source) {
        Some(Source::SOURCE_ANDROID) => "ANDROID",
        Some(Source::SOURCE_INSTRUMENT_CLUSTER) => "INSTRUMENT_CLUSTER",
        Some(Source::SOURCE_CAMERA_SERVICE) => "CAMERA_SERVICE",
        _ => "UNKNOWN",
    };
    let mut message = String::from_str("processed, uptime=");
    let uptime = i64_text(req.uptime);
    message.append(uptime.as_str());
    TestLogEntry {
        state_name: String::from_str("DriverUI:heartbeat::source"),
        value: String::from_str(value),
        message,
    }
}

/// The test log line for a processed document switch.
pub fn document_switched_log_entry(req: &DocumentSwitchedRequest) -> (e: TestLogEntry)
    ensures
        e.state_name@ == "DriverUI:documentswitched"@,
        e.value@ == req.document_id@,
        e.message@ == "processed"@,
{
    TestLogEntry {
        state_name: String::from_str("DriverUI:documentswitched"),
        value: req.document_id.clone(),
        message: String::from_str("processed"),
    }
}

/// The test log line for a processed document update.
pub fn document_updated_log_entry(req: &DocumentUpdatedRequest) -> (e: TestLogEntry)
    ensures
        e.state_name@ == "DriverUI:documentupdated"@,
        e.value@ == req.document_id@,
        e.message@ == "processed"@,
{
    TestLogEntry {
        state_name: String::from_str("DriverUI:documentupdated"),
        value: req.document_id.clone(),
        message: String::from_str("processed"),
    }
}

/// The test log line for a processed design token update.
pub fn design_token_update_log_entry(req: &DesignTokenUpdateRequest) -> (e: TestLogEntry)
    ensures
        e.state_name@ == "DriverUI:designtokenupdate"@,
        e.value@ == "theme="@ + req.theme@ + ", variable_mode="@ + req.variable_mode@,
        e.message@ == "processed"@,
{
    let mut value = String::from_str("theme=");
    value.append(req.theme.as_str());
    value.append(", variable_mode=");
    value.append(req.variable_mode.as_str());
    TestLogEntry {
        state_name: String::from_str("DriverUI:designtokenupdate"),
        value,
        message: String::from_str("processed"),
    }
}

/// The test log line for a processed locale update.
pub fn locale_update_log_entry(req: &LocaleUpdateRequest) -> (e: TestLogEntry)
    ensures
        e.state_name@ == "DriverUI:localeupdate"@,
        e.value@ == req.language_tag@,
        e.message@ == "processed"@,
{
    TestLogEntry {
        state_name: String::from_str("DriverUI:localeupdate"),
        value: req.language_tag.clone(),
        message: String::from_str("processed"),
    }
}

/// A GRPC proxy between HAR and the DriverUI service, listening at an address.
#[derive(Debug)]
pub struct DriverUiGrpcProxy {
    pub server_address: String,
}

impl DriverUiGrpcProxy {
    pub fn new(server_address: String) -> (p: Self)
        ensures
            p.server_address@ == server_address@,
    {
        Self { server_address }
    }
}

/// A GRPC proxy between HAR and the camera service, listening at an address.
#[derive(Debug)]
pub struct CameraServiceGrpcProxy {
    pub server_address: String,
}

impl CameraServiceGrpcProxy {
    pub fn new(server_address: String) -> (p: Self)
        ensures
            p.server_address@ == server_address@,
    {
        Self { server_address }
    }
}

} // verus!
