//! What the HTTP endpoints answer. The server itself lives outside this
//! crate; it hands over what it received and sends what it is given.

use crate::error::FirmwareError;
use crate::record::{FirmwareInfo, RecordView};
use crate::text::{decimal, decimal_text};
use crate::version::version_text;
use std::sync::Arc;
use vstd::prelude::*;
use vstd::string::StringExecFns;

verus! {

pub const STATUS_OK: u16 = 200;

pub const STATUS_BAD_REQUEST: u16 = 400;

pub const STATUS_NOT_FOUND: u16 = 404;

/// The query of the endpoints that serve a device.
#[derive(Debug)]
pub struct DeviceParams {
    pub device: String,
}

/// The content type of a reply.
#[derive(Clone, Copy, Debug, PartialEq, Eq, Structural)]
pub enum ContentType {
    /// No body, no content type.
    Absent,
    /// `text/plain; charset=utf-8`
    Text,
    /// `application/octet-stream`
    Binary,
}

/// The value of a reply's body.
pub enum BodyView {
    Empty,
    Text(Seq<char>),
    /// The payload of this record.
    Payload(RecordView),
}

/// The value of a reply.
pub struct ReplyView {
    pub status: u16,
    pub content_type: ContentType,
    pub body: BodyView,
}

/// The body of a reply.
pub enum Body {
    Empty,
    Text(String),
    /// The payload of this record, which is shared, not copied.
    Payload(Arc<FirmwareInfo>),
}

impl View for Body {
    type V = BodyView;

    open spec fn view(&self) -> BodyView {
        match self {
            Body::Empty => BodyView::Empty,
            Body::Text(s) => BodyView::Text(s@),
            Body::Payload(record) => BodyView::Payload(record@),
        }
    }
}

/// A reply to send.
pub struct Reply {
    pub status: u16,
    pub content_type: ContentType,
    pub body: Body,
}

impl View for Reply {
    type V = ReplyView;

    open spec fn view(&self) -> ReplyView {
        ReplyView { status: self.status, content_type: self.content_type, body: self.body@ }
    }
}

/// The value of the `Content-Type` header, where there is one.
pub fn content_type_header(content_type: ContentType) -> (r: Option<&'static str>)
    ensures
        match content_type {
            ContentType::Absent => r is None,
            ContentType::Text => r matches Some(s) && s@ == "text/plain; charset=utf-8"@,
            ContentType::Binary => r matches Some(s) && s@ == "application/octet-stream"@,
        },
{
    match content_type {
        ContentType::Absent => None,
        ContentType::Text => Some("text/plain; charset=utf-8"),
        ContentType::Binary => Some("application/octet-stream"),
    }
}

/// The text that tells a client that the query lacks its parameter.
pub open spec fn missing_device_text() -> Seq<char> {
    "Failed to deserialize query string: missing field `device`"@
}

/// The text that tells a client that there is no firmware for its device.
pub open spec fn not_found_text(device: Seq<char>) -> Seq<char> {
    "No firmware for device '"@ + device + "'"@
}

/// The three lines that describe a record: version, checksum and size.
pub open spec fn version_text_body(record: RecordView) -> Seq<char> {
    version_text(record.version) + seq!['\n'] + decimal(record.crc as nat) + seq!['\n'] + decimal(
        record.size,
    )
}

/// The reply to a query without a device.
pub open spec fn bad_request() -> ReplyView {
    ReplyView {
        status: STATUS_BAD_REQUEST,
        content_type: ContentType::Text,
        body: BodyView::Text(missing_device_text()),
    }
}

/// The reply to a query for a device that no firmware could be had for.
pub open spec fn not_found(device: Seq<char>) -> ReplyView {
    ReplyView {
        status: STATUS_NOT_FOUND,
        content_type: ContentType::Text,
        body: BodyView::Text(not_found_text(device)),
    }
}

/// Reads the device out of a query. A query without the parameter, or with
/// an empty one, is answered with 400 and a text that names the parameter.
pub fn device_params(device: Option<String>) -> (r: Result<DeviceParams, Reply>)
    ensures
        match r {
            Ok(params) => device matches Some(d) && d@.len() > 0 && params.device@ == d@,
            Err(reply) => (device is None || device->0@.len() == 0) && reply@ == bad_request(),
        },
{
    match device {
        Some(d) => {
            if d.as_str().is_empty() {
                Err(missing_device())
            } else {
                Ok(DeviceParams { device: d })
            }
        },
        None => Err(missing_device()),
    }
}

fn missing_device() -> (reply: Reply)
    ensures
        reply@ == bad_request(),
{
    Reply {
        status: STATUS_BAD_REQUEST,
        content_type: ContentType::Text,
        body: Body::Text(
            String::from_str("Failed to deserialize query string: missing field `device`"),
        ),
    }
}

fn no_firmware(device: &str) -> (reply: Reply)
    ensures
        reply@ == not_found(device@),
{
    let mut text = String::from_str("No firmware for device '");
    text.append(device);
    text.append("'");
    Reply { status: STATUS_NOT_FOUND, content_type: ContentType::Text, body: Body::Text(text) }
}

/// The reply of the version endpoint: for a record, its version, checksum
/// and size on three lines; for any error, 404 with the device's name.
pub fn version_reply(device: &str, outcome: &Result<Arc<FirmwareInfo>, FirmwareError>) -> (reply:
    Reply)
    ensures
        reply@ == match outcome {
            Ok(record) => ReplyView {
                status: STATUS_OK,
                content_type: ContentType::Text,
                body: BodyView::Text(version_text_body(record@)),
            },
            Err(_) => not_found(device@),
        },
{
    match outcome {
        Ok(record) => {
            proof {
                reveal_strlit("\n");
                assert("\n"@ =~= seq!['\n']);
            }
            let mut text = record.version().to_text();
            text.append("\n");
            text.append(decimal_text(record.crc() as u64).as_str());
            text.append("\n");
            text.append(decimal_text(record.size() as u64).as_str());
            Reply { status: STATUS_OK, content_type: ContentType::Text, body: Body::Text(text) }
        },
        Err(_) => no_firmware(device),
    }
}

/// The reply of the firmware endpoint: for a record, its payload; for any
/// error, 404 with the device's name.
pub fn firmware_reply(device: &str, outcome: Result<Arc<FirmwareInfo>, FirmwareError>) -> (reply:
    Reply)
    ensures
        reply@ == match outcome {
            Ok(record) => ReplyView {
                status: STATUS_OK,
                content_type: ContentType::Binary,
                body: BodyView::Payload(record@),
            },
            Err(_) => not_found(device@),
        },
{
    match outcome {
        Ok(record) => Reply {
            status: STATUS_OK,
            content_type: ContentType::Binary,
            body: Body::Payload(record),
        },
        Err(_) => no_firmware(device),
    }
}

/// The reply of the health endpoint: 200 and nothing else.
pub fn health_reply() -> (reply: Reply)
    ensures
        reply@ == (ReplyView {
            status: STATUS_OK,
            content_type: ContentType::Absent,
            body: BodyView::Empty,
        }),
{
    Reply { status: STATUS_OK, content_type: ContentType::Absent, body: Body::Empty }
}

} // verus!
