//! The registry's push notification and what follows from it: for a pushed
//! artifact the device's firmware is resolved and its version announced to
//! the device over the broker.

use crate::error::FirmwareError;
use crate::record::{FirmwareInfo, RecordView};
use crate::text::same_text;
use crate::version::version_text;
use std::sync::Arc;
use vstd::prelude::*;
use vstd::string::StringExecFns;

verus! {

/// The notification that the registry posts.
#[derive(Debug)]
pub struct HarborWebhookPayload {
    pub event_type: String,
    pub occur_at: u64,
    pub operator: String,
    pub event_data: HarborEventData,
}

#[derive(Debug)]
pub struct HarborEventData {
    pub resources: Vec<HarborResource>,
    pub repository: HarborRepository,
}

#[derive(Debug)]
pub struct HarborResource {
    pub digest: String,
    pub tag: String,
    pub resource_url: String,
}

#[derive(Debug)]
pub struct HarborRepository {
    pub date_created: u64,
    pub name: String,
    pub namespace: String,
    pub repo_full_name: String,
    pub repo_type: String,
}

/// What a device is told about its firmware.
#[derive(Debug)]
pub struct FirmwarePayload {
    pub version: String,
    pub size: usize,
}

/// Announcements are delivered at least once.
pub const NOTIFY_QOS: u8 = 1;

/// Announcements are retained by the broker.
pub const NOTIFY_RETAIN: bool = true;

/// The webhook answers 200 whatever happens.
pub const WEBHOOK_STATUS: u16 = 200;

/// The event type that announces a pushed artifact.
pub open spec fn push_event() -> Seq<char> {
    "PUSH_ARTIFACT"@
}

/// What a notification asks for: the device to resolve, once for each
/// resource that the notification lists. Anything but a pushed artifact
/// asks for nothing.
pub fn push_target(payload: &HarborWebhookPayload) -> (r: Option<(&str, usize)>)
    ensures
        match r {
            Some((device, rounds)) => payload.event_type@ == push_event() && device@
                == payload.event_data.repository.name@ && rounds
                == payload.event_data.resources@.len(),
            None => payload.event_type@ != push_event(),
        },
{
    if same_text(payload.event_type.as_str(), "PUSH_ARTIFACT") {
        Some((payload.event_data.repository.name.as_str(), payload.event_data.resources.len()))
    } else {
        None
    }
}

/// The topic on which a device is told about its firmware.
pub open spec fn topic_of(base: Seq<char>, device: Seq<char>) -> Seq<char> {
    base + seq!['/'] + device
}

/// The topic on which a device is told about its firmware: the base topic,
/// `/`, and the device.
pub fn notification_topic(base: &str, device: &str) -> (topic: String)
    ensures
        topic@ == topic_of(base@, device@),
{
    proof {
        reveal_strlit("/");
        assert("/"@ =~= seq!['/']);
    }
    let mut topic = String::from_str(base);
    topic.append("/");
    topic.append(device);
    topic
}

/// What a device is told about a record: its version as text, and its size.
pub fn firmware_payload(record: &FirmwareInfo) -> (p: FirmwarePayload)
    ensures
        p.version@ == version_text(record@.version),
        p.size == record@.size,
{
    FirmwarePayload { version: record.version().to_text(), size: record.size() }
}

/// What to announce after the firmware of a pushed device was resolved:
/// the record's version and size where there is a record, nothing where
/// resolving failed. A failure is swallowed; the webhook still answers 200.
pub fn announcement(outcome: &Result<Arc<FirmwareInfo>, FirmwareError>) -> (r: Option<
    FirmwarePayload,
>)
    ensures
        match r {
            Some(p) => outcome matches Ok(record) && p.version@ == version_text(record@.version)
                && p.size == record@.size,
            None => outcome is Err,
        },
{
    match outcome {
        Ok(record) => Some(firmware_payload(record)),
        Err(_) => None,
    }
}

} // verus!
