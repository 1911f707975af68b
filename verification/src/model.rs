//! The records that flow through the aggregation and the ways it can fail.

use vstd::prelude::*;
use vstd::string::StringExecFns;

verus! {

/// What went wrong while talking to the backend.
#[derive(Clone, Copy, Debug, PartialEq, Eq, Structural)]
pub enum ReportError {
    /// The token exchange was refused or its answer held no token.
    Auth,
    /// The backend could not be reached.
    Fetch,
    /// An answer did not have the expected shape.
    Decode,
    /// The backend no longer knows the device that was asked for.
    NotFound,
    /// The update catalog lists no version at all.
    EmptyCatalog,
}

/// What an error says in words.
pub open spec fn description_of(error: ReportError) -> Seq<char> {
    match error {
        ReportError::Auth => "authentication with the backend failed"@,
        ReportError::Fetch => "the backend could not be reached"@,
        ReportError::Decode => "an answer of the backend could not be read"@,
        ReportError::NotFound => "the backend does not know the device"@,
        ReportError::EmptyCatalog => "the update catalog is empty"@,
    }
}

impl ReportError {
    /// Says in words what went wrong.
    pub fn describe(&self) -> (text: String)
        ensures
            text@ == description_of(*self),
    {
        match self {
            ReportError::Auth => String::from_str("authentication with the backend failed"),
            ReportError::Fetch => String::from_str("the backend could not be reached"),
            ReportError::Decode => String::from_str("an answer of the backend could not be read"),
            ReportError::NotFound => String::from_str("the backend does not know the device"),
            ReportError::EmptyCatalog => String::from_str("the update catalog is empty"),
        }
    }
}

/// What the caller supplies for one report: who asks, and optionally where.
#[derive(Clone, Debug, PartialEq, Eq)]
pub struct Credentials {
    pub username: String,
    pub secret: String,
    pub base: Option<String>,
}

/// What the backend tells about one device.
#[derive(Clone, Debug, PartialEq, Eq)]
pub struct DeviceDetail {
    pub id: u64,
    pub name: String,
    pub model: String,
    pub os_name: String,
    pub os_version: String,
}

/// Mathematical content of a [`DeviceDetail`].
pub struct DeviceDetailView {
    pub id: u64,
    pub name: Seq<char>,
    pub model: Seq<char>,
    pub os_name: Seq<char>,
    pub os_version: Seq<char>,
}

impl View for DeviceDetail {
    type V = DeviceDetailView;

    open spec fn view(&self) -> DeviceDetailView {
        DeviceDetailView {
            id: self.id,
            name: self.name@,
            model: self.model@,
            os_name: self.os_name@,
            os_version: self.os_version@,
        }
    }
}

/// One line of the report.
#[derive(Clone, Debug, PartialEq, Eq)]
pub struct DeviceRecord {
    pub device_id: u64,
    pub name: String,
    pub model: String,
    pub os: String,
    pub os_is_latest: bool,
}

/// Mathematical content of a [`DeviceRecord`].
pub struct DeviceRecordView {
    pub device_id: u64,
    pub name: Seq<char>,
    pub model: Seq<char>,
    pub os: Seq<char>,
    pub os_is_latest: bool,
}

impl View for DeviceRecord {
    type V = DeviceRecordView;

    open spec fn view(&self) -> DeviceRecordView {
        DeviceRecordView {
            device_id: self.device_id,
            name: self.name@,
            model: self.model@,
            os: self.os@,
            os_is_latest: self.os_is_latest,
        }
    }
}

/// The finished report: one record per device, in the backend's order.
#[derive(Clone, Debug, PartialEq, Eq)]
pub struct Report {
    pub devices: Vec<DeviceRecord>,
}

impl View for Report {
    type V = Seq<DeviceRecordView>;

    open spec fn view(&self) -> Seq<DeviceRecordView> {
        self.devices@.map_values(|r: DeviceRecord| r@)
    }
}

/// The view of an optional string.
pub open spec fn text_of(s: Option<String>) -> Option<Seq<char>> {
    match s {
        Some(t) => Some(t@),
        None => None,
    }
}

/// Name and operating-system version joined by exactly one space.
pub open spec fn os_descriptor(os_name: Seq<char>, os_version: Seq<char>) -> Seq<char> {
    os_name + seq![' '] + os_version
}

/// The record that a device's detail gives against a baseline version.
/// With no baseline no device counts as up to date; with one, only a device
/// whose version is that very string does.
pub open spec fn record_of(
    detail: DeviceDetailView,
    latest: Option<Seq<char>>,
) -> DeviceRecordView {
    DeviceRecordView {
        device_id: detail.id,
        name: detail.name,
        model: detail.model,
        os: os_descriptor(detail.os_name, detail.os_version),
        os_is_latest: latest == Some(detail.os_version),
    }
}

/// Tells whether a device runs exactly the baseline version.
pub fn runs_latest(os_version: &String, latest: &Option<String>) -> (yes: bool)
    ensures
        yes == (text_of(*latest) == Some(os_version@)),
{
    match latest {
        Some(v) => *os_version == *v,
        None => false,
    }
}

/// Renders the operating-system field of a record.
pub fn join_os(os_name: &String, os_version: &String) -> (os: String)
    ensures
        os@ == os_descriptor(os_name@, os_version@),
{
    let mut os = os_name.clone();
    proof {
        reveal_strlit(" ");
        assert(" "@ =~= seq![' ']);
    }
    os.append(" ");
    os.append(os_version.as_str());
    os
}

/// Builds the report line for one device.
pub fn build_record(detail: &DeviceDetail, latest: &Option<String>) -> (record: DeviceRecord)
    ensures
        record@ == record_of(detail@, text_of(*latest)),
{
    DeviceRecord {
        device_id: detail.id,
        name: detail.name.clone(),
        model: detail.model.clone(),
        os: join_os(&detail.os_name, &detail.os_version),
        os_is_latest: runs_latest(&detail.os_version, latest),
    }
}

} // verus!
