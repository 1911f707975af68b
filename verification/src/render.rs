//! The report as the JSON text that the front end answers with.
//!
//! The text is compact: no space between tokens, the members of a record in
//! the order `device_id`, `name`, `model`, `os`, `os_is_latest`.

use vstd::prelude::*;
use vstd::pervasive::unreached;
use vstd::string::StringExecFns;
use crate::model::{description_of, DeviceRecord, DeviceRecordView, Report, ReportError};
use crate::text::{decimal, digit_char, push_decimal};

verus! {

#[verifier::external_type_specification]
#[verifier::external_body]
pub struct ExJsonError(serde_json::Error);

/// The character for one hexadecimal digit, in lower case.
pub open spec fn hex_char(d: nat) -> char {
    if d < 10 {
        digit_char(d)
    } else if d == 10 {
        'a'
    } else if d == 11 {
        'b'
    } else if d == 12 {
        'c'
    } else if d == 13 {
        'd'
    } else if d == 14 {
        'e'
    } else {
        'f'
    }
}

/// What stands for one character inside a JSON string literal. The quote,
/// the backslash and the characters below the space are escaped: five of
/// them by a letter, the others by their code in four hexadecimal digits.
/// Every other character stands for itself.
pub open spec fn escaped(c: char) -> Seq<char> {
    if c == '"' {
        seq!['\\', '"']
    } else if c == '\\' {
        seq!['\\', '\\']
    } else if c == '\u{8}' {
        seq!['\\', 'b']
    } else if c == '\t' {
        seq!['\\', 't']
    } else if c == '\n' {
        seq!['\\', 'n']
    } else if c == '\u{c}' {
        seq!['\\', 'f']
    } else if c == '\r' {
        seq!['\\', 'r']
    } else if (c as u32) < 0x20 {
        seq![
            '\\',
            'u',
            '0',
            '0',
            hex_char((c as u32 / 16) as nat),
            hex_char((c as u32 % 16) as nat),
        ]
    } else {
        seq![c]
    }
}

/// A text with each of its characters escaped.
pub open spec fn escaped_text(text: Seq<char>) -> Seq<char>
    decreases text.len(),
{
    if text.len() == 0 {
        Seq::empty()
    } else {
        escaped_text(text.drop_last()) + escaped(text.last())
    }
}

/// The JSON string literal for a text: the escaped text between two quotes.
pub open spec fn json_string(text: Seq<char>) -> Seq<char> {
    seq!['"'] + escaped_text(text) + seq!['"']
}

/// Calls `serde_json::to_string` on a string slice. The contract claims that
/// the call succeeds and that its result is the JSON string literal for the
/// text. Not proved: the serializer writes a string slice into a buffer in
/// memory, which has no way to fail; it puts a quote before and after, and
/// escapes by a fixed table what [`escaped`] escapes, in the same way.
#[verifier::external_body]
fn to_json_string(text: &str) -> (quoted: Result<String, serde_json::Error>)
    ensures
        quoted is Ok,
        quoted matches Ok(q) ==> q@ == json_string(text@),
{
    serde_json::to_string(text)
}

/// The JSON string literal for a text.
pub fn quote(text: &str) -> (quoted: String)
    ensures
        quoted@ == json_string(text@),
{
    match to_json_string(text) {
        Ok(q) => q,
        Err(_) => unreached(),
    }
}

/// The JSON text of a truth value.
pub open spec fn json_bool(b: bool) -> Seq<char> {
    if b {
        "true"@
    } else {
        "false"@
    }
}

/// One record as a JSON object, given the JSON texts of its three strings.
pub open spec fn framed_record(
    device_id: u64,
    name: Seq<char>,
    model: Seq<char>,
    os: Seq<char>,
    os_is_latest: bool,
) -> Seq<char> {
    "{\"device_id\":"@ + decimal(device_id as nat) + ",\"name\":"@ + name + ",\"model\":"@ + model
        + ",\"os\":"@ + os + ",\"os_is_latest\":"@ + json_bool(os_is_latest) + "}"@
}

/// One record as a JSON object.
pub open spec fn record_json(record: DeviceRecordView) -> Seq<char> {
    framed_record(
        record.device_id,
        json_string(record.name),
        json_string(record.model),
        json_string(record.os),
        record.os_is_latest,
    )
}

/// The records as JSON objects, separated by commas.
pub open spec fn records_json(records: Seq<DeviceRecordView>) -> Seq<char>
    decreases records.len(),
{
    if records.len() == 0 {
        Seq::empty()
    } else if records.len() == 1 {
        record_json(records[0])
    } else {
        records_json(records.drop_last()) + ","@ + record_json(records.last())
    }
}

/// The whole report: an object whose only member, `devices`, is the array of
/// the records.
pub open spec fn report_json(records: Seq<DeviceRecordView>) -> Seq<char> {
    "{\"devices\":["@ + records_json(records) + "]}"@
}

/// Frames one record as a JSON object around the JSON texts of its strings.
pub fn frame_record(device_id: u64, name: &str, model: &str, os: &str, os_is_latest: bool) -> (text:
    String)
    ensures
        text@ == framed_record(device_id, name@, model@, os@, os_is_latest),
{
    let mut text = String::from_str("{\"device_id\":");
    push_decimal(&mut text, device_id);
    text.append(",\"name\":");
    text.append(name);
    text.append(",\"model\":");
    text.append(model);
    text.append(",\"os\":");
    text.append(os);
    text.append(",\"os_is_latest\":");
    if os_is_latest {
        text.append("true");
    } else {
        text.append("false");
    }
    text.append("}");
    text
}

/// Renders one record as a JSON object.
pub fn render_record(record: &DeviceRecord) -> (text: String)
    ensures
        text@ == record_json(record@),
{
    let name = quote(record.name.as_str());
    let model = quote(record.model.as_str());
    let os = quote(record.os.as_str());
    frame_record(record.device_id, name.as_str(), model.as_str(), os.as_str(), record.os_is_latest)
}

/// Renders the report as the body of the front end's answer.
pub fn render_report(report: &Report) -> (text: String)
    ensures
        text@ == report_json(report@),
{
    let mut text = String::from_str("{\"devices\":[");
    let mut i: usize = 0;
    while i < report.devices.len()
        invariant
            i <= report.devices.len(),
            text@ == "{\"devices\":["@ + records_json(report@.take(i as int)),
        decreases report.devices.len() - i,
    {
        let ghost done = report@.take(i as int);
        let ghost next = report@.take(i + 1);
        assert(next.drop_last() =~= done);
        assert(next.last() == report.devices[i as int]@);
        if i > 0 {
            text.append(",");
        }
        let record = render_record(&report.devices[i]);
        text.append(record.as_str());
        assert(text@ =~= "{\"devices\":["@ + records_json(next));
        i += 1;
    }
    assert(report@.take(i as int) =~= report@);
    text.append("]}");
    text
}

/// The status of an answer that carries the report.
pub const STATUS_OK: u16 = 200;

/// The status of an answer that says that the backend let the run down.
pub const STATUS_BAD_GATEWAY: u16 = 502;

/// What the front end answers: a status code and a JSON body.
#[derive(Clone, Debug, PartialEq, Eq)]
pub struct Answer {
    pub status: u16,
    pub body: String,
}

/// The body that tells of a failure: an object whose only member, `error`,
/// says in words what went wrong.
pub open spec fn failure_json(error: ReportError) -> Seq<char> {
    "{\"error\":"@ + json_string(description_of(error)) + "}"@
}

/// Frames the body that tells of a failure around the JSON text of its
/// message.
pub fn frame_failure(message: &str) -> (text: String)
    ensures
        text@ == "{\"error\":"@ + message@ + "}"@,
{
    let mut text = String::from_str("{\"error\":");
    text.append(message);
    text.append("}");
    text
}

/// Turns the outcome of a run into the front end's answer: the report with
/// status 200, or a failure with status 502 and never part of a report.
pub fn answer(outcome: &Result<Report, ReportError>) -> (answer: Answer)
    ensures
        match *outcome {
            Ok(report) => answer.status == STATUS_OK && answer.body@ == report_json(report@),
            Err(e) => answer.status == STATUS_BAD_GATEWAY && answer.body@ == failure_json(e),
        },
{
    match outcome {
        Ok(report) => Answer { status: STATUS_OK, body: render_report(report) },
        Err(e) => {
            let message = quote(e.describe().as_str());
            Answer { status: STATUS_BAD_GATEWAY, body: frame_failure(message.as_str()) }
        },
    }
}

} // verus!
