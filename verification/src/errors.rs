//! Error values surfaced by the broker core.
//!
//! Each error carries a human-readable message built from the offending
//! name, mirroring the text the rest of the system logs and returns to
//! callers. Names are quoted verbatim in the message.

use vstd::prelude::*;

verus! {

/// The character for one decimal digit.
pub open spec fn digit_char(d: nat) -> char {
    if d == 0 {
        '0'
    } else if d == 1 {
        '1'
    } else if d == 2 {
        '2'
    } else if d == 3 {
        '3'
    } else if d == 4 {
        '4'
    } else if d == 5 {
        '5'
    } else if d == 6 {
        '6'
    } else if d == 7 {
        '7'
    } else if d == 8 {
        '8'
    } else {
        '9'
    }
}

/// The decimal digits of a number, highest first, with no leading zeros.
pub open spec fn dec_digits(n: nat) -> Seq<char>
    decreases n,
{
    if n < 10 {
        seq![digit_char(n)]
    } else {
        dec_digits(n / 10).push(digit_char(n % 10))
    }
}

/// Relies on u128's std Display implementation: the value's decimal
/// digits, highest first, with no sign and no leading zeros.
#[verifier::external_body]
pub(crate) fn u128_to_string(n: u128) -> (r: String)
    ensures
        r@ == dec_digits(n as nat),
{
    n.to_string()
}

/// Registration found an event type of the same name.
#[derive(Debug)]
pub struct EventTypeAlreadyExistsError {
    pub message: String,
}

impl EventTypeAlreadyExistsError {
    pub fn new(event_type_name: String) -> (r: Self)
        ensures
            r.message@ == "Event type: \""@ + event_type_name@ + "\" already exists"@,
    {
        let mut message = String::from_str("Event type: \"");
        message.append(event_type_name.as_str());
        message.append("\" already exists");
        Self { message }
    }
}

/// Registration found a service of the same name.
#[derive(Debug)]
pub struct ServiceAlreadyExistsError {
    pub message: String,
}

impl ServiceAlreadyExistsError {
    pub fn new(service_name: String) -> (r: Self)
        ensures
            r.message@ == "Service: \""@ + service_name@ + "\" already exists"@,
    {
        let mut message = String::from_str("Service: \"");
        message.append(service_name.as_str());
        message.append("\" already exists");
        Self { message }
    }
}

/// A lookup by service name found nothing.
#[derive(Debug)]
pub struct ServiceNotFoundError {
    pub message: String,
}

impl ServiceNotFoundError {
    pub fn new(name: &str) -> (r: Self)
        ensures
            r.message@ == "Service: \""@ + name@ + "\" not found"@,
    {
        let mut message = String::from_str("Service: \"");
        message.append(name);
        message.append("\" not found");
        Self { message }
    }
}

/// A lookup by event id found nothing.
#[derive(Debug)]
pub struct EventNotFoundError {
    pub message: String,
}

impl EventNotFoundError {
    pub fn new(id: &str) -> (r: Self)
        ensures
            r.message@ == "Event: \""@ + id@ + "\" not found"@,
    {
        let mut message = String::from_str("Event: \"");
        message.append(id);
        message.append("\" not found");
        Self { message }
    }
}

/// A lookup by event type name found nothing.
#[derive(Debug)]
pub struct EventTypeNotFoundError {
    pub message: String,
}

impl EventTypeNotFoundError {
    pub fn new(id: &str) -> (r: Self)
        ensures
            r.message@ == "EventType: \""@ + id@ + "\" not found"@,
    {
        let mut message = String::from_str("EventType: \"");
        message.append(id);
        message.append("\" not found");
        Self { message }
    }
}

/// A storage row could not be read back into the expected shape.
#[derive(Debug)]
pub struct ParsingRecordToStructError {
    pub message: String,
}

impl ParsingRecordToStructError {
    pub fn new(struct_name: String) -> (r: Self)
        ensures
            r.message@ == "Could not parse record into struct: \""@ + struct_name@ + "\""@,
    {
        let mut message = String::from_str("Could not parse record into struct: \"");
        message.append(struct_name.as_str());
        message.append("\"");
        Self { message }
    }
}

/// A registered payload schema breaks the structural rules.
#[derive(Debug)]
pub struct InvalidPropertyDef {
    pub message: String,
}

impl InvalidPropertyDef {
    pub fn new(message: String) -> (r: Self)
        ensures
            r.message == message,
    {
        Self { message }
    }
}

} // verus!
