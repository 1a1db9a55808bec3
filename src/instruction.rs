//! What every instruction shares: its attribute descriptor, the request
//! lines of the wire protocol, and a write that waits for the device.
use vstd::prelude::*;
use crate::text::{remove_all, remove_all_occurrences};

verus! {

/// `GET <ATTR>`
pub open spec fn get_line(name: Seq<char>) -> Seq<char> {
    seq!['G', 'E', 'T', ' '] + name
}

/// `SET <ATTR> <VALUE>`
pub open spec fn set_line(name: Seq<char>, value: Seq<char>) -> Seq<char> {
    seq!['S', 'E', 'T', ' '] + name + seq![' '] + value
}

/// The reply of a device that reports `value` for the attribute `name`.
pub open spec fn echo_reply(name: Seq<char>, value: Seq<char>) -> Seq<char> {
    name + seq![' '] + value
}

/// A reply with every echo of the attribute token (`<ATTR> `) taken out.
pub open spec fn raw_reading(name: Seq<char>, response: Seq<char>) -> Seq<char> {
    remove_all(response, name.push(' '))
}

/// Builds `GET <ATTR>`.
pub fn get_request_line(attr: &str) -> (r: String)
    ensures
        r@ == get_line(attr@),
{
    proof {
        reveal_strlit("GET ");
    }
    let mut line = String::from_str("GET ");
    line.append(attr);
    line
}

/// Builds `SET <ATTR> <VALUE>`.
pub fn set_request_line(attr: &str, value: &str) -> (r: String)
    ensures
        r@ == set_line(attr@, value@),
{
    proof {
        reveal_strlit("SET ");
        reveal_strlit(" ");
    }
    let mut line = String::from_str("SET ");
    line.append(attr);
    line.append(" ");
    line.append(value);
    assert(line@ =~= set_line(attr@, value@));
    line
}

/// The label shown for an attribute: its description, or `No description`.
pub open spec fn label(description: Option<&'static str>) -> Seq<char> {
    match description {
        Some(d) => d@,
        None => "No description"@,
    }
}

/// The descriptor of one device attribute: its wire token and a label.
pub struct Instruction {
    pub attr: &'static str,
    pub description: Option<&'static str>,
}

impl Instruction {
    pub fn new(attr: &'static str, description: Option<&'static str>) -> (r: Instruction)
        ensures
            r.attr == attr,
            r.description == description,
    {
        Instruction { attr, description }
    }

    pub fn attr(&self) -> (r: &str)
        ensures
            r@ == self.attr@,
    {
        self.attr
    }

    /// The label, or `No description` where none was given.
    pub fn description(&self) -> (r: &str)
        ensures
            r@ == label(self.description),
    {
        match self.description {
            Some(d) => d,
            None => "No description",
        }
    }

    /// The request that reads the attribute.
    pub fn get_request(&self) -> (r: String)
        ensures
            r@ == get_line(self.attr@),
    {
        get_request_line(self.attr)
    }

    /// The device's reply to `GET` with the echoed `<ATTR> ` removed.
    pub fn get(&self, response: &str) -> (r: String)
        ensures
            r@ == raw_reading(self.attr@, response@),
    {
        proof {
            reveal_strlit(" ");
        }
        let mut pattern = String::from_str(self.attr);
        pattern.append(" ");
        assert(pattern@ =~= self.attr@.push(' '));
        remove_all_occurrences(response, pattern.as_str())
    }
}

/// A write that has passed validation: the attribute it is for, the
/// request line to send, and the value that the cache takes once the device
/// has acknowledged it.
pub struct PendingWrite<T> {
    attr: &'static str,
    command: String,
    value: T,
}

impl<T> PendingWrite<T> {
    /// The wire token of the attribute the write is for.
    pub closed spec fn target(&self) -> Seq<char> {
        self.attr@
    }

    pub closed spec fn line(&self) -> Seq<char> {
        self.command@
    }

    pub closed spec fn intended(&self) -> T {
        self.value
    }

    pub(crate) fn new(attr: &'static str, command: String, value: T) -> (r: PendingWrite<T>)
        ensures
            r.target() == attr@,
            r.line() == command@,
            r.intended() == value,
    {
        PendingWrite { attr, command, value }
    }

    /// The wire token of the attribute the write is for.
    pub fn attr(&self) -> (r: &str)
        ensures
            r@ == self.target(),
    {
        self.attr
    }

    /// The request line to send.
    pub fn command(&self) -> (r: &str)
        ensures
            r@ == self.line(),
    {
        self.command.as_str()
    }

    /// The value the cache takes once the write is acknowledged.
    pub fn value(&self) -> (r: &T)
        ensures
            *r == self.intended(),
    {
        &self.value
    }

    pub(crate) fn into_value(self) -> (r: T)
        ensures
            r == self.intended(),
    {
        self.value
    }
}

} // verus!
