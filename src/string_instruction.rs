//! An attribute whose value is one of a fixed set of tokens.
use vstd::prelude::*;
use crate::error::{InstructionError, TransportError};
use crate::instruction::{get_line, label, raw_reading, set_line, set_request_line, Instruction, PendingWrite};
use crate::text::same_text;

verus! {

/// What an enumerated-string instruction is, as the contracts see it.
pub struct StringState {
    pub name: Seq<char>,
    pub description: Seq<char>,
    pub cached: Seq<char>,
    pub allowed: Seq<Seq<char>>,
}

impl StringState {
    /// Whether `v` is one of the allowed tokens.
    pub open spec fn allows(self, v: Seq<char>) -> bool {
        exists|i: int| 0 <= i < self.allowed.len() && #[trigger] self.allowed[i] == v
    }

    /// The state after the device acknowledged a write of `v`.
    pub open spec fn acknowledge(self, v: Seq<char>) -> StringState {
        StringState { cached: v, ..self }
    }

    /// The value a reply to `GET` reports.
    pub open spec fn reading(self, response: Seq<char>) -> Seq<char> {
        raw_reading(self.name, response)
    }
}

/// An enumerated-string attribute with a cached last-known value.
///
/// A value read from the device, at construction or by `get`, is taken as
/// it is, without checking it against the allowed tokens; every write is
/// checked before it is sent, and only an allowed value completes one.
pub struct StringInstruction {
    value: String,
    base: Instruction,
    allowed_values: &'static [&'static str],
}

pub open spec fn token_views(values: Seq<&'static str>) -> Seq<Seq<char>> {
    values.map_values(|s: &'static str| s@)
}

impl View for StringInstruction {
    type V = StringState;

    closed spec fn view(&self) -> StringState {
        StringState {
            name: self.base.attr@,
            description: label(self.base.description),
            cached: self.value@,
            allowed: token_views(self.allowed_values@),
        }
    }
}

impl StringInstruction {
    /// Builds the instruction from the device's reply to its `GET` request,
    /// which seeds the cache.
    pub fn new(
        attr: &'static str,
        description: Option<&'static str>,
        allowed_values: &'static [&'static str],
        response: &str,
    ) -> (r: StringInstruction)
        requires
            allowed_values@.len() > 0,
        ensures
            r@.name == attr@,
            r@.description == label(description),
            r@.allowed == token_views(allowed_values@),
            r@.cached == raw_reading(attr@, response@),
    {
        let base = Instruction::new(attr, description);
        let value = base.get(response);
        StringInstruction { value, base, allowed_values }
    }

    pub fn attr(&self) -> (r: &str)
        ensures
            r@ == self@.name,
    {
        self.base.attr()
    }

    pub fn description(&self) -> (r: &str)
        ensures
            r@ == self@.description,
    {
        self.base.description()
    }

    /// The last value this process read or wrote.
    pub fn cached(&self) -> (r: &str)
        ensures
            r@ == self@.cached,
    {
        self.value.as_str()
    }

    pub fn allowed_values(&self) -> (r: &'static [&'static str])
        ensures
            token_views(r@) == self@.allowed,
    {
        self.allowed_values
    }

    /// The request that reads the attribute.
    pub fn get_request(&self) -> (r: String)
        ensures
            r@ == get_line(self@.name),
    {
        self.base.get_request()
    }

    /// The value in the device's reply to `GET`, which becomes the cached
    /// value; like the seeded value, it is taken from the device as it is.
    pub fn get(&mut self, response: &str) -> (r: String)
        ensures
            r@ == old(self)@.reading(response@),
            final(self)@ == old(self)@.acknowledge(r@),
    {
        let v = self.base.get(response);
        self.value = v.clone();
        v
    }

    /// Whether `value` is one of the allowed tokens.
    pub fn is_allowed(&self, value: &str) -> (r: bool)
        ensures
            r == self@.allows(value@),
    {
        let n = self.allowed_values.len();
        let mut i: usize = 0;
        while i < n
            invariant
                i <= n,
                n == self.allowed_values@.len(),
                forall|k: int| 0 <= k < i ==> self@.allowed[k] != value@,
            decreases n - i,
        {
            if same_text(self.allowed_values[i], value) {
                assert(self@.allowed[i as int] == value@);
                return true;
            }
            i = i + 1;
        }
        false
    }

    /// The write of `value`, or a not-allowed error if it is not one of the
    /// allowed tokens; in that case there is nothing to send.
    pub fn set(&self, value: &str) -> (r: Result<PendingWrite<String>, InstructionError>)
        ensures
            r is Ok <==> self@.allows(value@),
            match r {
                Ok(w) => w.target() == self@.name && w.intended()@ == value@ && w.line() == set_line(self@.name, value@),
                Err(e) => e is NotAllowed && e->NotAllowed_value@ == value@,
            },
    {
        if !self.is_allowed(value) {
            return Err(InstructionError::NotAllowed { value: String::from_str(value) });
        }
        let line = set_request_line(self.base.attr, value);
        Ok(PendingWrite::new(self.base.attr, line, String::from_str(value)))
    }

    /// Finishes a write with what the transport reported: on success the
    /// cache takes the written value and the device's acknowledgement is
    /// returned; on failure the cache is left as it was.
    pub fn complete(
        &mut self,
        write: PendingWrite<String>,
        outcome: Result<String, TransportError>,
    ) -> (r: Result<String, InstructionError>)
        requires
            write.target() == old(self)@.name,
            old(self)@.allows(write.intended()@),
        ensures
            match outcome {
                Ok(ack) => r == Ok::<String, InstructionError>(ack)
                    && final(self)@ == old(self)@.acknowledge(write.intended()@),
                Err(e) => r == Err::<String, InstructionError>(InstructionError::Transport(e))
                    && final(self)@ == old(self)@,
            },
    {
        match outcome {
            Ok(ack) => {
                self.value = write.into_value();
                Ok(ack)
            },
            Err(e) => Err(InstructionError::Transport(e)),
        }
    }
}

} // verus!
