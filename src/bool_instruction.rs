//! An on/off attribute.
use vstd::prelude::*;
use crate::error::{InstructionError, TransportError};
use crate::instruction::{get_line, label, raw_reading, set_line, set_request_line, Instruction, PendingWrite};
use crate::text::{same_text, trim, trimmed};

verus! {

/// The wire token of a boolean: `ON` or `OFF`.
pub open spec fn state_token(b: bool) -> Seq<char> {
    if b {
        seq!['O', 'N']
    } else {
        seq!['O', 'F', 'F']
    }
}

/// The boolean a token stands for, once trimmed of surrounding whitespace.
pub open spec fn state_value(s: Seq<char>) -> Option<bool> {
    if trimmed(s) == seq!['O', 'N'] {
        Some(true)
    } else if trimmed(s) == seq!['O', 'F', 'F'] {
        Some(false)
    } else {
        None
    }
}

/// What a boolean instruction is, as the contracts see it.
pub struct BoolState {
    pub name: Seq<char>,
    pub description: Seq<char>,
    pub cached: bool,
}

impl BoolState {
    /// The value `toggle` would write.
    pub open spec fn toggle_plan(self) -> bool {
        !self.cached
    }

    /// The state after the device acknowledged a write of `v`.
    pub open spec fn acknowledge(self, v: bool) -> BoolState {
        BoolState { cached: v, ..self }
    }

    /// The boolean a reply to `GET` stands for, if any.
    pub open spec fn reading(self, response: Seq<char>) -> Option<bool> {
        state_value(raw_reading(self.name, response))
    }
}

/// A boolean attribute with a cached last-known value.
pub struct BoolInstruction {
    value: bool,
    base: Instruction,
}

impl View for BoolInstruction {
    type V = BoolState;

    closed spec fn view(&self) -> BoolState {
        BoolState {
            name: self.base.attr@,
            description: label(self.base.description),
            cached: self.value,
        }
    }
}

impl BoolInstruction {
    /// Builds the instruction from the device's reply to its `GET` request,
    /// which seeds the cache.
    pub fn new(attr: &'static str, description: Option<&'static str>, response: &str) -> (r:
        Result<BoolInstruction, InstructionError>)
        ensures
            match r {
                Ok(inst) => inst@.name == attr@ && inst@.description == label(description)
                    && state_value(raw_reading(attr@, response@))
                    == Some(inst@.cached),
                Err(e) => state_value(raw_reading(attr@, response@)) is None
                    && e is InvalidState,
            },
    {
        let base = Instruction::new(attr, description);
        let raw = base.get(response);
        match BoolInstruction::state_to_bool(raw.as_str()) {
            Ok(value) => Ok(BoolInstruction { value, base }),
            Err(e) => Err(e),
        }
    }

    fn bool_to_state(value: bool) -> (r: &'static str)
        ensures
            r@ == state_token(value),
    {
        proof {
            reveal_strlit("ON");
            reveal_strlit("OFF");
        }
        assert("ON"@ =~= seq!['O', 'N']);
        assert("OFF"@ =~= seq!['O', 'F', 'F']);
        if value {
            "ON"
        } else {
            "OFF"
        }
    }

    /// Maps `ON` to `true` and `OFF` to `false`, ignoring surrounding
    /// whitespace; any other text is an invalid state.
    pub fn state_to_bool(state: &str) -> (r: Result<bool, InstructionError>)
        ensures
            match r {
                Ok(b) => state_value(state@) == Some(b),
                Err(e) => state_value(state@) is None && e is InvalidState && e->state@ == state@,
            },
    {
        proof {
            reveal_strlit("ON");
            reveal_strlit("OFF");
        }
        assert("ON"@ =~= seq!['O', 'N']);
        assert("OFF"@ =~= seq!['O', 'F', 'F']);
        let t = trim(state);
        if same_text(t, "ON") {
            Ok(true)
        } else if same_text(t, "OFF") {
            Ok(false)
        } else {
            Err(InstructionError::InvalidState { state: String::from_str(state) })
        }
    }

    pub fn attr(&self) -> (r: &str)
        ensures
            r@ == self@.name,
    {
        self.base.attr()
    }

    pub fn description(&self) -> (r: &str)
        ensures
            r@ == self@.description,
    {
        self.base.description()
    }

    /// The last value this process read or wrote.
    pub fn cached(&self) -> (r: bool)
        ensures
            r == self@.cached,
    {
        self.value
    }

    /// The request that reads the attribute.
    pub fn get_request(&self) -> (r: String)
        ensures
            r@ == get_line(self@.name),
    {
        self.base.get_request()
    }

    /// The boolean in the device's reply to `GET`; a value read becomes
    /// the cached value.
    pub fn get(&mut self, response: &str) -> (r: Result<bool, InstructionError>)
        ensures
            match r {
                Ok(b) => old(self)@.reading(response@) == Some(b) && final(self)@ == old(self)@.acknowledge(b),
                Err(e) => old(self)@.reading(response@) is None && e is InvalidState && final(self)@ == old(self)@,
            },
    {
        let raw = self.base.get(response);
        let r = BoolInstruction::state_to_bool(raw.as_str());
        if let Ok(b) = r {
            self.value = b;
        }
        r
    }

    /// The write of `value`: `SET <ATTR> ON` or `SET <ATTR> OFF`.
    pub fn set(&self, value: bool) -> (r: PendingWrite<bool>)
        ensures
            r.target() == self@.name,
            r.intended() == value,
            r.line() == set_line(self@.name, state_token(value)),
    {
        let line = set_request_line(self.base.attr, BoolInstruction::bool_to_state(value));
        PendingWrite::new(self.base.attr, line, value)
    }

    /// The write of the negation of the cached value.
    pub fn toggle(&self) -> (r: PendingWrite<bool>)
        ensures
            r.target() == self@.name,
            r.intended() == self@.toggle_plan(),
            r.line() == set_line(self@.name, state_token(self@.toggle_plan())),
    {
        if self.value {
            self.set(false)
        } else {
            self.set(true)
        }
    }

    /// Finishes a write with what the transport reported: on success the
    /// cache takes the written value and the device's acknowledgement is
    /// returned; on failure the cache is left as it was.
    pub fn complete(
        &mut self,
        write: PendingWrite<bool>,
        outcome: Result<String, TransportError>,
    ) -> (r: Result<String, InstructionError>)
        requires
            write.target() == old(self)@.name,
        ensures
            match outcome {
                Ok(ack) => r == Ok::<String, InstructionError>(ack)
                    && final(self)@ == old(self)@.acknowledge(write.intended()),
                Err(e) => r == Err::<String, InstructionError>(InstructionError::Transport(e))
                    && final(self)@ == old(self)@,
            },
    {
        match outcome {
            Ok(ack) => {
                self.value = write.into_value();
                Ok(ack)
            },
            Err(e) => Err(InstructionError::Transport(e)),
        }
    }
}

} // verus!
