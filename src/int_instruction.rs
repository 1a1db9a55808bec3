//! A numeric attribute with bounds and a step.
use vstd::prelude::*;
use crate::decimal::{decimal, format_decimal, parse_decimal, parse_i32};
use crate::error::{InstructionError, TransportError};
use crate::instruction::{get_line, label, raw_reading, set_line, set_request_line, Instruction, PendingWrite};
use crate::text::{trim, trimmed};

verus! {

/// What an integer instruction is, as the contracts see it.
pub struct IntState {
    pub name: Seq<char>,
    pub description: Seq<char>,
    pub cached: int,
    pub min: int,
    pub max: int,
    pub step: int,
}

impl IntState {
    pub open spec fn wf(self) -> bool {
        self.min <= self.max && self.step > 0
    }

    /// The value a `set` of `v` would write, if `v` is within bounds.
    pub open spec fn set_plan(self, v: int) -> Option<int> {
        if self.min <= v && v <= self.max {
            Some(v)
        } else {
            None
        }
    }

    /// The value `inc` would write: one step up, unless that passes `max`.
    pub open spec fn inc_plan(self) -> Option<int> {
        if self.cached + self.step <= self.max {
            Some(self.cached + self.step)
        } else {
            None
        }
    }

    /// The value `dec` would write: one step down, unless that passes `min`.
    pub open spec fn dec_plan(self) -> Option<int> {
        if self.cached - self.step >= self.min {
            Some(self.cached - self.step)
        } else {
            None
        }
    }

    /// The state after the device acknowledged a write of `v`.
    pub open spec fn acknowledge(self, v: int) -> IntState {
        IntState { cached: v, ..self }
    }

    /// The number a reply to `GET` stands for, if it is one.
    pub open spec fn reading(self, response: Seq<char>) -> Option<int> {
        parse_i32(trimmed(raw_reading(self.name, response)))
    }
}

/// An integer attribute with a cached last-known value.
pub struct IntInstruction {
    value: i32,
    base: Instruction,
    min: i32,
    max: i32,
    step: i32,
}

impl View for IntInstruction {
    type V = IntState;

    closed spec fn view(&self) -> IntState {
        IntState {
            name: self.base.attr@,
            description: label(self.base.description),
            cached: self.value as int,
            min: self.min as int,
            max: self.max as int,
            step: self.step as int,
        }
    }
}

/// Reads an integer reply: the echo removed, surrounding whitespace trimmed.
fn read_int(base: &Instruction, response: &str) -> (r: Result<i32, InstructionError>)
    ensures
        match r {
            Ok(v) => parse_i32(trimmed(raw_reading(base.attr@, response@))) == Some(v as int),
            Err(e) => parse_i32(trimmed(raw_reading(base.attr@, response@))) is None
                && e is InvalidNumber,
        },
{
    let raw = base.get(response);
    let text = trim(raw.as_str());
    match parse_decimal(text) {
        Some(v) => Ok(v),
        None => Err(InstructionError::InvalidNumber { text: String::from_str(text) }),
    }
}

impl IntInstruction {
    /// Builds the instruction from the device's reply to its `GET` request,
    /// which seeds the cache.
    pub fn new(
        attr: &'static str,
        description: Option<&'static str>,
        min: i32,
        max: i32,
        step: i32,
        response: &str,
    ) -> (r: Result<IntInstruction, InstructionError>)
        requires
            min <= max,
            step > 0,
        ensures
            match r {
                Ok(inst) => {
                    &&& inst@.wf()
                    &&& inst@.name == attr@
                    &&& inst@.description == label(description)
                    &&& inst@.min == min && inst@.max == max && inst@.step == step
                    &&& inst@.reading(response@) == Some(inst@.cached)
                },
                Err(e) => e is InvalidNumber && parse_i32(
                    trimmed(raw_reading(attr@, response@)),
                ) is None,
            },
    {
        let base = Instruction::new(attr, description);
        match read_int(&base, response) {
            Ok(value) => Ok(IntInstruction { value, base, min, max, step }),
            Err(e) => Err(e),
        }
    }

    pub fn attr(&self) -> (r: &str)
        ensures
            r@ == self@.name,
    {
        self.base.attr()
    }

    pub fn description(&self) -> (r: &str)
        ensures
            r@ == self@.description,
    {
        self.base.description()
    }

    /// The last value this process read or wrote.
    pub fn cached(&self) -> (r: i32)
        ensures
            r == self@.cached,
    {
        self.value
    }

    pub fn min(&self) -> (r: i32)
        ensures
            r == self@.min,
    {
        self.min
    }

    pub fn max(&self) -> (r: i32)
        ensures
            r == self@.max,
    {
        self.max
    }

    pub fn step(&self) -> (r: i32)
        ensures
            r == self@.step,
    {
        self.step
    }

    /// The request that reads the attribute.
    pub fn get_request(&self) -> (r: String)
        ensures
            r@ == get_line(self@.name),
    {
        self.base.get_request()
    }

    /// The number in the device's reply to `GET`; a number read becomes
    /// the cached value.
    pub fn get(&mut self, response: &str) -> (r: Result<i32, InstructionError>)
        ensures
            match r {
                Ok(v) => old(self)@.reading(response@) == Some(v as int) && final(self)@ == old(self)@.acknowledge(v as int),
                Err(e) => old(self)@.reading(response@) is None && e is InvalidNumber && final(self)@ == old(self)@,
            },
    {
        let r = read_int(&self.base, response);
        if let Ok(v) = r {
            self.value = v;
        }
        r
    }

    /// The write of `target`: `SET <ATTR> <target>`.
    fn write_of(&self, target: i32) -> (r: PendingWrite<i32>)
        ensures
            r.target() == self@.name,
            r.intended() == target,
            r.line() == set_line(self@.name, decimal(target as int)),
    {
        let text = format_decimal(target as i64);
        let line = set_request_line(self.base.attr, text.as_str());
        PendingWrite::new(self.base.attr, line, target)
    }

    /// Checks `target` against the bounds and, if it is within them, gives
    /// the write of it.
    fn plan_write(&self, target: i64) -> (r: Result<PendingWrite<i32>, InstructionError>)
        ensures
            match r {
                Ok(w) => w.target() == self@.name && self@.set_plan(target as int) == Some(
                    w.intended() as int,
                )
                    && w.line() == set_line(self@.name, decimal(target as int)),
                Err(e) => self@.set_plan(target as int) is None && e == (InstructionError::OutOfRange {
                    value: target,
                    min: self.min,
                    max: self.max,
                }),
            },
    {
        if target < self.min as i64 || target > self.max as i64 {
            return Err(InstructionError::OutOfRange { value: target, min: self.min, max: self.max });
        }
        Ok(self.write_of(target as i32))
    }

    /// The write of `value`, or an out-of-range error if it is not within
    /// `[min, max]`; in that case there is nothing to send.
    pub fn set(&self, value: i32) -> (r: Result<PendingWrite<i32>, InstructionError>)
        ensures
            r is Ok <==> self@.set_plan(value as int) is Some,
            match r {
                Ok(w) => w.target() == self@.name && w.intended() == value && w.line() == set_line(
                    self@.name,
                    decimal(value as int),
                ),
                Err(e) => e == (InstructionError::OutOfRange {
                    value: value as i64,
                    min: self@.min as i32,
                    max: self@.max as i32,
                }),
            },
    {
        self.plan_write(value as i64)
    }

    /// The write of the cached value plus one step, or an out-of-range error
    /// if that passes `max`.
    pub fn inc(&self) -> (r: Result<PendingWrite<i32>, InstructionError>)
        requires
            self@.wf(),
        ensures
            r is Ok <==> self@.inc_plan() is Some,
            match r {
                Ok(w) => w.target() == self@.name && self@.inc_plan() == Some(w.intended() as int) && w.line() == set_line(
                    self@.name,
                    decimal(self@.cached + self@.step),
                ),
                Err(e) => e == (InstructionError::OutOfRange {
                    value: (self@.cached + self@.step) as i64,
                    min: self@.min as i32,
                    max: self@.max as i32,
                }),
            },
    {
        let target = self.value as i64 + self.step as i64;
        if target > self.max as i64 {
            return Err(InstructionError::OutOfRange { value: target, min: self.min, max: self.max });
        }
        Ok(self.write_of(target as i32))
    }

    /// The write of the cached value minus one step, or an out-of-range
    /// error if that passes `min`.
    pub fn dec(&self) -> (r: Result<PendingWrite<i32>, InstructionError>)
        requires
            self@.wf(),
        ensures
            r is Ok <==> self@.dec_plan() is Some,
            match r {
                Ok(w) => w.target() == self@.name && self@.dec_plan() == Some(w.intended() as int) && w.line() == set_line(
                    self@.name,
                    decimal(self@.cached - self@.step),
                ),
                Err(e) => e == (InstructionError::OutOfRange {
                    value: (self@.cached - self@.step) as i64,
                    min: self@.min as i32,
                    max: self@.max as i32,
                }),
            },
    {
        let target = self.value as i64 - self.step as i64;
        if target < self.min as i64 {
            return Err(InstructionError::OutOfRange { value: target, min: self.min, max: self.max });
        }
        Ok(self.write_of(target as i32))
    }

    /// Finishes a write with what the transport reported: on success the
    /// cache takes the written value and the device's acknowledgement is
    /// returned; on failure the cache is left as it was.
    pub fn complete(
        &mut self,
        write: PendingWrite<i32>,
        outcome: Result<String, TransportError>,
    ) -> (r: Result<String, InstructionError>)
        requires
            write.target() == old(self)@.name,
        ensures
            match outcome {
                Ok(ack) => r == Ok::<String, InstructionError>(ack)
                    && final(self)@ == old(self)@.acknowledge(write.intended() as int),
                Err(e) => r == Err::<String, InstructionError>(InstructionError::Transport(e))
                    && final(self)@ == old(self)@,
            },
    {
        match outcome {
            Ok(ack) => {
                self.value = write.into_value();
                Ok(ack)
            },
            Err(e) => Err(InstructionError::Transport(e)),
        }
    }
}

} // verus!
