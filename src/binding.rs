//! The fixed table of the receiver's attributes, built once at startup from
//! the device's replies to their `GET` requests.
use vstd::prelude::*;
use crate::bool_instruction::{state_value, BoolInstruction};
use crate::decimal::parse_i32;
use crate::error::InstructionError;
use crate::instruction::{get_line, get_request_line, raw_reading};
use crate::int_instruction::IntInstruction;
use crate::string_instruction::{token_views, StringInstruction};
use crate::text::trimmed;

verus! {

/// Whether the reply to `GET <name>` seeds an integer instruction.
pub open spec fn int_seeds(name: Seq<char>, response: Seq<char>) -> bool {
    parse_i32(trimmed(raw_reading(name, response))) is Some
}

/// Whether the reply to `GET <name>` seeds a boolean instruction.
pub open spec fn bool_seeds(name: Seq<char>, response: Seq<char>) -> bool {
    state_value(raw_reading(name, response)) is Some
}

/// Whether `inst` is the integer attribute `name` with the given label and
/// bounds, seeded from `response`.
pub open spec fn int_bound(
    inst: IntInstruction,
    name: Seq<char>,
    description: Seq<char>,
    min: int,
    max: int,
    step: int,
    response: Seq<char>,
) -> bool {
    &&& inst@.wf()
    &&& inst@.name == name
    &&& inst@.description == description
    &&& inst@.min == min && inst@.max == max && inst@.step == step
    &&& inst@.reading(response) == Some(inst@.cached)
}

/// The receiver's attributes, each bound to its wire token.
pub struct ControllerBinding {
    pub standby: BoolInstruction,
    pub source_select: StringInstruction,
    pub volume: IntInstruction,
    pub balance: IntInstruction,
    pub eq_bass: IntInstruction,
    pub eq_treble: IntInstruction,
}

impl ControllerBinding {
    /// The `GET` requests whose replies `init` takes, in the order of its
    /// parameters.
    pub fn seed_requests() -> (r: Vec<String>)
        ensures
            r@.len() == 6,
            r@[0]@ == get_line("STANDBY"@),
            r@[1]@ == get_line("SELECT"@),
            r@[2]@ == get_line("SDQLVL"@),
            r@[3]@ == get_line("BALANCE"@),
            r@[4]@ == get_line("EQBASS"@),
            r@[5]@ == get_line("EQTREB"@),
    {
        let mut r: Vec<String> = Vec::new();
        r.push(get_request_line("STANDBY"));
        r.push(get_request_line("SELECT"));
        r.push(get_request_line("SDQLVL"));
        r.push(get_request_line("BALANCE"));
        r.push(get_request_line("EQBASS"));
        r.push(get_request_line("EQTREB"));
        r
    }

    /// Builds every instruction from the device's reply to its `GET`
    /// request; fails with the first reply that does not parse.
    pub fn init(
        standby: &str,
        source_select: &str,
        volume: &str,
        balance: &str,
        eq_bass: &str,
        eq_treble: &str,
    ) -> (r: Result<ControllerBinding, InstructionError>)
        ensures
            r is Ok <==> bool_seeds("STANDBY"@, standby@) && int_seeds("SDQLVL"@, volume@)
                && int_seeds("BALANCE"@, balance@) && int_seeds("EQBASS"@, eq_bass@)
                && int_seeds("EQTREB"@, eq_treble@),
            match r {
                Ok(b) => {
                    &&& b.standby@.name == "STANDBY"@
                    &&& b.standby@.description == "Standby"@
                    &&& b.standby@.reading(standby@) == Some(b.standby@.cached)
                    &&& b.source_select@.name == "SELECT"@
                    &&& b.source_select@.description == "Select a source"@
                    &&& b.source_select@.allowed == seq!["A"@, "B"@, "AB"@, "WL"@]
                    &&& b.source_select@.cached == raw_reading("SELECT"@, source_select@)
                    &&& int_bound(b.volume, "SDQLVL"@, "Volume level"@, -64, 0, 1, volume@)
                    &&& int_bound(b.balance, "BALANCE"@, "Left - right balance"@, -31, 31, 1, balance@)
                    &&& int_bound(b.eq_bass, "EQBASS"@, "Equalizer bass"@, -14, 14, 2, eq_bass@)
                    &&& int_bound(b.eq_treble, "EQTREB"@, "Equalizer treble"@, -14, 14, 2, eq_treble@)
                },
                Err(e) => if bool_seeds("STANDBY"@, standby@) {
                    e is InvalidNumber
                } else {
                    e is InvalidState
                },
            },
    {
        let sources: &'static [&'static str] = &["A", "B", "AB", "WL"];
        assert(token_views(sources@) =~= seq!["A"@, "B"@, "AB"@, "WL"@]);
        let standby = BoolInstruction::new("STANDBY", Some("Standby"), standby)?;
        let source_select = StringInstruction::new(
            "SELECT",
            Some("Select a source"),
            sources,
            source_select,
        );
        let volume = IntInstruction::new("SDQLVL", Some("Volume level"), -64, 0, 1, volume)?;
        let balance = IntInstruction::new(
            "BALANCE",
            Some("Left - right balance"),
            -31,
            31,
            1,
            balance,
        )?;
        let eq_bass = IntInstruction::new("EQBASS", Some("Equalizer bass"), -14, 14, 2, eq_bass)?;
        let eq_treble = IntInstruction::new(
            "EQTREB",
            Some("Equalizer treble"),
            -14,
            14,
            2,
            eq_treble,
        )?;
        Ok(ControllerBinding { standby, source_select, volume, balance, eq_bass, eq_treble })
    }
}

} // verus!
