use amp_ctl::binding::ControllerBinding;
use amp_ctl::bool_instruction::BoolInstruction;
use amp_ctl::error::{InstructionError, TransportError};
use amp_ctl::instruction::{Instruction, PendingWrite};
use amp_ctl::int_instruction::IntInstruction;
use amp_ctl::string_instruction::StringInstruction;
use std::collections::HashMap;

/// A device that remembers what was written and reports it back.
struct StubDevice {
    values: HashMap<String, String>,
    sent: Vec<String>,
}

impl StubDevice {
    fn new(initial: &[(&str, &str)]) -> StubDevice {
        let mut values = HashMap::new();
        for (k, v) in initial {
            values.insert(k.to_string(), v.to_string());
        }
        StubDevice { values, sent: Vec::new() }
    }

    fn send_command(&mut self, cmd: &str) -> Result<String, TransportError> {
        self.sent.push(cmd.to_string());
        let parts: Vec<&str> = cmd.split(' ').collect();
        match parts.as_slice() {
            ["GET", attr] => match self.values.get(*attr) {
                Some(v) => Ok(format!("{} {}", attr, v)),
                None => Err(TransportError::TimedOut),
            },
            ["SET", attr, value] => {
                self.values.insert(attr.to_string(), value.to_string());
                Ok(format!("{} {}", attr, value))
            }
            _ => Err(TransportError::NoData),
        }
    }

    fn exchange<T>(&mut self, w: &PendingWrite<T>) -> Result<String, TransportError> {
        self.send_command(w.command())
    }
}

fn volume(dev: &mut StubDevice) -> IntInstruction {
    let reply = dev.send_command("GET SDQLVL").unwrap();
    IntInstruction::new("SDQLVL", Some("Volume level"), -64, 0, 1, &reply).unwrap()
}

fn standby(dev: &mut StubDevice) -> BoolInstruction {
    let reply = dev.send_command("GET STANDBY").unwrap();
    BoolInstruction::new("STANDBY", Some("Standby"), &reply).unwrap()
}

static SOURCES: [&str; 4] = ["A", "B", "AB", "WL"];

fn source(dev: &mut StubDevice) -> StringInstruction {
    let reply = dev.send_command("GET SELECT").unwrap();
    StringInstruction::new("SELECT", Some("Select a source"), &SOURCES, &reply)
}

#[test]
fn int_set_out_of_range_sends_nothing() {
    let mut dev = StubDevice::new(&[("SDQLVL", "-30")]);
    let mut vol = volume(&mut dev);
    dev.sent.clear();
    let r = vol.set(5);
    match r {
        Err(InstructionError::OutOfRange { value, min, max }) => {
            assert_eq!((value, min, max), (5, -64, 0));
        }
        _ => panic!("expected an out-of-range error"),
    }
    assert_eq!(vol.cached(), -30);
    assert_eq!(dev.sent.len(), 0);
    let below = vol.set(-65);
    assert!(matches!(below, Err(InstructionError::OutOfRange { value: -65, .. })));
    let w = vol.set(-64).unwrap();
    let out = dev.exchange(&w);
    assert!(vol.complete(w, out).is_ok());
    assert_eq!(vol.cached(), -64);
}

#[test]
fn int_set_then_get_round_trip() {
    let mut dev = StubDevice::new(&[("SDQLVL", "-30")]);
    let mut vol = volume(&mut dev);
    for v in [-64, -1, 0, -30] {
        let w = vol.set(v).unwrap();
        assert_eq!(w.command(), format!("SET SDQLVL {}", v));
        assert_eq!(*w.value(), v);
        let out = dev.exchange(&w);
        let ack = vol.complete(w, out).unwrap();
        assert_eq!(ack, format!("SDQLVL {}", v));
        assert_eq!(vol.cached(), v);
        let reply = dev.send_command(&vol.get_request()).unwrap();
        assert_eq!(vol.get(&reply).unwrap(), v);
    }
}

#[test]
fn int_inc_dec_at_bounds() {
    let mut dev = StubDevice::new(&[("EQBASS", "12")]);
    let reply = dev.send_command("GET EQBASS").unwrap();
    let mut bass = IntInstruction::new("EQBASS", None, -14, 14, 2, &reply).unwrap();
    assert_eq!(bass.cached(), 12);
    let w = bass.inc().unwrap();
    assert_eq!(w.command(), "SET EQBASS 14");
    let out = dev.exchange(&w);
    bass.complete(w, out).unwrap();
    assert_eq!(bass.cached(), 14);
    dev.sent.clear();
    assert!(matches!(bass.inc(), Err(InstructionError::OutOfRange { value: 16, min: -14, max: 14 })));
    assert_eq!(dev.sent.len(), 0);
    assert_eq!(bass.cached(), 14);
    let w = bass.dec().unwrap();
    assert_eq!(w.command(), "SET EQBASS 12");
    let out = dev.exchange(&w);
    bass.complete(w, out).unwrap();
    assert_eq!(bass.cached(), 12);
}

#[test]
fn int_dec_below_min_fails() {
    let mut dev = StubDevice::new(&[("SDQLVL", "-64")]);
    let vol = volume(&mut dev);
    assert!(matches!(vol.dec(), Err(InstructionError::OutOfRange { value: -65, min: -64, max: 0 })));
    assert_eq!(vol.cached(), -64);
}

#[test]
fn int_transport_failure_keeps_cache() {
    let mut dev = StubDevice::new(&[("SDQLVL", "-30")]);
    let mut vol = volume(&mut dev);
    let w = vol.inc().unwrap();
    let r = vol.complete(w, Err(TransportError::TimedOut));
    assert!(matches!(r, Err(InstructionError::Transport(TransportError::TimedOut))));
    assert_eq!(vol.cached(), -30);
}

#[test]
fn int_get_rejects_non_numeric() {
    let mut dev = StubDevice::new(&[("SDQLVL", "-30")]);
    let mut vol = volume(&mut dev);
    assert!(matches!(vol.get("SDQLVL loud"), Err(InstructionError::InvalidNumber { .. })));
    assert!(matches!(vol.get("SDQLVL 99999999999"), Err(InstructionError::InvalidNumber { .. })));
    assert_eq!(vol.cached(), -30);
    assert_eq!(vol.get("SDQLVL  -7 \n").unwrap(), -7);
    assert_eq!(vol.cached(), -7);
    let bad = IntInstruction::new("SDQLVL", None, -64, 0, 1, "SDQLVL ?");
    assert!(matches!(bad, Err(InstructionError::InvalidNumber { .. })));
}

#[test]
fn bool_toggle_standby() {
    let mut dev = StubDevice::new(&[("STANDBY", "OFF")]);
    let mut sb = standby(&mut dev);
    assert!(!sb.cached());
    let w = sb.toggle();
    assert_eq!(w.command(), "SET STANDBY ON");
    let out = dev.exchange(&w);
    sb.complete(w, out).unwrap();
    assert!(sb.cached());
    let w = sb.toggle();
    assert_eq!(w.command(), "SET STANDBY OFF");
    let out = dev.exchange(&w);
    sb.complete(w, out).unwrap();
    assert!(!sb.cached());
}

#[test]
fn bool_toggle_twice_restores() {
    for initial in ["ON", "OFF"] {
        let mut dev = StubDevice::new(&[("STANDBY", initial)]);
        let mut sb = standby(&mut dev);
        let before = sb.cached();
        for _ in 0..2 {
            let w = sb.toggle();
            let out = dev.exchange(&w);
            sb.complete(w, out).unwrap();
        }
        assert_eq!(sb.cached(), before);
    }
}

#[test]
fn bool_set_then_get_round_trip() {
    let mut dev = StubDevice::new(&[("STANDBY", "ON")]);
    let mut sb = standby(&mut dev);
    for v in [false, true] {
        let w = sb.set(v);
        let out = dev.exchange(&w);
        sb.complete(w, out).unwrap();
        let reply = dev.send_command(&sb.get_request()).unwrap();
        assert_eq!(sb.get(&reply).unwrap(), v);
    }
}

#[test]
fn bool_state_vocabulary() {
    assert_eq!(BoolInstruction::state_to_bool(" ON \n").unwrap(), true);
    assert_eq!(BoolInstruction::state_to_bool("OFF").unwrap(), false);
    match BoolInstruction::state_to_bool("on") {
        Err(InstructionError::InvalidState { state }) => assert_eq!(state, "on"),
        _ => panic!("expected an invalid state"),
    }
    assert!(BoolInstruction::new("STANDBY", None, "STANDBY MAYBE").is_err());
}

#[test]
fn string_disallowed_sends_nothing() {
    let mut dev = StubDevice::new(&[("SELECT", "A")]);
    let sel = source(&mut dev);
    dev.sent.clear();
    match sel.set("C") {
        Err(InstructionError::NotAllowed { value }) => assert_eq!(value, "C"),
        _ => panic!("expected a not-allowed error"),
    }
    assert!(sel.set("").is_err());
    assert!(sel.set("ab").is_err());
    assert_eq!(dev.sent.len(), 0);
    assert_eq!(sel.cached(), "A");
}

#[test]
fn string_set_then_get_round_trip() {
    let mut dev = StubDevice::new(&[("SELECT", "A")]);
    let mut sel = source(&mut dev);
    assert_eq!(sel.cached(), "A");
    for v in ["WL", "AB", "B"] {
        let w = sel.set(v).unwrap();
        assert_eq!(w.command(), format!("SET SELECT {}", v));
        let out = dev.exchange(&w);
        sel.complete(w, out).unwrap();
        assert_eq!(sel.cached(), v);
        let reply = dev.send_command(&sel.get_request()).unwrap();
        assert_eq!(sel.get(&reply), v);
    }
    assert_eq!(sel.allowed_values().len(), 4);
}

#[test]
fn base_instruction_requests_and_echo() {
    let i = Instruction::new("SDQLVL", None);
    assert_eq!(i.attr(), "SDQLVL");
    assert_eq!(i.description(), "No description");
    assert_eq!(Instruction::new("X", Some("Label")).description(), "Label");
    assert_eq!(i.get_request(), "GET SDQLVL");
    assert_eq!(i.get("SDQLVL -30"), "-30");
    assert_eq!(i.get("-30"), "-30");
    // every occurrence of the echoed token is removed, not just a leading one
    assert_eq!(i.get("SDQLVL 1SDQLVL 2"), "12");
}

#[test]
fn binding_seed_and_init() {
    let reqs = ControllerBinding::seed_requests();
    assert_eq!(
        reqs,
        vec!["GET STANDBY", "GET SELECT", "GET SDQLVL", "GET BALANCE", "GET EQBASS", "GET EQTREB"]
    );
    let b = ControllerBinding::init(
        "STANDBY OFF",
        "SELECT AB",
        "SDQLVL -30",
        "BALANCE 0",
        "EQBASS -2",
        "EQTREB 4",
    )
    .unwrap();
    assert!(!b.standby.cached());
    assert_eq!(b.source_select.cached(), "AB");
    assert_eq!((b.volume.cached(), b.volume.min(), b.volume.max(), b.volume.step()), (-30, -64, 0, 1));
    assert_eq!((b.balance.min(), b.balance.max(), b.balance.step()), (-31, 31, 1));
    assert_eq!((b.eq_bass.cached(), b.eq_bass.step()), (-2, 2));
    assert_eq!((b.eq_treble.cached(), b.eq_treble.min(), b.eq_treble.max()), (4, -14, 14));
    assert_eq!(b.volume.description(), "Volume level");
    let bad = ControllerBinding::init("STANDBY OFF", "SELECT A", "SDQLVL x", "BALANCE 0", "EQBASS 0", "EQTREB 0");
    assert!(matches!(bad, Err(InstructionError::InvalidNumber { .. })));
}

#[test]
fn error_messages() {
    let e = InstructionError::OutOfRange { value: 5, min: -64, max: 0 };
    assert_eq!(e.message(), "Value 5 out of range [-64, 0]");
    let e = InstructionError::NotAllowed { value: "C".to_string() };
    assert_eq!(e.message(), "Value C not allowed");
    let e = InstructionError::InvalidState { state: "on".to_string() };
    assert_eq!(e.message(), "Invalid boolean state: on");
    let e = InstructionError::InvalidNumber { text: "x".to_string() };
    assert_eq!(e.message(), "Invalid number: x");
    let e = InstructionError::Transport(TransportError::Read { reason: "broken".to_string() });
    assert_eq!(e.message(), "Read failed: broken");
    assert_eq!(TransportError::NoData.message(), "Empty reply");
}

#[test]
fn reads_update_the_cache() {
    let mut dev = StubDevice::new(&[("SDQLVL", "-30"), ("STANDBY", "OFF"), ("SELECT", "A")]);
    let mut vol = volume(&mut dev);
    let mut sb = standby(&mut dev);
    let mut sel = source(&mut dev);
    // another controller changes the device behind this process's back
    dev.values.insert("SDQLVL".to_string(), "-12".to_string());
    dev.values.insert("STANDBY".to_string(), "ON".to_string());
    dev.values.insert("SELECT".to_string(), "WL".to_string());
    let reply = dev.send_command(&vol.get_request()).unwrap();
    assert_eq!(vol.get(&reply).unwrap(), -12);
    assert_eq!(vol.cached(), -12);
    let reply = dev.send_command(&sb.get_request()).unwrap();
    assert!(sb.get(&reply).unwrap());
    assert!(sb.cached());
    let reply = dev.send_command(&sel.get_request()).unwrap();
    assert_eq!(sel.get(&reply), "WL");
    assert_eq!(sel.cached(), "WL");
    // a failed read leaves the cache alone
    assert!(sb.get("STANDBY ??").is_err());
    assert!(sb.cached());
    // the next step starts from the value read
    let w = vol.inc().unwrap();
    assert_eq!(w.command(), "SET SDQLVL -11");
    assert_eq!(w.attr(), "SDQLVL");
}

static SPACED: [&str; 2] = ["LINE IN", "B"];

#[test]
fn string_round_trip_with_space() {
    let mut dev = StubDevice::new(&[("SELECT", "B")]);
    let reply = dev.send_command("GET SELECT").unwrap();
    let mut sel = StringInstruction::new("SELECT", None, &SPACED, &reply);
    let w = sel.set("LINE IN").unwrap();
    assert_eq!(w.command(), "SET SELECT LINE IN");
    sel.complete(w, Ok("OK".to_string())).unwrap();
    assert_eq!(sel.cached(), "LINE IN");
    assert_eq!(sel.get("SELECT LINE IN"), "LINE IN");
}
