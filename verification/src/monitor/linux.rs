//! The decisions of the Linux sensor reader: which chip holds what, how a
//! reading's text becomes a number, and the energy counter behind the
//! processor's power. Reading the chips and files is left to the caller,
//! which hands the readings over as text.

use vstd::prelude::*;
use crate::EngineError;
use crate::monitor::model::Fans;
use crate::util::number::{parse_i128, parse_i32, parsed_integer};
use crate::util::text::{chars_of, occurs_in, str_contains, str_eq, trim, trimmed};

verus! {

/// How many characters come before the first space of `s`.
pub open spec fn unit_free_len(s: Seq<char>) -> nat
    decreases s.len(),
{
    if s.len() == 0 || s[0] == ' ' {
        0
    } else {
        1 + unit_free_len(s.drop_first())
    }
}

/// A reading without its unit: the text before the first space.
pub open spec fn without_unit(s: Seq<char>) -> Seq<char> {
    s.take(unit_free_len(s) as int)
}

proof fn lemma_unit_free_len(s: Seq<char>, i: int)
    requires
        0 <= i <= s.len(),
        forall|j: int| 0 <= j < i ==> s[j] != ' ',
        i == s.len() || s[i] == ' ',
    ensures
        unit_free_len(s) == i,
    decreases i,
{
    if i > 0 {
        let t = s.drop_first();
        assert forall|j: int| 0 <= j < i - 1 implies t[j] != ' ' by {
            assert(t[j] == s[j + 1]);
        }
        if i - 1 < t.len() {
            assert(t[i - 1] == s[i]);
        }
        lemma_unit_free_len(t, i - 1);
    }
}

/// Drops the unit from a sensor reading such as `2400 RPM`.
pub fn remove_unit(string: &str) -> (r: &str)
    ensures
        r@ == without_unit(string@),
{
    let v = chars_of(string);
    let mut i: usize = 0;
    while i < v.len() && v[i] != ' '
        invariant
            v@ == string@,
            i <= v@.len(),
            forall|j: int| 0 <= j < i ==> v@[j] != ' ',
        decreases v@.len() - i,
    {
        i = i + 1;
    }
    proof {
        lemma_unit_free_len(string@, i as int);
    }
    string.substring_char(0, i)
}

/// What the chips read so far were found to hold.
#[derive(Debug, Clone, Copy, PartialEq, Eq, Structural)]
pub enum ChipKind {
    Temperature,
    Fan,
}

/// The kind that applies to a chip: a `coretemp` chip holds temperatures, a
/// chip whose first feature is a fan holds fans, and any other chip is
/// read as the one before it was.
pub open spec fn chip_kind_after(
    previous: Option<ChipKind>,
    chip: Seq<char>,
    first_feature: Option<Seq<char>>,
) -> Option<ChipKind> {
    if occurs_in(chip, "coretemp"@) {
        Some(ChipKind::Temperature)
    } else if first_feature matches Some(f) && occurs_in(f, "fan"@) {
        Some(ChipKind::Fan)
    } else {
        previous
    }
}

/// Decides how the next chip is read.
pub fn next_chip_kind(previous: Option<ChipKind>, chip: &str, first_feature: Option<&str>) -> (r: Option<ChipKind>)
    ensures
        r == chip_kind_after(
            previous,
            chip@,
            match first_feature {
                Some(f) => Some(f@),
                None => None,
            },
        ),
{
    if str_contains(chip, "coretemp") {
        return Some(ChipKind::Temperature);
    }
    match first_feature {
        Some(f) => {
            if str_contains(f, "fan") {
                Some(ChipKind::Fan)
            } else {
                previous
            }
        },
        None => previous,
    }
}

/// One sub-feature of a chip: the feature's name, the sub-feature's name
/// and its value as text, or `None` where it could not be read.
#[derive(Debug, Clone)]
pub struct SensorReading {
    pub feature: String,
    pub sub_feature: String,
    pub value: Option<String>,
}

/// The names and texts of readings.
pub open spec fn readings_view(v: Seq<SensorReading>) -> Seq<(Seq<char>, Seq<char>, Option<Seq<char>>)> {
    Seq::new(
        v.len(),
        |i: int|
            (
                v[i].feature@,
                v[i].sub_feature@,
                match v[i].value {
                    Some(t) => Some(t@),
                    None => None,
                },
            ),
    )
}

/// The fans with a speed recorded under the named feature; other names
/// record nothing.
pub open spec fn with_fan_speed(f: Fans, feature: Seq<char>, speed: i32) -> Fans {
    if feature == "cpu_fan"@ {
        Fans { cpu_speed: Some(speed), gpu_speed: f.gpu_speed, mid_speed: f.mid_speed }
    } else if feature == "gpu_fan"@ {
        Fans { cpu_speed: f.cpu_speed, gpu_speed: Some(speed), mid_speed: f.mid_speed }
    } else if feature == "mid_fan"@ {
        Fans { cpu_speed: f.cpu_speed, gpu_speed: f.gpu_speed, mid_speed: Some(speed) }
    } else {
        f
    }
}

/// The speed that a reading's text gives, if it is a whole number.
pub open spec fn speed_of(text: Seq<char>) -> Option<i32> {
    match parsed_integer(without_unit(text)) {
        Some(v) => if i32::MIN <= v <= i32::MAX { Some(v as i32) } else { None },
        None => None,
    }
}

/// Whether a reading is the input of a fan.
pub open spec fn is_fan_input(r: (Seq<char>, Seq<char>, Option<Seq<char>>)) -> bool {
    occurs_in(r.0, "fan"@) && occurs_in(r.1, "input"@)
}

/// The fans after reading a fan chip's readings in order, and whether all
/// went well: the first fan input that cannot be read as a speed stops
/// the reading.
pub open spec fn fans_after(f: Fans, rs: Seq<(Seq<char>, Seq<char>, Option<Seq<char>>)>) -> (Fans, bool)
    decreases rs.len(),
{
    if rs.len() == 0 {
        (f, true)
    } else if is_fan_input(rs[0]) {
        match rs[0].2 {
            Some(text) => match speed_of(text) {
                Some(speed) => fans_after(with_fan_speed(f, rs[0].0, speed), rs.drop_first()),
                None => (f, false),
            },
            None => (f, false),
        }
    } else {
        fans_after(f, rs.drop_first())
    }
}

proof fn lemma_fans_after_step(f: Fans, rs: Seq<(Seq<char>, Seq<char>, Option<Seq<char>>)>, i: int, g: Fans)
    requires
        0 <= i < rs.len(),
        fans_after(f, rs) == fans_after(g, rs.skip(i)),
    ensures
        fans_after(g, rs.skip(i)) == if is_fan_input(rs[i]) {
            match rs[i].2 {
                Some(text) => match speed_of(text) {
                    Some(speed) => fans_after(with_fan_speed(g, rs[i].0, speed), rs.skip(i + 1)),
                    None => (g, false),
                },
                None => (g, false),
            }
        } else {
            fans_after(g, rs.skip(i + 1))
        },
{
    assert(rs.skip(i).drop_first() =~= rs.skip(i + 1));
    assert(rs.skip(i)[0] == rs[i]);
}

/// Records the fan speeds of a fan chip.
pub fn handle_fan(fans: &mut Fans, readings: &Vec<SensorReading>) -> (r: Result<(), EngineError>)
    ensures
        *final(fans) == fans_after(*old(fans), readings_view(readings@)).0,
        r is Ok <==> fans_after(*old(fans), readings_view(readings@)).1,
        r is Err ==> r == Err::<(), EngineError>(EngineError::InvalidNumber),
{
    let ghost rs = readings_view(readings@);
    let ghost start = *fans;
    let mut i: usize = 0;
    proof {
        assert(rs.skip(0) =~= rs);
    }
    while i < readings.len()
        invariant
            rs == readings_view(readings@),
            start == *old(fans),
            i <= readings@.len(),
            fans_after(start, rs) == fans_after(*fans, rs.skip(i as int)),
        decreases readings@.len() - i,
    {
        let reading = &readings[i];
        proof {
            lemma_fans_after_step(start, rs, i as int, *fans);
        }
        if str_contains(reading.feature.as_str(), "fan") && str_contains(reading.sub_feature.as_str(), "input") {
            match &reading.value {
                Some(text) => {
                    match parse_i32(remove_unit(text.as_str())) {
                        Some(speed) => {
                            record_fan_speed(fans, reading.feature.as_str(), speed);
                        },
                        None => {
                            proof {
                                assert(rs[i as int].2 == Some(text@));
                                assert(is_fan_input(rs[i as int]));
                                assert(speed_of(text@) is None);
                                assert(fans_after(*fans, rs.skip(i as int)) == (*fans, false));
                            }
                            return Err(EngineError::InvalidNumber);
                        },
                    }
                },
                None => {
                    proof {
                        assert(rs[i as int].2 is None);
                        assert(is_fan_input(rs[i as int]));
                    }
                    return Err(EngineError::InvalidNumber);
                },
            }
        }
        i = i + 1;
    }
    proof {
        assert(rs.skip(i as int).len() == 0);
    }
    Ok(())
}

/// Records `speed` under the fan that `feature` names.
pub fn record_fan_speed(fans: &mut Fans, feature: &str, speed: i32)
    ensures
        *final(fans) == with_fan_speed(*old(fans), feature@, speed),
{
    if str_eq(feature, "cpu_fan") {
        fans.cpu_speed = Some(speed);
    } else if str_eq(feature, "gpu_fan") {
        fans.gpu_speed = Some(speed);
    } else if str_eq(feature, "mid_fan") {
        fans.mid_speed = Some(speed);
    }
}

/// Whether a reading is the input of the processor package's temperature.
pub open spec fn is_package_input(r: (Seq<char>, Seq<char>, Option<Seq<char>>)) -> bool {
    occurs_in(r.0, "Package"@) && occurs_in(r.1, "input"@)
}

/// Finds the reading that holds the package temperature of a temperature
/// chip: the first input of a feature named `Package`.
pub fn package_temperature_reading(readings: &Vec<SensorReading>) -> (r: Option<usize>)
    ensures
        match r {
            Some(i) => i < readings@.len() && is_package_input(readings_view(readings@)[i as int])
                && forall|j: int| 0 <= j < i ==> !is_package_input(#[trigger] readings_view(readings@)[j]),
            None => forall|j: int| 0 <= j < readings@.len() ==> !is_package_input(#[trigger] readings_view(readings@)[j]),
        },
{
    let ghost rs = readings_view(readings@);
    let mut i: usize = 0;
    while i < readings.len()
        invariant
            rs == readings_view(readings@),
            i <= readings@.len(),
            forall|j: int| 0 <= j < i ==> !is_package_input(#[trigger] rs[j]),
        decreases readings@.len() - i,
    {
        let reading = &readings[i];
        if str_contains(reading.feature.as_str(), "Package") && str_contains(reading.sub_feature.as_str(), "input") {
            return Some(i);
        }
        i = i + 1;
    }
    None
}

/// The energy counter's value, in microjoules, that a reading of it gives:
/// the trimmed text as a whole number.
pub open spec fn energy_of(raw: Seq<char>) -> Option<i128> {
    match parsed_integer(trim(raw)) {
        Some(v) => if i128::MIN <= v <= i128::MAX { Some(v as i128) } else { None },
        None => None,
    }
}

/// Reads the energy counter's text.
pub fn read_energy_consume(raw: &str) -> (r: Result<i128, EngineError>)
    ensures
        r == match energy_of(raw@) {
            Some(v) => Ok::<i128, EngineError>(v),
            None => Err(EngineError::InvalidNumber),
        },
{
    let t = trimmed(raw);
    match parse_i128(t.as_str()) {
        Some(v) => Ok(v),
        None => Err(EngineError::InvalidNumber),
    }
}

/// The energy used between two readings of the counter and the time that
/// passed between them; the caller turns the two into watts.
#[derive(Debug, Clone, Copy, PartialEq, Eq, Structural)]
pub struct EnergySample {
    pub energy_delta: i128,
    pub elapsed_nanos: u128,
}

/// The last reading of the processor's energy counter and when it was
/// taken, in nanoseconds of a monotonic clock.
#[derive(Debug, Clone, Copy, PartialEq, Eq, Structural)]
pub struct PowerCalculator {
    pub at_nanos: u128,
    pub energy: i128,
}

impl PowerCalculator {
    /// Starts from a first reading of the counter, taken at `now_nanos`.
    pub fn build(raw: &str, now_nanos: u128) -> (r: Result<PowerCalculator, EngineError>)
        ensures
            r == match energy_of(raw@) {
                Some(v) => Ok::<PowerCalculator, EngineError>(PowerCalculator { at_nanos: now_nanos, energy: v }),
                None => Err(EngineError::InvalidNumber),
            },
    {
        match read_energy_consume(raw) {
            Ok(energy) => Ok(PowerCalculator { at_nanos: now_nanos, energy }),
            Err(e) => Err(e),
        }
    }

    /// Takes a new reading of the counter: returns the energy used and the
    /// time passed since the last one, which the new reading replaces. A
    /// clock that went back counts as no time passed.
    pub fn calculate(&mut self, raw: &str, now_nanos: u128) -> (r: Result<EnergySample, EngineError>)
        ensures
            match energy_of(raw@) {
                Some(v) => if i128::MIN <= v - old(self).energy <= i128::MAX {
                    &&& r == Ok::<EnergySample, EngineError>(EnergySample {
                        energy_delta: (v - old(self).energy) as i128,
                        elapsed_nanos: if now_nanos >= old(self).at_nanos { (now_nanos - old(self).at_nanos) as u128 } else { 0 },
                    })
                    &&& *final(self) == (PowerCalculator { at_nanos: now_nanos, energy: v })
                } else {
                    &&& r == Err::<EnergySample, EngineError>(EngineError::CounterOverflow)
                    &&& *final(self) == *old(self)
                },
                None => {
                    &&& r == Err::<EnergySample, EngineError>(EngineError::InvalidNumber)
                    &&& *final(self) == *old(self)
                },
            },
    {
        let now_energy = match read_energy_consume(raw) {
            Ok(v) => v,
            Err(e) => {
                return Err(e);
            },
        };
        let delta = match now_energy.checked_sub(self.energy) {
            Some(d) => d,
            None => {
                return Err(EngineError::CounterOverflow);
            },
        };
        let elapsed = if now_nanos >= self.at_nanos { now_nanos - self.at_nanos } else { 0 };
        self.at_nanos = now_nanos;
        self.energy = now_energy;
        Ok(EnergySample { energy_delta: delta, elapsed_nanos: elapsed })
    }
}


/// Removing the unit twice is removing it once.
pub proof fn law_remove_unit_idempotent(s: Seq<char>)
    ensures
        without_unit(without_unit(s)) == without_unit(s),
{
    let t = without_unit(s);
    lemma_unit_free_len_bounds(s);
    assert forall|j: int| 0 <= j < t.len() implies t[j] != ' ' by {
        lemma_unit_free_prefix(s, j);
    }
    lemma_unit_free_len(t, t.len() as int);
    assert(t.take(t.len() as int) =~= t);
}

proof fn lemma_unit_free_len_bounds(s: Seq<char>)
    ensures
        unit_free_len(s) <= s.len(),
    decreases s.len(),
{
    if s.len() > 0 && s[0] != ' ' {
        lemma_unit_free_len_bounds(s.drop_first());
    }
}

proof fn lemma_unit_free_prefix(s: Seq<char>, j: int)
    requires
        0 <= j < unit_free_len(s),
    ensures
        s[j] != ' ',
    decreases s.len(),
{
    lemma_unit_free_len_bounds(s);
    if j > 0 {
        lemma_unit_free_prefix(s.drop_first(), j - 1);
        assert(s.drop_first()[j - 1] == s[j]);
    }
}

} // verus!
