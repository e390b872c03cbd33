//! Temperature sensors, and the choice of the one that stands for the CPU.

use vstd::prelude::*;
use crate::units::Celsius;

verus! {

/// One temperature sensor as the operating system reported it.
#[derive(Debug, PartialEq, Eq)]
pub struct SensorReading {
    pub label: String,
    pub temperature: Celsius,
}

/// The mathematical model of a [`SensorReading`].
pub struct SensorReadingView {
    pub label: Seq<char>,
    pub temperature: int,
}

impl View for SensorReading {
    type V = SensorReadingView;

    open spec fn view(&self) -> SensorReadingView {
        SensorReadingView { label: self.label@, temperature: self.temperature@ }
    }
}

impl DeepView for SensorReading {
    type V = SensorReadingView;

    open spec fn deep_view(&self) -> SensorReadingView {
        self@
    }
}

impl Clone for SensorReading {
    fn clone(&self) -> (copy: SensorReading)
        ensures
            copy@ == self@,
    {
        SensorReading { label: self.label.clone(), temperature: self.temperature }
    }
}

impl SensorReading {
    /// The sensor labelled `label`, reading `temperature`.
    pub fn new(label: String, temperature: Celsius) -> (sensor: SensorReading)
        ensures
            sensor@ == (SensorReadingView { label: label@, temperature: temperature@ }),
    {
        SensorReading { label, temperature }
    }
}

/// `c` is the letter `lower` or its capital `upper`.
pub open spec fn is_letter(c: char, lower: char, upper: char) -> bool {
    c == lower || c == upper
}

/// The three letters "cpu", in any mix of upper and lower case, stand at
/// position `i` of `label`.
pub open spec fn cpu_at(label: Seq<char>, i: int) -> bool {
    &&& 0 <= i
    &&& i + 3 <= label.len()
    &&& is_letter(label[i], 'c', 'C')
    &&& is_letter(label[i + 1], 'p', 'P')
    &&& is_letter(label[i + 2], 'u', 'U')
}

/// `label` contains "cpu", compared without regard to case.
pub open spec fn mentions_cpu(label: Seq<char>) -> bool {
    exists|i: int| cpu_at(label, i)
}

/// A sensor counts as a CPU sensor with a usable value when its label
/// mentions the CPU and its temperature is strictly positive.
pub open spec fn qualifies(sensor: SensorReadingView) -> bool {
    mentions_cpu(sensor.label) && sensor.temperature > 0
}

/// The temperature of the first sensor, in enumeration order, that
/// qualifies; `None` when none does.
pub open spec fn first_cpu_temperature(sensors: Seq<SensorReadingView>) -> Option<int>
    decreases sensors.len(),
{
    if sensors.len() == 0 {
        None
    } else if qualifies(sensors.first()) {
        Some(sensors.first().temperature)
    } else {
        first_cpu_temperature(sensors.drop_first())
    }
}

/// Sensor `i` qualifies and no sensor before it does.
pub open spec fn is_first_cpu_sensor(sensors: Seq<SensorReadingView>, i: int) -> bool {
    &&& 0 <= i < sensors.len()
    &&& qualifies(sensors[i])
    &&& forall|j: int| 0 <= j < i ==> !qualifies(#[trigger] sensors[j])
}

/// What [`first_cpu_temperature`] yields, sensor by sensor: the temperature
/// of the first qualifying sensor when there is one, and `None` exactly when
/// no sensor qualifies.
pub proof fn lemma_first_cpu_temperature(sensors: Seq<SensorReadingView>)
    ensures
        match first_cpu_temperature(sensors) {
            Some(t) => exists|i: int|
                is_first_cpu_sensor(sensors, i) && t == sensors[i].temperature,
            None => forall|i: int| 0 <= i < sensors.len() ==> !qualifies(#[trigger] sensors[i]),
        },
    decreases sensors.len(),
{
    if sensors.len() == 0 {
    } else if qualifies(sensors.first()) {
        assert(is_first_cpu_sensor(sensors, 0));
    } else {
        let rest = sensors.drop_first();
        lemma_first_cpu_temperature(rest);
        match first_cpu_temperature(rest) {
            Some(t) => {
                let i = choose|i: int| is_first_cpu_sensor(rest, i) && t == rest[i].temperature;
                assert forall|j: int| 0 <= j < i + 1 implies !qualifies(#[trigger] sensors[j]) by {
                    if j > 0 {
                        assert(sensors[j] == rest[j - 1]);
                    }
                }
                assert(sensors[i + 1] == rest[i]);
                assert(is_first_cpu_sensor(sensors, i + 1));
            },
            None => {
                assert forall|i: int| 0 <= i < sensors.len() implies !qualifies(
                    #[trigger] sensors[i],
                ) by {
                    if i > 0 {
                        assert(sensors[i] == rest[i - 1]);
                    }
                }
            },
        }
    }
}

/// Whether `label` contains "cpu", compared without regard to case.
pub fn label_mentions_cpu(label: &str) -> (found: bool)
    ensures
        found == mentions_cpu(label@),
{
    // How many leading letters of "cpu" the characters just read spell.
    let mut matched: u8 = 0;
    let chars = label.chars();
    for c in it: chars
        invariant
            it.seq() == label@,
            matched <= 2,
            matched == 1 <==> it.index() >= 1 && is_letter(label@[it.index() - 1], 'c', 'C'),
            matched == 2 <==> it.index() >= 2 && is_letter(label@[it.index() - 2], 'c', 'C')
                && is_letter(label@[it.index() - 1], 'p', 'P'),
            forall|j: int| j + 3 <= it.index() ==> !cpu_at(label@, j),
    {
        if matched == 2 && (c == 'u' || c == 'U') {
            assert(cpu_at(label@, it.index() - 2));
            return true;
        }
        if c == 'c' || c == 'C' {
            matched = 1;
        } else if matched == 1 && (c == 'p' || c == 'P') {
            matched = 2;
        } else {
            matched = 0;
        }
    }
    false
}

/// The temperature of the first sensor whose label mentions the CPU and
/// whose value is strictly positive; `None` exactly when there is no such
/// sensor.
pub fn cpu_temperature(sensors: &Vec<SensorReading>) -> (temperature: Option<Celsius>)
    ensures
        temperature.deep_view() == first_cpu_temperature(sensors.deep_view()),
        match temperature {
            Some(t) => exists|i: int|
                is_first_cpu_sensor(sensors.deep_view(), i)
                    && t@ == sensors.deep_view()[i].temperature,
            None => forall|i: int|
                0 <= i < sensors.len() ==> !qualifies(#[trigger] sensors.deep_view()[i]),
        },
{
    let ghost views = sensors.deep_view();
    let n = sensors.len();
    let mut i: usize = 0;
    proof {
        assert(views.skip(0) =~= views);
    }
    while i < n
        invariant
            i <= n,
            n == sensors@.len(),
            views == sensors.deep_view(),
            first_cpu_temperature(views) == first_cpu_temperature(views.skip(i as int)),
            forall|j: int| 0 <= j < i ==> !qualifies(#[trigger] views[j]),
        decreases n - i,
    {
        let sensor = &sensors[i];
        proof {
            assert(views.skip(i as int).first() == sensor@);
            assert(views.skip(i as int).drop_first() =~= views.skip(i + 1));
        }
        if sensor.temperature.is_positive() && label_mentions_cpu(sensor.label.as_str()) {
            assert(is_first_cpu_sensor(views, i as int));
            return Some(sensor.temperature);
        }
        i = i + 1;
    }
    None
}

} // verus!
