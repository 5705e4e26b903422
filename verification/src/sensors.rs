//! The sensors a plant can have, their names and the colors of their charts.

use rand::Rng;
use vstd::prelude::*;

use crate::color::RGBColor;

verus! {

#[verifier::external_type_specification]
#[verifier::external_body]
pub struct ExThreadRng(rand::rngs::ThreadRng);

/// `rand::thread_rng`: the random number generator of the current thread.
#[verifier::external_body]
fn thread_rng() -> rand::rngs::ThreadRng {
    rand::thread_rng()
}

/// `Rng::gen_range(low..=high)` for `u8`: some number from `low` to `high`,
/// both included. Which one is left to chance; the range must not be empty
/// (the call panics on an empty one).
#[verifier::external_body]
fn gen_range_inclusive(rng: &mut rand::rngs::ThreadRng, low: u8, high: u8) -> (r: u8)
    requires
        low <= high,
    ensures
        low <= r <= high,
{
    rng.gen_range(low..=high)
}

/// All available sensors.
#[derive(Debug, Clone, Copy, PartialEq, Eq, Structural)]
pub enum Sensortypes {
    /// Soil moisture sensor
    Feuchtigkeit,
    /// Humidity sensor
    Luftfeuchtigkeit,
    /// Temperature sensor
    Temperatur,
    /// Light sensor
    Licht,
}

/// The German name of a sensor, as shown in the application.
pub open spec fn sensor_label(s: Sensortypes) -> Seq<char> {
    match s {
        Sensortypes::Feuchtigkeit => "Feuchtigkeit"@,
        Sensortypes::Luftfeuchtigkeit => "Luftfeuchtigkeit"@,
        Sensortypes::Temperatur => "Temperatur"@,
        Sensortypes::Licht => "Licht"@,
    }
}

/// The English name of a sensor, as the server knows it.
pub open spec fn sensor_name(s: Sensortypes) -> Seq<char> {
    match s {
        Sensortypes::Feuchtigkeit => "soil-moisture"@,
        Sensortypes::Luftfeuchtigkeit => "humidity"@,
        Sensortypes::Temperatur => "temperature"@,
        Sensortypes::Licht => "light"@,
    }
}

/// The base color of a sensor's charts.
pub open spec fn sensor_color(s: Sensortypes) -> RGBColor {
    match s {
        Sensortypes::Feuchtigkeit => RGBColor(0, 0, 255),
        Sensortypes::Luftfeuchtigkeit => RGBColor(0, 255, 0),
        Sensortypes::Temperatur => RGBColor(255, 0, 0),
        Sensortypes::Licht => RGBColor(255, 255, 0),
    }
}

/// The position of a sensor in `Sensortypes::iter()`.
pub open spec fn sensor_index(s: Sensortypes) -> int {
    match s {
        Sensortypes::Feuchtigkeit => 0,
        Sensortypes::Luftfeuchtigkeit => 1,
        Sensortypes::Temperatur => 2,
        Sensortypes::Licht => 3,
    }
}

/// All sensors in their order.
pub open spec fn all_sensors() -> Seq<Sensortypes> {
    seq![
        Sensortypes::Feuchtigkeit,
        Sensortypes::Luftfeuchtigkeit,
        Sensortypes::Temperatur,
        Sensortypes::Licht,
    ]
}

/// The chart color of a sensor with offsets `a`, `b` (any) and `c` (at most
/// 50): the sensor's main channel at `255 - c`, the other two at `a` and `b`.
pub open spec fn offset_color(s: Sensortypes, a: u8, b: u8, c: u8) -> RGBColor {
    match s {
        Sensortypes::Feuchtigkeit => RGBColor(a, b, (255 - c) as u8),
        Sensortypes::Luftfeuchtigkeit => RGBColor(a, (255 - c) as u8, b),
        Sensortypes::Temperatur => RGBColor((255 - c) as u8, a, b),
        Sensortypes::Licht => RGBColor((255 - c) as u8, (255 - c) as u8, a),
    }
}

/// The colors that a sensor's charts can get: the sensor's main channel
/// (blue, green, red, or red and green alike for light) at 205 or more, the
/// other channels free.
pub open spec fn in_color_family(s: Sensortypes, color: RGBColor) -> bool {
    match s {
        Sensortypes::Feuchtigkeit => color.2 >= 205,
        Sensortypes::Luftfeuchtigkeit => color.1 >= 205,
        Sensortypes::Temperatur => color.0 >= 205,
        Sensortypes::Licht => color.0 >= 205 && color.1 == color.0,
    }
}

/// The offset colors of a sensor are exactly its color family.
pub proof fn lemma_offset_colors_are_the_family(s: Sensortypes, color: RGBColor)
    ensures
        in_color_family(s, color) <==> exists|a: u8, b: u8, c: u8|
            c <= 50 && #[trigger] offset_color(s, a, b, c) == color,
{
    if in_color_family(s, color) {
        match s {
            Sensortypes::Feuchtigkeit => {
                let c = (255 - color.2) as u8;
                assert(offset_color(s, color.0, color.1, c) == color);
            },
            Sensortypes::Luftfeuchtigkeit => {
                let c = (255 - color.1) as u8;
                assert(offset_color(s, color.0, color.2, c) == color);
            },
            Sensortypes::Temperatur => {
                let c = (255 - color.0) as u8;
                assert(offset_color(s, color.1, color.2, c) == color);
            },
            Sensortypes::Licht => {
                let c = (255 - color.0) as u8;
                assert(offset_color(s, color.2, color.2, c) == color);
            },
        }
    }
}

impl Sensortypes {
    /// The sensor's German name (its `Display` form).
    pub fn label(&self) -> (s: String)
        ensures
            s@ == sensor_label(*self),
    {
        match self {
            Sensortypes::Feuchtigkeit => String::from_str("Feuchtigkeit"),
            Sensortypes::Luftfeuchtigkeit => String::from_str("Luftfeuchtigkeit"),
            Sensortypes::Temperatur => String::from_str("Temperatur"),
            Sensortypes::Licht => String::from_str("Licht"),
        }
    }

    /// Returns the sensor name as a string in English.
    pub fn get_name(&self) -> (s: String)
        ensures
            s@ == sensor_name(*self),
    {
        match self {
            Sensortypes::Feuchtigkeit => String::from_str("soil-moisture"),
            Sensortypes::Luftfeuchtigkeit => String::from_str("humidity"),
            Sensortypes::Temperatur => String::from_str("temperature"),
            Sensortypes::Licht => String::from_str("light"),
        }
    }

    /// Returns the color associated with the sensor.
    pub fn get_color(&self) -> (c: RGBColor)
        ensures
            c == sensor_color(*self),
    {
        match self {
            Sensortypes::Feuchtigkeit => RGBColor(0, 0, 255),
            Sensortypes::Luftfeuchtigkeit => RGBColor(0, 255, 0),
            Sensortypes::Temperatur => RGBColor(255, 0, 0),
            Sensortypes::Licht => RGBColor(255, 255, 0),
        }
    }

    /// The chart color of this sensor with the offsets `a`, `b` and `c`.
    pub fn color_with_offsets(&self, a: u8, b: u8, c: u8) -> (r: RGBColor)
        requires
            c <= 50,
        ensures
            r == offset_color(*self, a, b, c),
            in_color_family(*self, r),
    {
        match self {
            Sensortypes::Feuchtigkeit => RGBColor(a, b, 255 - c),
            Sensortypes::Luftfeuchtigkeit => RGBColor(a, 255 - c, b),
            Sensortypes::Temperatur => RGBColor(255 - c, a, b),
            Sensortypes::Licht => RGBColor(255 - c, 255 - c, a),
        }
    }

    /// Returns a color of this sensor's family with random offsets: two
    /// channels anywhere from 0 to 255, the main one 0 to 50 below 255.
    pub fn get_color_with_random_offset(&self) -> (r: RGBColor)
        ensures
            in_color_family(*self, r),
    {
        let mut rng = thread_rng();
        let offset = gen_range_inclusive(&mut rng, 0, 255);
        let offset2 = gen_range_inclusive(&mut rng, 0, 255);
        let offset3 = gen_range_inclusive(&mut rng, 0, 50);
        self.color_with_offsets(offset, offset2, offset3)
    }

    /// All available sensors, in order.
    pub fn iter() -> (v: Vec<Sensortypes>)
        ensures
            v@ == all_sensors(),
    {
        let v = vec![
            Sensortypes::Feuchtigkeit,
            Sensortypes::Luftfeuchtigkeit,
            Sensortypes::Temperatur,
            Sensortypes::Licht,
        ];
        assert(v@ =~= all_sensors());
        v
    }

    /// The position of this sensor in `Sensortypes::iter()`.
    pub fn index(&self) -> (i: usize)
        ensures
            i == sensor_index(*self),
    {
        match self {
            Sensortypes::Feuchtigkeit => 0,
            Sensortypes::Luftfeuchtigkeit => 1,
            Sensortypes::Temperatur => 2,
            Sensortypes::Licht => 3,
        }
    }

    /// The sensor whose English name is `name`, if there is one.
    pub fn from_name(name: &str) -> (r: Option<Sensortypes>)
        ensures
            r == sensor_named(name@),
    {
        let v = Sensortypes::iter();
        let mut i: usize = 0;
        while i < v.len()
            invariant
                v@ == all_sensors(),
                i <= v.len(),
                forall|j: int| 0 <= j < i ==> sensor_name(#[trigger] v@[j]) != name@,
            decreases v.len() - i,
        {
            let n = v[i].get_name();
            if string_eq_str(&n, name) {
                assert(sensor_name(v@[i as int]) == name@);
                if i > 0 {
                    assert(sensor_name(v@[0]) != name@);
                }
                if i > 1 {
                    assert(sensor_name(v@[1]) != name@);
                }
                if i > 2 {
                    assert(sensor_name(v@[2]) != name@);
                }
                return Some(v[i]);
            }
            i = i + 1;
        }
        assert(sensor_name(v@[0]) != name@);
        assert(sensor_name(v@[1]) != name@);
        assert(sensor_name(v@[2]) != name@);
        assert(sensor_name(v@[3]) != name@);
        None
    }
}

/// The sensor with the English name `n`, if there is one.
pub open spec fn sensor_named(n: Seq<char>) -> Option<Sensortypes> {
    if n == sensor_name(Sensortypes::Feuchtigkeit) {
        Some(Sensortypes::Feuchtigkeit)
    } else if n == sensor_name(Sensortypes::Luftfeuchtigkeit) {
        Some(Sensortypes::Luftfeuchtigkeit)
    } else if n == sensor_name(Sensortypes::Temperatur) {
        Some(Sensortypes::Temperatur)
    } else if n == sensor_name(Sensortypes::Licht) {
        Some(Sensortypes::Licht)
    } else {
        None
    }
}

/// Different sensors have different names.
pub proof fn lemma_sensor_names_distinct(a: Sensortypes, b: Sensortypes)
    ensures
        sensor_name(a) == sensor_name(b) ==> a == b,
{
    reveal_strlit("soil-moisture");
    reveal_strlit("humidity");
    reveal_strlit("temperature");
    reveal_strlit("light");
    if a != b {
        assert(sensor_name(a).len() != sensor_name(b).len() || sensor_name(a)[0] != sensor_name(b)[0]);
    }
}

/// `==` on a `String` and a `&str`.
#[verifier::external_body]
pub(crate) fn string_eq_str(a: &String, b: &str) -> (r: bool)
    ensures
        r == (a@ == b@),
{
    *a == *b
}

} // verus!
