//! The normalized result of a weather lookup.

use vstd::prelude::*;
use vstd::string::StringExecFns;

verus! {

/// The scale in which a provider reports temperatures.
#[derive(Clone, Copy, Debug, PartialEq, Eq, Structural)]
pub enum Scale {
    Celsius,
    Kelvin,
}

/// A temperature as a provider reported it.
#[derive(Clone, Copy, Debug, PartialEq, Eq, Structural)]
pub struct Reading {
    /// The IEEE 754 binary64 bit pattern of the reported number.
    pub bits: u64,
    /// The scale of the reported number.
    pub scale: Scale,
}

/// Information about the weather: a temperature and a condition in words.
#[derive(Debug)]
pub struct Forecast {
    pub temp: Reading,
    pub condition: String,
}

/// The two lines that show a forecast, given the temperature as text.
pub open spec fn rendering(temperature: Seq<char>, condition: Seq<char>) -> Seq<char> {
    "Temperature: "@ + temperature + "\n"@ + "Condition: "@ + condition + "\n"@
}

impl Forecast {
    /// Renders this forecast in two lines, the temperature as the caller
    /// has written it out.
    pub fn render(&self, temperature: &str) -> (result: String)
        ensures
            result@ == rendering(temperature@, self.condition@),
    {
        let mut text: String = "Temperature: ".to_owned();
        text.append(temperature);
        text.append("\n");
        text.append("Condition: ");
        text.append(self.condition.as_str());
        text.append("\n");
        text
    }
}

} // verus!
