//! The slider demo page: a plain slider, and a slider whose minimum,
//! maximum and step can be edited, keeping the value inside the range.

use vstd::prelude::*;

verus! {

/// State of the slider page.
#[derive(Clone, Copy, Debug, PartialEq, Eq, Structural)]
pub struct Slider {
    /// The value of the plain slider.
    pub simple_value: u32,
    /// The lower bound of the configurable slider.
    pub min: u32,
    /// The upper bound of the configurable slider.
    pub max: u32,
    /// The current value of the configurable slider.
    pub value: u32,
    /// The step of the configurable slider.
    pub step: u32,
}

#[derive(Clone, Copy, Debug)]
pub enum Message {
    SimpleValueChanged(u32),
    MinChanged(u32),
    MaxChanged(u32),
    StepChanged(u32),
    ValueChanged(u32),
}

impl Default for Slider {
    /// The configurable slider starts at 800 inside the range 500..=1000
    /// with step 10; the plain slider starts at 0.
    fn default() -> (s: Slider)
        ensures
            s == (Slider { simple_value: 0, min: 500, max: 1000, value: 800, step: 10 }),
    {
        Slider { simple_value: 0, min: 500, max: 1000, value: 800, step: 10 }
    }
}

impl Slider {
    /// The state after applying one message. Raising the minimum above
    /// the current value drags the value up to it; lowering the maximum
    /// below the current value drags the value down to it. The other
    /// messages store the reported number unchanged.
    pub open spec fn spec_update(self, message: Message) -> Slider {
        match message {
            Message::SimpleValueChanged(value) => Slider { simple_value: value, ..self },
            Message::MinChanged(min) => Slider {
                min,
                value: if min > self.value { min } else { self.value },
                ..self
            },
            Message::MaxChanged(max) => Slider {
                max,
                value: if max < self.value { max } else { self.value },
                ..self
            },
            Message::StepChanged(step) => Slider { step, ..self },
            Message::ValueChanged(value) => Slider { value, ..self },
        }
    }

    /// Applies one message to the page state.
    pub fn update(&mut self, message: Message)
        ensures
            *final(self) == old(self).spec_update(message),
    {
        match message {
            Message::SimpleValueChanged(value) => self.simple_value = value,
            Message::MinChanged(min) => {
                self.min = min;
                if min > self.value {
                    self.value = min;
                }
            },
            Message::MaxChanged(max) => {
                self.max = max;
                if max < self.value {
                    self.value = max;
                }
            },
            Message::StepChanged(step) => self.step = step,
            Message::ValueChanged(value) => self.value = value,
        }
    }
}

/// Setting the minimum clamps the current value up to the new minimum:
/// afterwards the value is never below the minimum, and it moved only if
/// it had to (a value already at or above the new minimum is kept).
pub proof fn lemma_min_clamps_up(s: Slider, min: u32)
    ensures
        s.spec_update(Message::MinChanged(min)).min == min,
        s.spec_update(Message::MinChanged(min)).value >= min,
        s.value >= min ==> s.spec_update(Message::MinChanged(min)).value == s.value,
        s.value < min ==> s.spec_update(Message::MinChanged(min)).value == min,
{
}

/// Setting the maximum clamps the current value down to the new maximum,
/// symmetrically to the minimum.
pub proof fn lemma_max_clamps_down(s: Slider, max: u32)
    ensures
        s.spec_update(Message::MaxChanged(max)).max == max,
        s.spec_update(Message::MaxChanged(max)).value <= max,
        s.value <= max ==> s.spec_update(Message::MaxChanged(max)).value == s.value,
        s.value > max ==> s.spec_update(Message::MaxChanged(max)).value == max,
{
}

} // verus!
