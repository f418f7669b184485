//! The temperature that drives the fans, computed from the samples of the
//! sensors.

use vstd::prelude::*;

use vstd::string::StrSliceExecFns;

use crate::config::service::TempComputeMethod;
use crate::nbfc::same_text;

verus! {

/// A sample of one sensor.
#[derive(Clone, Debug, PartialEq)]
pub struct SensorReading {
    /// Name of the driver that reports the sample.
    pub name: String,
    /// The temperature in thousandths of a degree Celsius.
    pub millidegrees: i32,
}

/// What a [`SensorReading`] holds.
pub struct SensorReadingView {
    pub name: Seq<char>,
    pub millidegrees: i32,
}

impl View for SensorReading {
    type V = SensorReadingView;

    open spec fn view(&self) -> SensorReadingView {
        SensorReadingView { name: self.name@, millidegrees: self.millidegrees }
    }
}

/// The views of a list of samples.
pub open spec fn reading_views(list: Seq<SensorReading>) -> Seq<SensorReadingView> {
    Seq::new(list.len(), |i: int| list[i]@)
}

/// Whether a driver reports the temperature of the processor.
pub open spec fn is_cpu_sensor_spec(name: Seq<char>) -> bool {
    name == "coretemp"@ || name == "k10temp"@
}

/// Whether a sample counts for a method.
pub open spec fn counts(reading: SensorReadingView, method: TempComputeMethod) -> bool {
    match method {
        TempComputeMethod::CPUOnly => is_cpu_sensor_spec(reading.name),
        TempComputeMethod::AllSensors => true,
    }
}

/// Number of samples of a list that count for a method.
pub open spec fn count_selected(list: Seq<SensorReadingView>, method: TempComputeMethod) -> nat
    decreases list.len(),
{
    if list.len() == 0 {
        0
    } else {
        count_selected(list.drop_last(), method) + if counts(list.last(), method) {
            1nat
        } else {
            0nat
        }
    }
}

/// Sum of the samples of a list that count for a method.
pub open spec fn sum_selected(list: Seq<SensorReadingView>, method: TempComputeMethod) -> int
    decreases list.len(),
{
    if list.len() == 0 {
        0
    } else {
        sum_selected(list.drop_last(), method) + if counts(list.last(), method) {
            list.last().millidegrees as int
        } else {
            0
        }
    }
}

/// The quotient of two integers rounded towards zero. `den` is positive.
pub open spec fn trunc_div(num: int, den: int) -> int {
    if num >= 0 {
        num / den
    } else {
        -((-num) / den)
    }
}

/// The temperature that drives the fans: the arithmetic mean of the samples
/// that count for the method, rounded towards zero to a thousandth of a
/// degree. There is none where no sample counts.
pub open spec fn driving_temperature_spec(
    list: Seq<SensorReadingView>,
    method: TempComputeMethod,
) -> Option<int> {
    if count_selected(list, method) == 0 {
        None
    } else {
        Some(trunc_div(sum_selected(list, method), count_selected(list, method) as int))
    }
}

/// Tells whether a driver reports the temperature of the processor.
pub fn is_cpu_sensor(name: &str) -> (cpu: bool)
    ensures
        cpu == is_cpu_sensor_spec(name@),
{
    same_text(name, "coretemp") || same_text(name, "k10temp")
}

/// Computes the temperature that drives the fans, in thousandths of a
/// degree, from the samples of the sensors.
pub fn driving_temperature(readings: &Vec<SensorReading>, method: TempComputeMethod) -> (temp:
    Option<i32>)
    ensures
        match temp {
            Some(t) => driving_temperature_spec(reading_views(readings@), method) == Some(t as int),
            None => driving_temperature_spec(reading_views(readings@), method).is_none(),
        },
{
    let ghost views = reading_views(readings@);
    let mut sum: i128 = 0;
    let mut count: u64 = 0;
    let mut i: usize = 0;
    while i < readings.len()
        invariant
            i <= readings@.len(),
            views == reading_views(readings@),
            count == count_selected(views.subrange(0, i as int), method),
            sum == sum_selected(views.subrange(0, i as int), method),
            count <= i,
            -0x8000_0000 * count <= sum <= 0x7fff_ffff * count,
        decreases readings@.len() - i,
    {
        proof {
            let now = views.subrange(0, i + 1);
            assert(now.drop_last() =~= views.subrange(0, i as int));
            assert(now.last() == readings@[i as int]@);
        }
        let selected = match method {
            TempComputeMethod::CPUOnly => is_cpu_sensor(readings[i].name.as_str()),
            TempComputeMethod::AllSensors => true,
        };
        if selected {
            sum = sum + readings[i].millidegrees as i128;
            count = count + 1;
        }
        i += 1;
    }
    proof {
        assert(views.subrange(0, readings@.len() as int) =~= views);
    }
    if count == 0 {
        None
    } else {
        let divisor: i128 = count as i128;
        let mean: i128 = if sum >= 0 {
            sum / divisor
        } else {
            -((-sum) / divisor)
        };
        proof {
            let total = sum as int;
            let by = divisor as int;
            let quotient = trunc_div(total, by);
            assert(-0x8000_0000 <= quotient <= 0x7fff_ffff) by (nonlinear_arith)
                requires
                    by > 0,
                    -0x8000_0000 * by <= total <= 0x7fff_ffff * by,
                    quotient == (if total >= 0 {
                        total / by
                    } else {
                        -((-total) / by)
                    }),
            ;
            assert(mean as int == quotient);
        }
        Some(mean as i32)
    }
}


/// Whether a file of a sensor holds a temperature: its name begins with
/// `temp` and ends in `_input`.
pub open spec fn is_temp_input_spec(name: Seq<char>) -> bool {
    &&& name.len() >= 6
    &&& name.subrange(0, 4) == "temp"@
    &&& name.subrange(name.len() - 6, name.len() as int) == "_input"@
}

/// Tells whether a file of a sensor holds a temperature.
pub fn is_temp_input(name: &str) -> (input: bool)
    ensures
        input == is_temp_input_spec(name@),
{
    let len = name.unicode_len();
    if len < 6 {
        return false;
    }
    same_text(name.substring_char(0, 4), "temp") && same_text(
        name.substring_char(len - 6, len),
        "_input",
    )
}

/// The value of a decimal digit, if the character is one.
pub open spec fn digit_value(c: char) -> Option<int> {
    if c == '0' {
        Some(0)
    } else if c == '1' {
        Some(1)
    } else if c == '2' {
        Some(2)
    } else if c == '3' {
        Some(3)
    } else if c == '4' {
        Some(4)
    } else if c == '5' {
        Some(5)
    } else if c == '6' {
        Some(6)
    } else if c == '7' {
        Some(7)
    } else if c == '8' {
        Some(8)
    } else if c == '9' {
        Some(9)
    } else {
        None
    }
}

/// The number that a text of decimal digits stands for. There is none
/// where the text is empty or holds another character.
pub open spec fn digits_value(text: Seq<char>) -> Option<int>
    decreases text.len(),
{
    if text.len() == 0 {
        None
    } else if text.len() == 1 {
        digit_value(text[0])
    } else {
        match (digits_value(text.drop_last()), digit_value(text.last())) {
            (Some(before), Some(digit)) => Some(10 * before + digit),
            _ => None,
        }
    }
}

/// A text without the line feed that may end it.
pub open spec fn without_line_feed(text: Seq<char>) -> Seq<char> {
    if text.len() > 0 && text.last() == '\n' {
        text.drop_last()
    } else {
        text
    }
}

/// The sample that the text of a sensor file stands for: a number in
/// decimal digits, with a minus sign before it where it is below zero and,
/// as the kernel writes it, a line feed behind it. There is none where the
/// text is anything else or the number does not fit.
pub open spec fn sample_spec(text: Seq<char>) -> Option<i32> {
    let body = without_line_feed(text);
    if body.len() > 0 && body[0] == '-' {
        match digits_value(body.subrange(1, body.len() as int)) {
            Some(value) => if value <= 0x8000_0000 {
                Some((-value) as i32)
            } else {
                None
            },
            None => None,
        }
    } else {
        match digits_value(body) {
            Some(value) => if value <= 0x7fff_ffff {
                Some(value as i32)
            } else {
                None
            },
            None => None,
        }
    }
}

/// Gives the value of a decimal digit.
fn value_of_digit(c: char) -> (value: Option<i64>)
    ensures
        match value {
            Some(v) => digit_value(c) == Some(v as int) && 0 <= v <= 9,
            None => digit_value(c).is_none(),
        },
{
    if c == '0' {
        Some(0)
    } else if c == '1' {
        Some(1)
    } else if c == '2' {
        Some(2)
    } else if c == '3' {
        Some(3)
    } else if c == '4' {
        Some(4)
    } else if c == '5' {
        Some(5)
    } else if c == '6' {
        Some(6)
    } else if c == '7' {
        Some(7)
    } else if c == '8' {
        Some(8)
    } else if c == '9' {
        Some(9)
    } else {
        None
    }
}

/// A text of digits stands for a number that is not below zero, and a
/// longer text of digits for one that is not smaller.
proof fn lemma_digits_grow(text: Seq<char>)
    requires
        text.len() > 0,
        digits_value(text).is_some(),
    ensures
        digits_value(text).unwrap() >= 0,
        text.len() > 1 ==> digits_value(text.drop_last()).is_some() && digits_value(text).unwrap()
            >= 10 * digits_value(text.drop_last()).unwrap(),
    decreases text.len(),
{
    if text.len() > 1 {
        lemma_digits_grow(text.drop_last());
    }
}

/// A text of digits whose beginning stands for a number above a bound
/// stands for a number above that bound.
proof fn lemma_digits_exceed(text: Seq<char>, upto: int, bound: int)
    requires
        0 < upto <= text.len(),
        digits_value(text).is_some(),
        bound >= 0,
        digits_value(text.subrange(0, upto)).is_some(),
        digits_value(text.subrange(0, upto)).unwrap() > bound,
    ensures
        digits_value(text).unwrap() > bound,
    decreases text.len() - upto,
{
    if upto < text.len() {
        lemma_digits_grow(text);
        let shorter = text.drop_last();
        assert(shorter.subrange(0, upto) =~= text.subrange(0, upto));
        lemma_digits_exceed(shorter, upto, bound);
    } else {
        assert(text.subrange(0, upto) =~= text);
    }
}

/// A text with a character that is no digit stands for no number.
proof fn lemma_digits_need_digits(text: Seq<char>, at: int)
    requires
        0 <= at < text.len(),
        digit_value(text[at]).is_none(),
    ensures
        digits_value(text).is_none(),
    decreases text.len(),
{
    if text.len() > 1 && at < text.len() - 1 {
        lemma_digits_need_digits(text.drop_last(), at);
    }
}

/// Reads the sample of a sensor, in thousandths of a degree, from the text
/// of its file.
pub fn parse_sample(text: &str) -> (sample: Option<i32>)
    ensures
        sample == sample_spec(text@),
{
    let full = text.unicode_len();
    let len: usize = if full > 0 && text.get_char(full - 1) == '\n' {
        full - 1
    } else {
        full
    };
    let ghost body = without_line_feed(text@);
    assert(body =~= text@.subrange(0, len as int));
    let negative = len > 0 && text.get_char(0) == '-';
    let start: usize = if negative {
        1
    } else {
        0
    };
    let ghost digits = body.subrange(start as int, len as int);
    let limit: i64 = if negative {
        0x8000_0000
    } else {
        0x7fff_ffff
    };
    if start == len {
        return None;
    }
    let mut value: i64 = 0;
    let mut i: usize = start;
    while i < len
        invariant
            start <= i <= len,
            start < len,
            len <= text@.len(),
            body == without_line_feed(text@),
            body == text@.subrange(0, len as int),
            negative == (body.len() > 0 && body[0] == '-'),
            start == (if negative {
                1usize
            } else {
                0usize
            }),
            limit == (if negative {
                0x8000_0000i64
            } else {
                0x7fff_ffffi64
            }),
            digits == body.subrange(start as int, len as int),
            0 <= value <= limit,
            i > start ==> digits_value(digits.subrange(0, i - start)) == Some(value as int),
            i == start ==> value == 0,
        decreases len - i,
    {
        let c = text.get_char(i);
        proof {
            let now = digits.subrange(0, i + 1 - start);
            assert(now.last() == text@[i as int]);
            assert(now.drop_last() =~= digits.subrange(0, i - start));
            if !negative {
                assert(digits =~= body);
            }
        }
        match value_of_digit(c) {
            Some(digit) => {
                let next: i64 = 10 * value + digit;
                if next > limit {
                    proof {
                        let now = digits.subrange(0, i + 1 - start);
                        assert(digits_value(now) == Some(next as int));
                        if digits_value(digits).is_some() {
                            lemma_digits_exceed(digits, i + 1 - start, limit as int);
                        }
                    }
                    return None;
                }
                value = next;
            },
            None => {
                proof {
                    assert(digits[i - start] == text@[i as int]);
                    lemma_digits_need_digits(digits, i - start);
                }
                return None;
            },
        }
        i += 1;
    }
    proof {
        assert(digits.subrange(0, len - start) =~= digits);
        if !negative {
            assert(digits =~= body);
        }
    }
    if negative {
        Some((-value) as i32)
    } else {
        Some(value as i32)
    }
}

} // verus!
