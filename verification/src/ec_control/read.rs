//! The reader: where the speed of a fan is read and what a raw value means.

use vstd::prelude::*;

use crate::ec_control::ec_rw::{high_byte, low_byte, word_of, EcRead, EcWrite};
use crate::ec_control::write::{
    find_write_override, linear_raw, round_div, write_overrides, FanWriteView,
};
use crate::nbfc::{fan_views, FanConfiguration, FanConfigurationView, FanSpeedPercentageOverride};
use crate::units::{clamp_int, clamp_speed, clamp_speed_spec, FULL_SPEED};

verus! {

/// The overrides of a list that apply to reads, in order.
pub open spec fn read_overrides(list: Seq<FanSpeedPercentageOverride>) -> Seq<
    FanSpeedPercentageOverride,
>
    decreases list.len(),
{
    if list.len() == 0 {
        Seq::empty()
    } else {
        let before = read_overrides(list.drop_last());
        if list.last().applies_to_read_spec() {
            before.push(list.last())
        } else {
            before
        }
    }
}

/// The speed of the first override of a list that is given for exactly this
/// raw value.
pub open spec fn find_read_override(list: Seq<FanSpeedPercentageOverride>, raw: u16) -> Option<i32>
    decreases list.len(),
{
    if list.len() == 0 {
        None
    } else if list[0].fan_speed_value == raw {
        Some(list[0].fan_speed_percentage)
    } else {
        find_read_override(list.subrange(1, list.len() as int), raw)
    }
}

/// The speed, in thousandths of a percent, of a raw value on the line from
/// `min` at 0 % to `max` at 100 %, rounded to the nearest unit and limited to
/// the range from 0 % to 100 %.
///
/// Where both bounds are the same the line is no line: a raw value above the
/// bound then counts as 100 % and any other as 0 %.
pub open spec fn linear_percent(min: u16, max: u16, raw: u16) -> i32 {
    if max == min {
        if raw > min {
            FULL_SPEED
        } else {
            0
        }
    } else if max > min {
        clamp_int(round_div((raw - min) * 100_000, max - min), 0, 100_000) as i32
    } else {
        clamp_int(round_div((min - raw) * 100_000, min - max), 0, 100_000) as i32
    }
}

/// What the reader keeps of a fan.
#[derive(Clone, Debug, PartialEq)]
pub struct FanReadConfig {
    pub read_register: u8,
    pub max_speed_read: u16,
    pub min_speed_read: u16,
    pub read_percent_overrides: Vec<FanSpeedPercentageOverride>,
}

/// What a [`FanReadConfig`] holds.
pub struct FanReadView {
    pub read_register: u8,
    pub max_speed_read: u16,
    pub min_speed_read: u16,
    pub read_percent_overrides: Seq<FanSpeedPercentageOverride>,
}

impl View for FanReadConfig {
    type V = FanReadView;

    open spec fn view(&self) -> FanReadView {
        FanReadView {
            read_register: self.read_register,
            max_speed_read: self.max_speed_read,
            min_speed_read: self.min_speed_read,
            read_percent_overrides: self.read_percent_overrides@,
        }
    }
}

impl FanReadView {
    /// What is kept of a fan. The bounds are those given for reads where the
    /// fan has such, and those for writes where it has not.
    pub open spec fn of(fan: FanConfigurationView) -> FanReadView {
        FanReadView {
            read_register: fan.read_register,
            max_speed_read: fan.max_read(),
            min_speed_read: fan.min_read(),
            read_percent_overrides: read_overrides(fan.overrides()),
        }
    }

    /// The speed that a raw value stands for: that of the first override
    /// given for exactly this value, or else the one on the line between the
    /// two bounds; either limited to the range from 0 % to 100 %.
    pub open spec fn speed_percent(self, raw: u16) -> i32 {
        match find_read_override(self.read_percent_overrides, raw) {
            Some(speed) => clamp_speed_spec(speed),
            None => linear_percent(self.min_speed_read, self.max_speed_read, raw),
        }
    }
}

/// What is kept of each fan of a list.
pub open spec fn fan_read_views(fans: Seq<FanConfigurationView>) -> Seq<FanReadView> {
    Seq::new(fans.len(), |i: int| FanReadView::of(fans[i]))
}

/// The views of the fans of a reader.
pub open spec fn kept_read_fans(fans: Seq<FanReadConfig>) -> Seq<FanReadView> {
    Seq::new(fans.len(), |i: int| fans[i]@)
}

/// Picks the overrides of a list that apply to reads.
fn pick_read_overrides(list: &Vec<FanSpeedPercentageOverride>) -> (kept: Vec<
    FanSpeedPercentageOverride,
>)
    ensures
        kept@ == read_overrides(list@),
{
    let mut kept: Vec<FanSpeedPercentageOverride> = Vec::new();
    let mut i: usize = 0;
    while i < list.len()
        invariant
            i <= list.len(),
            kept@ == read_overrides(list@.subrange(0, i as int)),
        decreases list.len() - i,
    {
        proof {
            let now = list@.subrange(0, i + 1);
            assert(now.drop_last() =~= list@.subrange(0, i as int));
            assert(now.last() == list@[i as int]);
        }
        if list[i].applies_to_read() {
            kept.push(list[i]);
        }
        i += 1;
    }
    proof {
        assert(list@.subrange(0, list.len() as int) =~= list@);
    }
    kept
}

/// Computes the speed of a raw value on the line from `min` at 0 % to `max`
/// at 100 %.
pub fn compute_linear_percent(min: u16, max: u16, raw: u16) -> (speed: i32)
    ensures
        speed == linear_percent(min, max, raw),
        0 <= speed <= FULL_SPEED,
{
    if max == min {
        if raw > min {
            FULL_SPEED
        } else {
            0
        }
    } else {
        let (delta, span): (i64, i64) = if max > min {
            (raw as i64 - min as i64, max as i64 - min as i64)
        } else {
            (min as i64 - raw as i64, min as i64 - max as i64)
        };
        let num: i64 = delta * 100_000;
        let rounded: i64 = if num >= 0 {
            (2 * num + span) / (2 * span)
        } else {
            -((2 * (-num) + span) / (2 * span))
        };
        assert(rounded == round_div(num as int, span as int));
        if rounded < 0 {
            0
        } else if rounded > 100_000 {
            FULL_SPEED
        } else {
            rounded as i32
        }
    }
}

impl FanReadConfig {
    /// Captures the read parameters of a fan.
    pub fn new(fan: &FanConfiguration) -> (kept: FanReadConfig)
        ensures
            kept@ == FanReadView::of(fan@),
    {
        let overrides = match &fan.fan_speed_percentage_overrides {
            Some(list) => pick_read_overrides(list),
            None => Vec::new(),
        };
        FanReadConfig {
            read_register: fan.read_register,
            min_speed_read: if fan.independent_read_min_max_values {
                fan.min_speed_value_read
            } else {
                fan.min_speed_value
            },
            max_speed_read: if fan.independent_read_min_max_values {
                fan.max_speed_value_read
            } else {
                fan.max_speed_value
            },
            read_percent_overrides: overrides,
        }
    }

    /// Gives the speed, in thousandths of a percent, that a raw value stands
    /// for.
    pub fn speed_percent(&self, raw: u16) -> (speed: i32)
        ensures
            speed == self@.speed_percent(raw),
            0 <= speed <= FULL_SPEED,
    {
        let list = &self.read_percent_overrides;
        let mut i: usize = 0;
        proof {
            assert(list@.subrange(0, list.len() as int) =~= list@);
        }
        while i < list.len()
            invariant
                i <= list.len(),
                self@.read_percent_overrides == list@,
                find_read_override(list@, raw) == find_read_override(
                    list@.subrange(i as int, list.len() as int),
                    raw,
                ),
            decreases list.len() - i,
        {
            proof {
                let rest = list@.subrange(i as int, list.len() as int);
                assert(rest[0] == list@[i as int]);
                assert(rest.subrange(1, rest.len() as int) =~= list@.subrange(
                    i + 1,
                    list.len() as int,
                ));
            }
            if list[i].fan_speed_value == raw {
                proof {
                    let rest = list@.subrange(i as int, list.len() as int);
                    assert(find_read_override(rest, raw) == Some(rest[0].fan_speed_percentage));
                }
                return clamp_speed(list[i].fan_speed_percentage);
            }
            i += 1;
        }
        proof {
            assert(list@.subrange(i as int, list.len() as int).len() == 0);
        }
        compute_linear_percent(self.min_speed_read, self.max_speed_read, raw)
    }
}

/// Manages reads from the embedded controller.
#[derive(Clone, Debug, PartialEq)]
pub struct ECReader {
    pub read_words: bool,
    pub fans_read_config: Vec<FanReadConfig>,
}

/// What an [`ECReader`] holds.
pub struct ECReaderView {
    pub read_words: bool,
    pub fans_read_config: Seq<FanReadView>,
}

impl View for ECReader {
    type V = ECReaderView;

    open spec fn view(&self) -> ECReaderView {
        ECReaderView {
            read_words: self.read_words,
            fans_read_config: kept_read_fans(self.fans_read_config@),
        }
    }
}

impl ECReaderView {
    /// The reader of a configuration.
    pub open spec fn of(read_words: bool, fans: Seq<FanConfigurationView>) -> ECReaderView {
        ECReaderView { read_words, fans_read_config: fan_read_views(fans) }
    }

    /// The read that delivers the speed of a fan.
    pub open spec fn request(self, fan_index: int) -> EcRead {
        EcRead { offset: self.fans_read_config[fan_index].read_register, word: self.read_words }
    }

    /// The raw value in the bytes of a read: the little-endian word of the
    /// first two where words are read, the first byte where bytes are. Too
    /// few bytes count as zero.
    pub open spec fn value(self, bytes: Seq<u8>) -> u16 {
        if self.read_words && bytes.len() >= 2 {
            word_of(bytes[0], bytes[1])
        } else if !self.read_words && bytes.len() >= 1 {
            bytes[0] as u16
        } else {
            0
        }
    }

    /// The speed of a fan whose register holds `raw`.
    pub open spec fn speed_percent(self, fan_index: int, raw: u16) -> i32 {
        self.fans_read_config[fan_index].speed_percent(raw)
    }
}

impl ECReader {
    /// A reader without fans.
    pub fn new() -> (reader: ECReader)
        ensures
            reader@ == (ECReaderView { read_words: false, fans_read_config: Seq::empty() }),
    {
        let reader = ECReader { read_words: false, fans_read_config: Vec::new() };
        assert(reader@.fans_read_config =~= Seq::empty());
        reader
    }

    /// Takes over a configuration. Nothing is read from the controller.
    pub fn refresh_config(&mut self, read_words: bool, fan_configs: &Vec<FanConfiguration>)
        ensures
            final(self)@ == ECReaderView::of(read_words, fan_views(fan_configs@)),
    {
        self.read_words = read_words;
        let mut fans: Vec<FanReadConfig> = Vec::new();
        let mut i: usize = 0;
        while i < fan_configs.len()
            invariant
                i <= fan_configs.len(),
                fans@.len() == i,
                forall|k: int| 0 <= k < i ==> (#[trigger] fans@[k])@ == FanReadView::of(fan_configs@[k]@),
            decreases fan_configs.len() - i,
        {
            fans.push(FanReadConfig::new(&fan_configs[i]));
            i += 1;
        }
        self.fans_read_config = fans;
        proof {
            assert(self@.fans_read_config =~= fan_read_views(fan_views(fan_configs@)));
        }
    }

    /// Gives the read that delivers the speed of a fan: one byte, or one
    /// word, at the fan's read register.
    pub fn read_request(&self, fan_index: usize) -> (request: EcRead)
        requires
            fan_index < self.fans_read_config@.len(),
        ensures
            request == self@.request(fan_index as int),
    {
        EcRead { offset: self.fans_read_config[fan_index].read_register, word: self.read_words }
    }

    /// Turns the bytes that a read delivered into a raw value.
    pub fn read_value(&self, bytes: &[u8]) -> (raw: u16)
        ensures
            raw == self@.value(bytes@),
    {
        if self.read_words && bytes.len() >= 2 {
            let low: u16 = bytes[0] as u16;
            let high: u16 = bytes[1] as u16;
            low + 256 * high
        } else if !self.read_words && bytes.len() >= 1 {
            bytes[0] as u16
        } else {
            0
        }
    }

    /// Gives the speed of a fan, in thousandths of a percent, from the raw
    /// value read at its register.
    pub fn read_speed_percent(&self, fan_index: usize, raw: u16) -> (speed: i32)
        requires
            fan_index < self.fans_read_config@.len(),
        ensures
            speed == self@.speed_percent(fan_index as int, raw),
            0 <= speed <= FULL_SPEED,
    {
        self.fans_read_config[fan_index].speed_percent(raw)
    }
}


/// A rounded quotient is within half of the divisor of the exact one.
pub proof fn lemma_round_div_bounds(num: int, den: int)
    requires
        0 <= num,
        0 < den,
    ensures
        2 * den * round_div(num, den) <= 2 * num + den,
        2 * num + den < 2 * den * round_div(num, den) + 2 * den,
        0 <= round_div(num, den),
{
    let q = (2 * num + den) / (2 * den);
    assert(2 * den * q <= 2 * num + den && 2 * num + den < 2 * den * q + 2 * den && 0 <= q)
        by (nonlinear_arith)
        requires
            0 <= num,
            0 < den,
            q == (2 * num + den) / (2 * den),
    ;
}

/// The speed read back after a write differs from the speed written by at
/// most a hundred percent divided by the distance of the two bounds.
///
/// This holds of a fan whose bounds differ and are the same for reads and
/// writes, for a speed between 0 % and 100 % that no override catches on the
/// way out or on the way back, provided the register holds the whole value:
/// words are written, or both bounds fit in a byte.
pub proof fn lemma_read_after_write(fan: FanConfigurationView, words: bool, speed: i32)
    requires
        0 <= speed <= FULL_SPEED,
        fan.min_speed_value != fan.max_speed_value,
        fan.min_read() == fan.min_speed_value,
        fan.max_read() == fan.max_speed_value,
        words || (fan.min_speed_value <= 255 && fan.max_speed_value <= 255),
        find_write_override(write_overrides(fan.overrides()), speed).is_none(),
        find_read_override(
            read_overrides(fan.overrides()),
            linear_raw(fan.min_speed_value, fan.max_speed_value, speed),
        ).is_none(),
    ensures
        ({
            let write = EcWrite::of_value(
                fan.write_register,
                FanWriteView::of(fan).raw_speed(speed),
                words,
            );
            let back = FanReadView::of(fan).speed_percent(write.value_spec());
            let span = if fan.max_speed_value > fan.min_speed_value {
                fan.max_speed_value - fan.min_speed_value
            } else {
                fan.min_speed_value - fan.max_speed_value
            };
            &&& 0 <= back <= FULL_SPEED
            &&& (back - speed) * span <= 100_000
            &&& (speed - back) * span <= 100_000
        }),
{
    let min = fan.min_speed_value as int;
    let max = fan.max_speed_value as int;
    let p = speed as int;
    let raw16 = linear_raw(fan.min_speed_value, fan.max_speed_value, speed);
    let write = EcWrite::of_value(fan.write_register, FanWriteView::of(fan).raw_speed(speed), words);
    assert(FanWriteView::of(fan).raw_speed(speed) == raw16);
    let n = min * 100_000 + (max - min) * p;
    let s = if max > min {
        max - min
    } else {
        min - max
    };
    let lo = if max > min {
        min
    } else {
        max
    };
    let hi = if max > min {
        max
    } else {
        min
    };
    assert(lo * 100_000 <= n <= hi * 100_000) by (nonlinear_arith)
        requires
            0 <= p <= 100_000,
            n == min * 100_000 + (max - min) * p,
            lo == (if max > min {
                min
            } else {
                max
            }),
            hi == (if max > min {
                max
            } else {
                min
            }),
            0 <= min,
            0 <= max,
    ;
    lemma_round_div_bounds(n, 100_000);
    let r = round_div(n, 100_000);
    assert(lo <= r <= hi) by (nonlinear_arith)
        requires
            2 * 100_000 * r <= 2 * n + 100_000,
            2 * n + 100_000 < 2 * 100_000 * r + 2 * 100_000,
            lo * 100_000 <= n <= hi * 100_000,
    ;
    assert(raw16 as int == r);
    let raw = r;
    // The register gives back what was written.
    assert(write.value_spec() == raw16) by {
        if words {
            assert(word_of(low_byte(raw16), high_byte(raw16)) == raw16);
        } else {
            assert(raw16 <= 255);
            assert(low_byte(raw16) as u16 == raw16);
        }
    }
    let back = FanReadView::of(fan).speed_percent(raw16);
    assert(back == linear_percent(fan.min_speed_value, fan.max_speed_value, raw16));
    let m = if max > min {
        (raw - min) * 100_000
    } else {
        (min - raw) * 100_000
    };
    assert(0 <= m);
    assert(2 * m <= 2 * s * p + 100_000 && 2 * s * p - 100_000 <= 2 * m) by (nonlinear_arith)
        requires
            2 * 100_000 * raw <= 2 * n + 100_000,
            2 * n + 100_000 < 2 * 100_000 * raw + 2 * 100_000,
            n == min * 100_000 + (max - min) * p,
            m == (if max > min {
                (raw - min) * 100_000
            } else {
                (min - raw) * 100_000
            }),
            s == (if max > min {
                max - min
            } else {
                min - max
            }),
    ;
    lemma_round_div_bounds(m, s);
    let q = round_div(m, s);
    assert(q * s - p * s <= 100_000 && p * s - q * s <= 100_000) by (nonlinear_arith)
        requires
            2 * s * q <= 2 * m + s,
            2 * m + s < 2 * s * q + 2 * s,
            2 * m <= 2 * s * p + 100_000,
            2 * s * p - 100_000 <= 2 * m,
            0 < s <= 65535,
    ;
    let b = back as int;
    assert(b == clamp_int(q, 0, 100_000));
    assert((b - p) * s <= 100_000 && (p - b) * s <= 100_000) by (nonlinear_arith)
        requires
            q * s - p * s <= 100_000,
            p * s - q * s <= 100_000,
            0 <= p <= 100_000,
            0 < s,
            b == (if q < 0 {
                0
            } else if q > 100_000 {
                100_000
            } else {
                q
            }),
    ;
}

} // verus!
