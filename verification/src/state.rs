//! Sensor settings: resolution modes, bit depth, exposure time, analog gain,
//! and the snapshot of them that describes a running stream.

use vstd::prelude::*;

verus! {

/// Clock cycles of the sensor per microsecond of exposure.
pub const CYCLES_PER_US: usize = 54;

/// The fewest clock cycles a line may be exposed for.
pub const MIN_CYCLES_PER_LINE: usize = 10;

/// The largest horizontal-sync count the sensor takes: 17 bits.
pub const HSYNC_CEILING: usize = 0x1ffff;

/// One of the three resolution presets of the sensor.
#[derive(Copy, Clone, Debug, PartialEq, Eq, Structural)]
pub enum Mu1603Mode {
    /// Resolution: 4632x3488
    Mode0,
    /// Resolution: 2320x1740
    Mode1,
    /// Resolution: 1536x1160
    Mode2,
}

impl Mu1603Mode {
    pub open spec fn spec_description(&self) -> Seq<char> {
        match self {
            Mu1603Mode::Mode0 => "4632x3488"@,
            Mu1603Mode::Mode1 => "2320x1740"@,
            Mu1603Mode::Mode2 => "1536x1160"@,
        }
    }

    /// The resolution as text, width first.
    pub fn description(&self) -> (d: &'static str)
        ensures
            d@ == self.spec_description(),
    {
        match self {
            Mu1603Mode::Mode0 => "4632x3488",
            Mu1603Mode::Mode1 => "2320x1740",
            Mu1603Mode::Mode2 => "1536x1160",
        }
    }

    pub open spec fn spec_max_hsync(&self) -> u16 {
        match self {
            Mu1603Mode::Mode0 => 0x0e24,
            Mu1603Mode::Mode1 => 0x08e3,
            Mu1603Mode::Mode2 => 0x04ca,
        }
    }

    /// The horizontal-sync count per frame at the shortest exposure.
    #[verifier::when_used_as_spec(spec_max_hsync)]
    pub fn max_hsync(&self) -> (h: u16)
        ensures
            h == self.spec_max_hsync(),
    {
        match self {
            Mu1603Mode::Mode0 => 0x0e24,
            Mu1603Mode::Mode1 => 0x08e3,
            Mu1603Mode::Mode2 => 0x04ca,
        }
    }

    pub open spec fn spec_width(&self) -> usize {
        match self {
            Mu1603Mode::Mode0 => 4632,
            Mu1603Mode::Mode1 => 2320,
            Mu1603Mode::Mode2 => 1536,
        }
    }

    #[verifier::when_used_as_spec(spec_width)]
    pub fn width(&self) -> (w: usize)
        ensures
            w == self.spec_width(),
    {
        match self {
            Mu1603Mode::Mode0 => 4632,
            Mu1603Mode::Mode1 => 2320,
            Mu1603Mode::Mode2 => 1536,
        }
    }

    pub open spec fn spec_height(&self) -> usize {
        match self {
            Mu1603Mode::Mode0 => 3488,
            Mu1603Mode::Mode1 => 1740,
            Mu1603Mode::Mode2 => 1160,
        }
    }

    #[verifier::when_used_as_spec(spec_height)]
    pub fn height(&self) -> (h: usize)
        ensures
            h == self.spec_height(),
    {
        match self {
            Mu1603Mode::Mode0 => 3488,
            Mu1603Mode::Mode1 => 1740,
            Mu1603Mode::Mode2 => 1160,
        }
    }

    /// Width and height, in this order.
    pub fn dimensions(&self) -> (d: (usize, usize))
        ensures
            d == (self.spec_width(), self.spec_height()),
    {
        (self.width(), self.height())
    }
}

/// Width of one raw sample.
#[derive(Copy, Clone, Debug, PartialEq, Eq, Structural)]
pub enum Mu1603BitDepth {
    Depth8,
    Depth12,
}

impl Mu1603BitDepth {
    pub open spec fn spec_bpp(&self) -> usize {
        match self {
            Mu1603BitDepth::Depth8 => 1,
            Mu1603BitDepth::Depth12 => 2,
        }
    }

    /// Bytes per pixel of a raw frame.
    #[verifier::when_used_as_spec(spec_bpp)]
    pub fn bpp(&self) -> (b: usize)
        ensures
            b == self.spec_bpp(),
    {
        match self {
            Mu1603BitDepth::Depth8 => 1,
            Mu1603BitDepth::Depth12 => 2,
        }
    }
}

/// Length in bytes of one raw frame of a mode at a bit depth.
pub open spec fn raw_frame_len(mode: Mu1603Mode, depth: Mu1603BitDepth) -> int {
    mode.spec_width() * mode.spec_height() * depth.spec_bpp()
}

/// `x` brought into the closed range from `lo` to `hi`.
pub open spec fn clamp(x: int, lo: int, hi: int) -> int {
    if x < lo {
        lo
    } else if x > hi {
        hi
    } else {
        x
    }
}

/// Cycles per line that an exposure of `us` microseconds asks for on a sensor
/// of `lines` lines.
pub open spec fn requested_cycles_per_line(us: int, lines: int) -> int {
    (us * CYCLES_PER_US as int) / lines
}

/// Whether the request leaves the minimum margin below the mode's sync count,
/// so that the sync count can stay and the effective cycles are reduced.
pub open spec fn keeps_hsync(us: int, max_hsync: int, lines: int) -> bool {
    requested_cycles_per_line(us, lines) < max_hsync - MIN_CYCLES_PER_LINE as int
}

/// The effective cycles per line of an exposure.
pub open spec fn effective_cycles_per_line(us: int, max_hsync: int, lines: int) -> int {
    if keeps_hsync(us, max_hsync, lines) {
        max_hsync - requested_cycles_per_line(us, lines)
    } else {
        MIN_CYCLES_PER_LINE as int
    }
}

/// The horizontal-sync count of an exposure: the mode's own, or one expanded
/// to hold the request. An expanded count that would not fit in 17 bits is
/// the largest that does.
pub open spec fn hsync_per_vsync(us: int, max_hsync: int, lines: int) -> int {
    let req = requested_cycles_per_line(us, lines);
    if keeps_hsync(us, max_hsync, lines) {
        max_hsync
    } else if req + MIN_CYCLES_PER_LINE as int > HSYNC_CEILING as int {
        HSYNC_CEILING as int
    } else {
        req + MIN_CYCLES_PER_LINE as int
    }
}

/// The three register values of an exposure: the low 13 bits of the effective
/// cycles per line, then the high and the low 16 bits of the sync count.
pub open spec fn exposure_registers(us: int, max_hsync: int, lines: int) -> (u16, u16, u16) {
    let eff = effective_cycles_per_line(us, max_hsync, lines);
    let hsync = hsync_per_vsync(us, max_hsync, lines);
    ((eff % 0x2000) as u16, ((hsync / 0x10000) % 0x10000) as u16, (hsync % 0x10000) as u16)
}

/// Clamping is stable: a clamped value is within the limits, and clamping it
/// again changes nothing. In particular both limits are kept as they are.
pub proof fn lemma_clamp_is_stable(x: int, lo: int, hi: int)
    requires
        lo <= hi,
    ensures
        lo <= clamp(x, lo, hi) <= hi,
        clamp(clamp(x, lo, hi), lo, hi) == clamp(x, lo, hi),
        clamp(lo, lo, hi) == lo,
        clamp(hi, lo, hi) == hi,
{
}

/// Whatever exposure is asked for, the effective cycles per line stay at or
/// above the minimum.
pub proof fn lemma_effective_cycles_at_least_minimum(us: int, max_hsync: int, lines: int)
    ensures
        effective_cycles_per_line(us, max_hsync, lines) >= MIN_CYCLES_PER_LINE as int,
{
}

/// A longer exposure never has more effective cycles per line than a shorter
/// one, and never a smaller sync count.
pub proof fn lemma_exposure_is_monotonic(us1: int, us2: int, mode: Mu1603Mode, lines: int)
    requires
        us1 <= us2,
        0 < lines,
    ensures
        effective_cycles_per_line(us2, mode.spec_max_hsync() as int, lines)
            <= effective_cycles_per_line(us1, mode.spec_max_hsync() as int, lines),
        hsync_per_vsync(us1, mode.spec_max_hsync() as int, lines) <= hsync_per_vsync(
            us2,
            mode.spec_max_hsync() as int,
            lines,
        ),
{
    vstd::arithmetic::div_mod::lemma_div_is_ordered(
        us1 * CYCLES_PER_US as int,
        us2 * CYCLES_PER_US as int,
        lines,
    );
}

/// The two branches of the conversion: the sync count of the mode is kept
/// exactly while the request stays more than the minimum below it, and else
/// it is expanded. As long as the expanded count fits in 17 bits, the sync
/// count is the effective cycles per line and the request together.
pub proof fn lemma_exposure_branches(us: int, max_hsync: int, lines: int)
    ensures
        keeps_hsync(us, max_hsync, lines) <==> requested_cycles_per_line(us, lines) < max_hsync
            - MIN_CYCLES_PER_LINE as int,
        keeps_hsync(us, max_hsync, lines) ==> hsync_per_vsync(us, max_hsync, lines) == max_hsync,
        requested_cycles_per_line(us, lines) + MIN_CYCLES_PER_LINE as int <= HSYNC_CEILING as int
            ==> hsync_per_vsync(us, max_hsync, lines) == effective_cycles_per_line(
            us,
            max_hsync,
            lines,
        ) + requested_cycles_per_line(us, lines),
        !keeps_hsync(us, max_hsync, lines) ==> hsync_per_vsync(us, max_hsync, lines)
            <= HSYNC_CEILING as int,
{
}

/// The register values of an exposure hold the effective cycles per line and
/// the sync count themselves: no bit is cut off, whatever the mode and the
/// number of lines.
pub proof fn lemma_registers_hold_exposure(us: int, mode: Mu1603Mode, lines: int)
    requires
        0 <= us,
        0 < lines,
    ensures
        ({
            let max_hsync = mode.spec_max_hsync() as int;
            let regs = exposure_registers(us, max_hsync, lines);
            &&& regs.0 == effective_cycles_per_line(us, max_hsync, lines)
            &&& regs.1 * 0x10000 + regs.2 == hsync_per_vsync(us, max_hsync, lines)
        }),
{
    let max_hsync = mode.spec_max_hsync() as int;
    vstd::arithmetic::div_mod::lemma_div_is_ordered(0, us * CYCLES_PER_US as int, lines);
    assert(0int / lines == 0) by (nonlinear_arith)
        requires
            0 < lines,
    ;
}

/// The exposure time [in microseconds].
#[derive(Copy, Clone, Debug, PartialEq, Eq, Structural)]
pub struct ExposureTime(usize);

impl ExposureTime {
    pub const MIN: usize = 1_000;

    pub const MAX: usize = 125_000;

    pub const DEFAULT: usize = 94_000;

    pub closed spec fn spec_value(&self) -> usize {
        self.0
    }

    /// The value lies within the limits that the constructors clamp to.
    pub open spec fn in_range(&self) -> bool {
        1_000 <= self.spec_value() <= 125_000
    }

    /// An exposure of `ms` milliseconds, clamped to the limits: the exposure
    /// of a thousand times as many microseconds.
    pub fn new_from_ms(ms: usize) -> (res: Self)
        ensures
            res == Self::spec_new_from_us(ms * 1000),
            res.spec_value() == clamp(ms * 1000, 1_000, 125_000),
            res.in_range(),
    {
        if ms >= 125 {
            Self(Self::MAX)
        } else {
            Self::new_from_us(ms * 1000)
        }
    }

    /// The exposure that [`ExposureTime::new_from_us`] makes of `us`.
    pub closed spec fn spec_new_from_us(us: int) -> Self {
        ExposureTime(clamp(us, 1_000, 125_000) as usize)
    }

    /// An exposure of `us` microseconds, clamped to the limits.
    pub fn new_from_us(us: usize) -> (res: Self)
        ensures
            res == Self::spec_new_from_us(us as int),
            res.spec_value() == clamp(us as int, 1_000, 125_000),
            res.in_range(),
    {
        if us < Self::MIN {
            Self(Self::MIN)
        } else if us > Self::MAX {
            Self(Self::MAX)
        } else {
            Self(us)
        }
    }

    #[verifier::when_used_as_spec(spec_value)]
    pub fn value(&self) -> (v: usize)
        ensures
            v == self.spec_value(),
    {
        self.0
    }

    /// The stored microseconds, open for writing. Nothing clamps what is
    /// written through the reference.
    pub fn value_mut(&mut self) -> (v: &mut usize)
        ensures
            *v == old(self).spec_value(),
            final(self).spec_value() == *final(v),
    {
        &mut self.0
    }

    pub fn microseconds(&self) -> (us: usize)
        ensures
            us == self.spec_value(),
    {
        self.0
    }

    /// Whole milliseconds, rounded down.
    pub fn milliseconds(&self) -> (ms: usize)
        ensures
            ms == self.spec_value() / 1000,
    {
        self.0 / 1000
    }

    /// The register values that program this exposure in a mode, for a sensor
    /// that reads out `num_lines` lines per frame.
    pub fn convert(&self, mode: Mu1603Mode, num_lines: u16) -> (res: Option<(u16, u16, u16)>)
        requires
            num_lines > 0,
        ensures
            res == Some(
                exposure_registers(
                    self.spec_value() as int,
                    mode.spec_max_hsync() as int,
                    num_lines as int,
                ),
            ),
    {
        let lines: u128 = num_lines as u128;
        // ([us] * [cycles/us]) = [cycles]
        let req_exposure_cycles: u128 = (self.0 as u128) * (CYCLES_PER_US as u128);
        // [cycles] / [lines] = [cycles/line]
        let req_cycles_per_line: u128 = req_exposure_cycles / lines;
        let mut hsync_per_vsync: u128 = mode.max_hsync() as u128;
        let mut eff_cycles_per_line: u128 = MIN_CYCLES_PER_LINE as u128;

        if req_cycles_per_line < hsync_per_vsync - (MIN_CYCLES_PER_LINE as u128) {
            eff_cycles_per_line = hsync_per_vsync - req_cycles_per_line;
        } else if req_cycles_per_line > (HSYNC_CEILING - MIN_CYCLES_PER_LINE) as u128 {
            hsync_per_vsync = HSYNC_CEILING as u128;
        } else {
            hsync_per_vsync = req_cycles_per_line + (MIN_CYCLES_PER_LINE as u128);
        }
        let eff: u32 = eff_cycles_per_line as u32;
        let hsync: u32 = hsync_per_vsync as u32;
        assert(eff & 0x1fff == eff % 0x2000) by (bit_vector);
        assert((hsync >> 16) & 0xffff == (hsync / 0x10000) % 0x10000) by (bit_vector);
        assert(hsync & 0xffff == hsync % 0x10000) by (bit_vector);
        assert(eff & 0x1fff <= 0xffff) by (bit_vector);
        assert((hsync >> 16) & 0xffff <= 0xffff) by (bit_vector);
        assert(hsync & 0xffff <= 0xffff) by (bit_vector);
        let res_1064: u16 = (eff & 0x1fff) as u16;
        let res_4000: u16 = ((hsync >> 16) & 0xffff) as u16;
        let res_5000: u16 = (hsync & 0xffff) as u16;
        Some((res_1064, res_4000, res_5000))
    }
}

impl Default for ExposureTime {
    fn default() -> (res: Self)
        ensures
            res == Self::spec_new_from_us(94_000),
            res.spec_value() == 94_000,
            res.in_range(),
    {
        Self(Self::DEFAULT)
    }
}

/// The value of an exposure made from microseconds is the clamped number.
pub proof fn lemma_exposure_from_us(us: int)
    ensures
        ExposureTime::spec_new_from_us(us).spec_value() == clamp(us, 1_000, 125_000),
        ExposureTime::spec_new_from_us(us).in_range(),
{
}

/// An exposure is its number of microseconds: two exposures of the same
/// value are the same exposure.
pub proof fn lemma_exposure_eq(a: ExposureTime, b: ExposureTime)
    requires
        a.spec_value() == b.spec_value(),
    ensures
        a == b,
{
}

/// Clamping an exposure is stable under repetition: the exposure made from
/// the microseconds of an exposure is that exposure, and the two limits make
/// exposures of themselves.
pub proof fn lemma_exposure_is_stable(us: int)
    ensures
        ExposureTime::spec_new_from_us(ExposureTime::spec_new_from_us(us).spec_value() as int)
            == ExposureTime::spec_new_from_us(us),
        ExposureTime::spec_new_from_us(1_000).spec_value() == 1_000,
        ExposureTime::spec_new_from_us(125_000).spec_value() == 125_000,
        us <= 1_000 ==> ExposureTime::spec_new_from_us(us) == ExposureTime::spec_new_from_us(1_000),
        us >= 125_000 ==> ExposureTime::spec_new_from_us(us) == ExposureTime::spec_new_from_us(
            125_000,
        ),
{
}

/// The analog gain [in percent].
#[derive(Copy, Clone, Debug, PartialEq, Eq, Structural)]
pub struct AnalogGain(usize);

impl AnalogGain {
    pub const MIN: usize = 100;

    pub const MAX: usize = 300;

    pub const DEFAULT: usize = 100;

    pub closed spec fn spec_value(&self) -> usize {
        self.0
    }

    /// The value lies within the limits that the constructor clamps to.
    pub open spec fn in_range(&self) -> bool {
        100 <= self.spec_value() <= 300
    }

    /// The gain that [`AnalogGain::new_from_percent`] makes of `percent`.
    pub closed spec fn spec_new_from_percent(percent: usize) -> Self {
        AnalogGain(clamp(percent as int, 100, 300) as usize)
    }

    /// A gain of `percent` percent, clamped to the limits.
    pub fn new_from_percent(percent: usize) -> (res: Self)
        ensures
            res == Self::spec_new_from_percent(percent),
            res.spec_value() == clamp(percent as int, 100, 300),
            res.in_range(),
    {
        if percent < Self::MIN {
            Self(Self::MIN)
        } else if percent > Self::MAX {
            Self(Self::MAX)
        } else {
            Self(percent)
        }
    }

    #[verifier::when_used_as_spec(spec_value)]
    pub fn value(&self) -> (v: usize)
        ensures
            v == self.spec_value(),
    {
        self.0
    }

    /// The stored percentage, open for writing. Nothing clamps what is
    /// written through the reference.
    pub fn value_mut(&mut self) -> (v: &mut usize)
        ensures
            *v == old(self).spec_value(),
            final(self).spec_value() == *final(v),
    {
        &mut self.0
    }

    pub fn percent(&self) -> (p: usize)
        ensures
            p == self.spec_value(),
    {
        self.0
    }
}

impl Default for AnalogGain {
    fn default() -> (res: Self)
        ensures
            res == Self::spec_new_from_percent(100),
            res.spec_value() == 100,
            res.in_range(),
    {
        Self(Self::DEFAULT)
    }
}

/// The value of a gain made from a percentage is the clamped number.
pub proof fn lemma_gain_from_percent(percent: usize)
    ensures
        AnalogGain::spec_new_from_percent(percent).spec_value() == clamp(percent as int, 100, 300),
        AnalogGain::spec_new_from_percent(percent).in_range(),
{
}

/// A gain is its percentage: two gains of the same value are the same gain.
pub proof fn lemma_gain_eq(a: AnalogGain, b: AnalogGain)
    requires
        a.spec_value() == b.spec_value(),
    ensures
        a == b,
{
}

/// Clamping a gain is stable under repetition: the gain made from the
/// percentage of a gain is that gain, and the two limits make gains of
/// themselves.
pub proof fn lemma_gain_is_stable(percent: usize)
    ensures
        AnalogGain::spec_new_from_percent(
            AnalogGain::spec_new_from_percent(percent).spec_value(),
        ) == AnalogGain::spec_new_from_percent(percent),
        AnalogGain::spec_new_from_percent(100).spec_value() == 100,
        AnalogGain::spec_new_from_percent(300).spec_value() == 300,
{
}

/// Reflecting the current state of the camera.
#[derive(Copy, Clone, Debug, PartialEq, Eq, Structural)]
pub struct Mu1603State {
    pub id: usize,
    pub mode: Mu1603Mode,
    pub exposure: ExposureTime,
    pub analog_gain: AnalogGain,
    pub bitdepth: Mu1603BitDepth,
}

impl Mu1603State {
    pub fn exposure_ms(&self) -> (ms: usize)
        ensures
            ms == self.exposure.spec_value() / 1000,
    {
        self.exposure.milliseconds()
    }

    pub fn analog_gain_percent(&self) -> (p: usize)
        ensures
            p == self.analog_gain.spec_value(),
    {
        self.analog_gain.percent()
    }

    pub fn mode(&self) -> (m: &Mu1603Mode)
        ensures
            *m == self.mode,
    {
        &self.mode
    }

    pub fn exposure(&self) -> (e: &ExposureTime)
        ensures
            *e == self.exposure,
    {
        &self.exposure
    }

    pub fn analog_gain(&self) -> (g: &AnalogGain)
        ensures
            *g == self.analog_gain,
    {
        &self.analog_gain
    }

    pub fn bitdepth(&self) -> (d: &Mu1603BitDepth)
        ensures
            *d == self.bitdepth,
    {
        &self.bitdepth
    }

    pub fn mode_mut(&mut self) -> (m: &mut Mu1603Mode)
        ensures
            *m == old(self).mode,
            *final(self) == (Mu1603State { mode: *final(m), ..*old(self) }),
    {
        &mut self.mode
    }

    pub fn exposure_mut(&mut self) -> (e: &mut ExposureTime)
        ensures
            *e == old(self).exposure,
            *final(self) == (Mu1603State { exposure: *final(e), ..*old(self) }),
    {
        &mut self.exposure
    }

    pub fn analog_gain_mut(&mut self) -> (g: &mut AnalogGain)
        ensures
            *g == old(self).analog_gain,
            *final(self) == (Mu1603State { analog_gain: *final(g), ..*old(self) }),
    {
        &mut self.analog_gain
    }

    pub fn bitdepth_mut(&mut self) -> (d: &mut Mu1603BitDepth)
        ensures
            *d == old(self).bitdepth,
            *final(self) == (Mu1603State { bitdepth: *final(d), ..*old(self) }),
    {
        &mut self.bitdepth
    }
}

} // verus!
