//! The SSTV encoder: from a scan mode and a pixel grid to tone events.
//!
//! A transmission is, in order: an optional VOX priming preamble, the VIS
//! header (leader tones, seven data bits least-significant first, one even
//! parity bit, a trailing sync), and one sync pulse plus one luminance tone
//! per pixel for every scan line, top to bottom and left to right.  The spec
//! functions below state that sequence exactly; the executable encoder is
//! proved to produce it.

use vstd::prelude::*;
use crate::grid::PixelGrid;
use crate::tones::ToneEvent;
use crate::tones::SstvError;
use crate::tones::FREQ_VIS_BIT1;
use crate::tones::FREQ_SYNC;
use crate::tones::FREQ_VIS_BIT0;
use crate::tones::FREQ_BLACK;
use crate::tones::FREQ_VIS_START;
use crate::tones::FREQ_WHITE;
use crate::tones::FREQ_RANGE;
use crate::tones::NSEC_VIS_START;
use crate::tones::NSEC_VIS_SYNC;
use crate::tones::NSEC_VIS_BIT;
use crate::tones::NSEC_LINE_SYNC;
use crate::tones::NSEC_VOX_TONE;

verus! {

/// The built-in catalog of scan modes.
#[derive(Clone, Copy, Debug, PartialEq, Eq, Structural)]
pub enum SstvModes {
    Robot8BW,
    Robot24BW,
}

/// A grayscale scan mode bound to the picture it will transmit.
pub struct GrayscaleSstv {
    /// The 7-bit VIS identifier of the mode.
    pub vis_code: u8,
    /// Scan width in pixel columns.
    pub width: u32,
    /// Scan height in lines.
    pub height: u32,
    /// Time to transmit the pixels of one line, in milliseconds.
    pub scan: u8,
    /// The picture; only its top-left width × height region is read.
    pub pic: PixelGrid,
}

/// The frequency, in millihertz, that carries a luminance byte: black maps to
/// 1500 Hz, white to 2300 Hz, linearly and monotonically in between.
pub open spec fn spec_byte_to_freq(v: u8) -> u64 {
    (FREQ_BLACK + FREQ_RANGE * (v as int) / 255) as u64
}

/// Maps one luminance byte to its tone frequency in millihertz.
pub fn byte_to_freq(value: u8) -> (r: u64)
    ensures
        r == spec_byte_to_freq(value),
        FREQ_BLACK <= r <= FREQ_WHITE,
{
    FREQ_BLACK + FREQ_RANGE * (value as u64) / 255
}

/// The luminance mapping is monotone and hits the band edges exactly.
pub proof fn lemma_byte_to_freq_monotone(a: u8, b: u8)
    requires
        a <= b,
    ensures
        spec_byte_to_freq(a) <= spec_byte_to_freq(b),
        spec_byte_to_freq(0) == FREQ_BLACK,
        spec_byte_to_freq(255) == FREQ_WHITE,
{
    assert(FREQ_RANGE * (a as int) <= FREQ_RANGE * (b as int));
    vstd::arithmetic::div_mod::lemma_div_is_ordered(
        FREQ_RANGE * (a as int),
        FREQ_RANGE * (b as int),
        255,
    );
}

impl GrayscaleSstv {
    /// The mode descriptor is usable: positive dimensions and a coherent grid.
    pub open spec fn wf(self) -> bool {
        &&& self.width >= 1
        &&& self.height >= 1
        &&& self.pic.wf()
    }

    /// The picture covers the region the mode scans.
    pub open spec fn pic_fits(self) -> bool {
        &&& self.pic.spec_width() >= self.width
        &&& self.pic.spec_height() >= self.height
    }

    /// Binds a catalog mode to a picture.
    pub fn new(mode: SstvModes, pic: PixelGrid) -> (r: GrayscaleSstv)
        ensures
            r.pic == pic,
            match mode {
                SstvModes::Robot8BW => r.vis_code == 0x02 && r.width == 160 && r.height == 120
                    && r.scan == 60,
                SstvModes::Robot24BW => r.vis_code == 0x0A && r.width == 320 && r.height == 240
                    && r.scan == 93,
            },
    {
        match mode {
            SstvModes::Robot8BW => GrayscaleSstv {
                vis_code: 0x02,
                width: 160,
                height: 120,
                scan: 60,
                pic,
            },
            SstvModes::Robot24BW => GrayscaleSstv {
                vis_code: 0x0A,
                width: 320,
                height: 240,
                scan: 93,
                pic,
            },
        }
    }

    /// The VIS identifier of the bound mode.
    pub fn vis_code(&self) -> (r: u8)
        ensures
            r == self.vis_code,
    {
        self.vis_code
    }

    /// Duration of one pixel tone in nanoseconds: the scan time divided
    /// evenly over the columns.
    pub open spec fn spec_pixel_dur_ns(self) -> u64 {
        ((self.scan as int) * 1_000_000 / (self.width as int)) as u64
    }

    /// The tone that carries the pixel at the given line and column.
    pub open spec fn spec_pixel_tone(self, line: int, col: int) -> ToneEvent {
        ToneEvent {
            freq_mhz: spec_byte_to_freq(self.pic.spec_pixel(line, col)),
            dur_ns: self.spec_pixel_dur_ns(),
        }
    }

    /// One scan line: a sync pulse, then the line's pixel tones left to right.
    pub open spec fn spec_line_tones(self, line: int) -> Seq<ToneEvent> {
        seq![spec_sync_pulse()] + Seq::new(
            self.width as nat,
            |col: int| self.spec_pixel_tone(line, col),
        )
    }

    /// The first `lines` scan lines, top to bottom.
    pub open spec fn spec_scan_tones(self, lines: int) -> Seq<ToneEvent>
        decreases lines,
    {
        if lines <= 0 {
            Seq::empty()
        } else {
            self.spec_scan_tones(lines - 1) + self.spec_line_tones(lines - 1)
        }
    }

    /// The whole transmission: VOX priming when asked for, the VIS header,
    /// then every scan line.
    pub open spec fn spec_transmission(self, vox_enabled: bool) -> Seq<ToneEvent> {
        (if vox_enabled {
            spec_vox_tones()
        } else {
            Seq::<ToneEvent>::empty()
        }) + spec_vis_header(self.vis_code as int) + self.spec_scan_tones(self.height as int)
    }

    /// Emits the scan-line tones: for each of the mode's lines, one sync
    /// pulse and then one luminance tone per column.  Refused when the
    /// picture does not cover the scanned region.
    pub fn gen_image_tuples(&self) -> (r: Result<Vec<ToneEvent>, SstvError>)
        requires
            self.wf(),
        ensures
            r is Ok <==> self.pic_fits(),
            r is Ok ==> r->Ok_0@ == self.spec_scan_tones(self.height as int),
            r is Err ==> r->Err_0 == SstvError::ImageTooSmall,
    {
        if self.pic.width() < self.width {
            return Err(SstvError::ImageTooSmall);
        }
        if self.pic.height() < self.height {
            return Err(SstvError::ImageTooSmall);
        }
        let dur_ns: u64 = (self.scan as u64) * 1_000_000 / (self.width as u64);
        let mut out: Vec<ToneEvent> = Vec::new();
        let mut line: u32 = 0;
        while line < self.height
            invariant
                self.wf(),
                self.pic_fits(),
                line <= self.height,
                dur_ns == self.spec_pixel_dur_ns(),
                out@ == self.spec_scan_tones(line as int),
            decreases self.height - line,
        {
            out.push(ToneEvent { freq_mhz: FREQ_SYNC, dur_ns: NSEC_LINE_SYNC });
            let mut col: u32 = 0;
            while col < self.width
                invariant
                    self.wf(),
                    self.pic_fits(),
                    line < self.height,
                    col <= self.width,
                    dur_ns == self.spec_pixel_dur_ns(),
                    out@ == self.spec_scan_tones(line as int) + seq![spec_sync_pulse()]
                        + Seq::new(col as nat, |c: int| self.spec_pixel_tone(line as int, c)),
                decreases self.width - col,
            {
                let pixel = self.pic.get_pixel(col, line);
                out.push(ToneEvent { freq_mhz: byte_to_freq(pixel), dur_ns });
                col = col + 1;
                proof {
                    let prefix = self.spec_scan_tones(line as int) + seq![spec_sync_pulse()];
                    let done = Seq::new(col as nat, |c: int| self.spec_pixel_tone(line as int, c));
                    assert(out@ =~= prefix + done);
                }
            }
            line = line + 1;
            proof {
                assert(out@ =~= self.spec_scan_tones(line as int));
            }
        }
        Ok(out)
    }
}

/// The sync pulse that opens every scan line: 1200 Hz for 7 ms.
pub open spec fn spec_sync_pulse() -> ToneEvent {
    ToneEvent { freq_mhz: FREQ_SYNC, dur_ns: NSEC_LINE_SYNC }
}

/// The tone that carries one VIS bit: 1100 Hz for a 1, 1300 Hz for a 0.
pub open spec fn spec_vis_bit_tone(bit: int) -> ToneEvent {
    ToneEvent {
        freq_mhz: if bit == 1 { FREQ_VIS_BIT1 } else { FREQ_VIS_BIT0 },
        dur_ns: NSEC_VIS_BIT,
    }
}

/// The low `n` bits of `code`, least significant first, as VIS bit tones.
pub open spec fn spec_vis_bits(code: int, n: nat) -> Seq<ToneEvent>
    decreases n,
{
    if n == 0 {
        Seq::empty()
    } else {
        seq![spec_vis_bit_tone(code % 2)] + spec_vis_bits(code / 2, (n - 1) as nat)
    }
}

/// The number of set bits among the low `n` bits of `code`.
pub open spec fn spec_ones(code: int, n: nat) -> int
    decreases n,
{
    if n == 0 {
        0
    } else {
        code % 2 + spec_ones(code / 2, (n - 1) as nat)
    }
}

/// The VIS parity bit: 1 when the seven data bits hold an odd number of ones.
pub open spec fn spec_parity_bit(code: int) -> int {
    spec_ones(code, 7) % 2
}

/// The four leader tones that open the VIS header.
pub open spec fn spec_vis_leader() -> Seq<ToneEvent> {
    seq![
        ToneEvent { freq_mhz: FREQ_VIS_START, dur_ns: NSEC_VIS_START },
        ToneEvent { freq_mhz: FREQ_SYNC, dur_ns: NSEC_VIS_SYNC },
        ToneEvent { freq_mhz: FREQ_VIS_START, dur_ns: NSEC_VIS_START },
        ToneEvent { freq_mhz: FREQ_SYNC, dur_ns: NSEC_VIS_BIT },
    ]
}

/// The full VIS header: leader, seven data bits least significant first,
/// the parity bit, and a trailing sync tone.
pub open spec fn spec_vis_header(code: int) -> Seq<ToneEvent> {
    spec_vis_leader() + spec_vis_bits(code, 7) + seq![
        spec_vis_bit_tone(spec_parity_bit(code)),
        ToneEvent { freq_mhz: FREQ_SYNC, dur_ns: NSEC_VIS_BIT },
    ]
}

/// The eight fixed VOX priming tones, 100 ms each.
pub open spec fn spec_vox_tones() -> Seq<ToneEvent> {
    seq![
        ToneEvent { freq_mhz: 1_900_000u64, dur_ns: NSEC_VOX_TONE },
        ToneEvent { freq_mhz: 1_500_000u64, dur_ns: NSEC_VOX_TONE },
        ToneEvent { freq_mhz: 1_900_000u64, dur_ns: NSEC_VOX_TONE },
        ToneEvent { freq_mhz: 1_500_000u64, dur_ns: NSEC_VOX_TONE },
        ToneEvent { freq_mhz: 2_300_000u64, dur_ns: NSEC_VOX_TONE },
        ToneEvent { freq_mhz: 1_500_000u64, dur_ns: NSEC_VOX_TONE },
        ToneEvent { freq_mhz: 2_300_000u64, dur_ns: NSEC_VOX_TONE },
        ToneEvent { freq_mhz: 1_500_000u64, dur_ns: NSEC_VOX_TONE },
    ]
}

/// The low `n` bits of a code give `n` bit tones.
pub proof fn lemma_vis_bits_len(code: int, n: nat)
    ensures
        spec_vis_bits(code, n).len() == n,
    decreases n,
{
    if n > 0 {
        lemma_vis_bits_len(code / 2, (n - 1) as nat);
    }
}

/// VIS parity law: the ninth VIS tone after the leader — index 11 of the
/// header — carries the bit-1 frequency exactly when the seven data bits of
/// the code hold an odd number of ones, and the bit-0 frequency otherwise.
pub proof fn lemma_vis_parity(code: u8)
    ensures
        spec_vis_header(code as int).len() == 13,
        spec_vis_header(code as int)[11] == spec_vis_bit_tone(spec_parity_bit(code as int)),
        spec_vis_header(code as int)[11].freq_mhz == FREQ_VIS_BIT1 <==> spec_ones(
            code as int,
            7,
        ) % 2 == 1,
{
    lemma_vis_bits_len(code as int, 7);
    assert(spec_vis_header(code as int)[11] == spec_vis_bit_tone(spec_parity_bit(code as int)));
}

/// Parity is blind to the top bit of the byte: only the seven data bits
/// count.
pub proof fn lemma_parity_low_bits_only(code: u8)
    ensures
        spec_parity_bit(code as int) == spec_parity_bit((code % 128) as int),
{
    vstd::arithmetic::power2::lemma2_to64();
    lemma_ones_low_bits(code as int, 7);
}

/// Counting the low `n` bits of `code` equals counting the low `n` bits of
/// `code % pow2(n)`.
proof fn lemma_ones_low_bits(code: int, n: nat)
    requires
        code >= 0,
    ensures
        spec_ones(code, n) == spec_ones(code % (vstd::arithmetic::power2::pow2(n) as int), n),
    decreases n,
{
    vstd::arithmetic::power2::lemma_pow2_pos(n);
    if n == 0 {
        assert(code % 1 == 0);
    } else {
        let p = vstd::arithmetic::power2::pow2(n) as int;
        let pl = vstd::arithmetic::power2::pow2((n - 1) as nat) as int;
        vstd::arithmetic::power2::lemma_pow2_pos((n - 1) as nat);
        vstd::arithmetic::power2::lemma_pow2_unfold(n);
        assert(p == 2 * pl);
        let b = code % 2;
        let q = (code / 2) % pl;
        vstd::arithmetic::div_mod::lemma_mod_breakdown(code, 2, pl);
        assert(code % p == 2 * q + b);
        let r = code % p;
        assert(r % 2 == b) by {
            vstd::arithmetic::div_mod::lemma_mod_multiples_vanish(q, b, 2);
        }
        assert(r / 2 == q) by {
            vstd::arithmetic::div_mod::lemma_div_multiples_vanish_fancy(q, b, 2);
        }
        lemma_ones_low_bits(code / 2, (n - 1) as nat);
        assert(spec_ones(r, n) == r % 2 + spec_ones(r / 2, (n - 1) as nat));
        assert(spec_ones(code, n) == b + spec_ones(code / 2, (n - 1) as nat));
    }
}

/// The scan section of `n` lines holds `n * (1 + width)` tones.
pub proof fn lemma_scan_tones_len(g: GrayscaleSstv, n: int)
    requires
        n >= 0,
    ensures
        g.spec_scan_tones(n).len() == n * (1 + g.width as int),
    decreases n,
{
    let w1 = 1 + g.width as int;
    if n > 0 {
        lemma_scan_tones_len(g, n - 1);
        assert(g.spec_line_tones(n - 1).len() == w1);
        assert(g.spec_scan_tones(n) == g.spec_scan_tones(n - 1) + g.spec_line_tones(n - 1));
        assert((g.spec_scan_tones(n - 1) + g.spec_line_tones(n - 1)).len() == g.spec_scan_tones(
            n - 1,
        ).len() + g.spec_line_tones(n - 1).len());
        assert((n - 1) * w1 + w1 == n * w1) by (nonlinear_arith);
    } else {
        assert(n * (1 + g.width as int) == 0) by (nonlinear_arith)
            requires
                n == 0,
        ;
    }
}

/// Every luminance tone stays inside the black-to-white band.
pub proof fn lemma_byte_to_freq_bounds(v: u8)
    ensures
        FREQ_BLACK <= spec_byte_to_freq(v) <= FREQ_WHITE,
{
    assert(0 <= FREQ_RANGE * (v as int));
    vstd::arithmetic::div_mod::lemma_div_pos_is_pos(FREQ_RANGE * (v as int), 255);
    assert(FREQ_RANGE * (v as int) <= FREQ_RANGE * 255);
    vstd::arithmetic::div_mod::lemma_div_is_ordered(
        FREQ_RANGE * (v as int),
        FREQ_RANGE * 255,
        255,
    );
}

/// How many tones of a sequence carry the given frequency.
pub open spec fn spec_count_freq(s: Seq<ToneEvent>, freq: u64) -> int
    decreases s.len(),
{
    if s.len() == 0 {
        0
    } else {
        (if s[0].freq_mhz == freq {
            1int
        } else {
            0int
        }) + spec_count_freq(s.drop_first(), freq)
    }
}

/// Counting distributes over concatenation.
proof fn lemma_count_freq_add(a: Seq<ToneEvent>, b: Seq<ToneEvent>, freq: u64)
    ensures
        spec_count_freq(a + b, freq) == spec_count_freq(a, freq) + spec_count_freq(b, freq),
    decreases a.len(),
{
    if a.len() == 0 {
        assert(a + b =~= b);
    } else {
        assert((a + b).drop_first() =~= a.drop_first() + b);
        assert((a + b)[0] == a[0]);
        lemma_count_freq_add(a.drop_first(), b, freq);
    }
}

/// A sequence without the frequency counts zero.
proof fn lemma_count_freq_none(s: Seq<ToneEvent>, freq: u64)
    requires
        forall|i: int| 0 <= i < s.len() ==> s[i].freq_mhz != freq,
    ensures
        spec_count_freq(s, freq) == 0,
    decreases s.len(),
{
    if s.len() > 0 {
        lemma_count_freq_none(s.drop_first(), freq);
    }
}

/// Sync-count law: the scan section of `n` lines holds exactly `n` tones at
/// the sync frequency — one per line — and all of its other `n · width`
/// tones are luminance tones, whose band lies strictly above the sync
/// frequency.
pub proof fn lemma_sync_pulse_count(g: GrayscaleSstv, n: int)
    requires
        g.wf(),
        n >= 0,
    ensures
        spec_count_freq(g.spec_scan_tones(n), FREQ_SYNC) == n,
        g.spec_scan_tones(n).len() - spec_count_freq(g.spec_scan_tones(n), FREQ_SYNC) == n * (
        g.width as int),
    decreases n,
{
    lemma_scan_tones_len(g, n);
    if n == 0 {
        assert(n * (g.width as int) == 0) by (nonlinear_arith)
            requires
                n == 0,
        ;
    } else {
        lemma_sync_pulse_count(g, n - 1);
        let line = g.spec_line_tones(n - 1);
        lemma_count_freq_add(g.spec_scan_tones(n - 1), line, FREQ_SYNC);
        let row = Seq::new(g.width as nat, |col: int| g.spec_pixel_tone(n - 1, col));
        lemma_count_freq_add(seq![spec_sync_pulse()], row, FREQ_SYNC);
        assert(seq![spec_sync_pulse()].drop_first() =~= Seq::<ToneEvent>::empty());
        assert(spec_count_freq(Seq::<ToneEvent>::empty(), FREQ_SYNC) == 0);
        assert(spec_count_freq(seq![spec_sync_pulse()], FREQ_SYNC) == 1);
        assert forall|i: int| 0 <= i < row.len() implies row[i].freq_mhz != FREQ_SYNC by {
            lemma_byte_to_freq_bounds(g.pic.spec_pixel(n - 1, i));
        }
        lemma_count_freq_none(row, FREQ_SYNC);
        assert((n - 1) * (1 + g.width as int) + (1 + g.width as int) == n * (1 + g.width as int))
            by (nonlinear_arith);
        assert(n * (1 + g.width as int) - n == n * (g.width as int)) by (nonlinear_arith);
    }
}

/// Scan geometry law: in the scan section of a mode with height H and width
/// W, the tone at index `line * (1 + W)` is the sync pulse of that line, and
/// the tone at index `line * (1 + W) + 1 + col` is the luminance tone of the
/// pixel at that line and column — H sync pulses and H × W pixel tones, in
/// row-major order, and nothing else, since the section's length is
/// H * (1 + W).
pub proof fn lemma_scan_geometry(g: GrayscaleSstv, line: int, col: int)
    requires
        g.wf(),
        0 <= line < g.height as int,
        0 <= col < g.width as int,
    ensures
        g.spec_scan_tones(g.height as int).len() == (g.height as int) * (1 + g.width as int),
        g.spec_scan_tones(g.height as int)[line * (1 + g.width as int)] == spec_sync_pulse(),
        g.spec_scan_tones(g.height as int)[line * (1 + g.width as int) + 1 + col]
            == g.spec_pixel_tone(line, col),
{
    lemma_scan_tones_len(g, g.height as int);
    lemma_scan_tones_index(g, g.height as int, line);
    let w1 = 1 + g.width as int;
    assert(g.spec_scan_tones(g.height as int)[line * w1 + 0] == g.spec_line_tones(line)[0]);
    assert(g.spec_line_tones(line)[0] == spec_sync_pulse());
    assert(g.spec_scan_tones(g.height as int)[line * w1 + (1 + col)] == g.spec_line_tones(
        line,
    )[1 + col]);
    assert(g.spec_line_tones(line)[1 + col] == g.spec_pixel_tone(line, col));
}

/// Within the first `n` scan lines, the tones of line `line` sit at offset
/// `line * (1 + width)`.
proof fn lemma_scan_tones_index(g: GrayscaleSstv, n: int, line: int)
    requires
        0 <= line < n,
    ensures
        forall|k: int|
            0 <= k < 1 + g.width as int ==> g.spec_scan_tones(n)[line * (1 + g.width as int) + k]
                == g.spec_line_tones(line)[k],
    decreases n,
{
    let w1 = 1 + g.width as int;
    lemma_scan_tones_len(g, n - 1);
    if line == n - 1 {
        assert forall|k: int| 0 <= k < w1 implies g.spec_scan_tones(n)[line * w1 + k]
            == g.spec_line_tones(line)[k] by {
            assert(g.spec_scan_tones(n) == g.spec_scan_tones(n - 1) + g.spec_line_tones(n - 1));
        }
    } else {
        lemma_scan_tones_index(g, n - 1, line);
        assert forall|k: int| 0 <= k < w1 implies g.spec_scan_tones(n)[line * w1 + k]
            == g.spec_line_tones(line)[k] by {
            assert(line * w1 + k < (n - 1) * w1) by (nonlinear_arith)
                requires
                    0 <= k < w1,
                    0 <= line <= n - 2,
            ;
            assert(g.spec_scan_tones(n) == g.spec_scan_tones(n - 1) + g.spec_line_tones(n - 1));
            assert(g.spec_scan_tones(n)[line * w1 + k] == g.spec_scan_tones(n - 1)[line * w1 + k]);
        }
    }
}

/// Transmission layout law: the emitted sequence is the eight VOX tones (when
/// enabled), then the thirteen VIS header tones, then the scan section — each
/// part standing unchanged at its fixed offset.
pub proof fn lemma_transmission_layout(g: GrayscaleSstv, vox_enabled: bool)
    ensures
        ({
            let head: int = if vox_enabled { 8 } else { 0 };
            let t = g.spec_transmission(vox_enabled);
            let scan = g.spec_scan_tones(g.height as int);
            &&& t.len() == head + 13 + scan.len()
            &&& (vox_enabled ==> forall|j: int| 0 <= j < 8 ==> t[j] == spec_vox_tones()[j])
            &&& forall|j: int|
                0 <= j < 13 ==> t[head + j] == spec_vis_header(g.vis_code as int)[j]
            &&& forall|j: int| 0 <= j < scan.len() ==> t[head + 13 + j] == scan[j]
        }),
{
    lemma_vis_bits_len(g.vis_code as int, 7);
    assert(spec_vis_header(g.vis_code as int).len() == 13);
}

/// Emits a full SSTV transmission for the given mode and picture: the VOX
/// preamble when enabled, the VIS header of the mode's code, then every scan
/// line.  Refused exactly when the picture does not cover the scanned region,
/// in which case nothing is emitted.
pub fn gen_freq_bits(vox_enabled: bool, mode: &GrayscaleSstv) -> (r: Result<
    Vec<ToneEvent>,
    SstvError,
>)
    requires
        mode.wf(),
    ensures
        r is Ok <==> mode.pic_fits(),
        r is Ok ==> r->Ok_0@ == mode.spec_transmission(vox_enabled),
        r is Err ==> r->Err_0 == SstvError::ImageTooSmall,
{
    let mut scan = match mode.gen_image_tuples() {
        Ok(v) => v,
        Err(e) => {
            return Err(e);
        },
    };
    let mut out: Vec<ToneEvent> = Vec::new();
    if vox_enabled {
        out.push(ToneEvent { freq_mhz: 1_900_000, dur_ns: NSEC_VOX_TONE });
        out.push(ToneEvent { freq_mhz: 1_500_000, dur_ns: NSEC_VOX_TONE });
        out.push(ToneEvent { freq_mhz: 1_900_000, dur_ns: NSEC_VOX_TONE });
        out.push(ToneEvent { freq_mhz: 1_500_000, dur_ns: NSEC_VOX_TONE });
        out.push(ToneEvent { freq_mhz: 2_300_000, dur_ns: NSEC_VOX_TONE });
        out.push(ToneEvent { freq_mhz: 1_500_000, dur_ns: NSEC_VOX_TONE });
        out.push(ToneEvent { freq_mhz: 2_300_000, dur_ns: NSEC_VOX_TONE });
        out.push(ToneEvent { freq_mhz: 1_500_000, dur_ns: NSEC_VOX_TONE });
        proof {
            assert(out@ =~= spec_vox_tones());
        }
    }
    let ghost vox_part = out@;
    out.push(ToneEvent { freq_mhz: FREQ_VIS_START, dur_ns: NSEC_VIS_START });
    out.push(ToneEvent { freq_mhz: FREQ_SYNC, dur_ns: NSEC_VIS_SYNC });
    out.push(ToneEvent { freq_mhz: FREQ_VIS_START, dur_ns: NSEC_VIS_START });
    out.push(ToneEvent { freq_mhz: FREQ_SYNC, dur_ns: NSEC_VIS_BIT });
    proof {
        assert(out@ =~= vox_part + spec_vis_leader());
    }
    let ghost pre = out@;
    let code: u8 = mode.vis_code();
    let mut vis: u8 = code;
    let mut num_ones: u8 = 0;
    let mut i: u8 = 0;
    while i < 7
        invariant
            i <= 7,
            num_ones <= i,
            out@ + spec_vis_bits(vis as int, (7 - i) as nat) == pre + spec_vis_bits(
                code as int,
                7,
            ),
            num_ones + spec_ones(vis as int, (7 - i) as nat) == spec_ones(code as int, 7),
        decreases 7 - i,
    {
        let ghost old_vis = vis as int;
        let ghost k = (7 - i) as nat;
        let bit: u8 = vis % 2;
        vis = vis / 2;
        num_ones = num_ones + bit;
        if bit == 1 {
            out.push(ToneEvent { freq_mhz: FREQ_VIS_BIT1, dur_ns: NSEC_VIS_BIT });
        } else {
            out.push(ToneEvent { freq_mhz: FREQ_VIS_BIT0, dur_ns: NSEC_VIS_BIT });
        }
        i = i + 1;
        proof {
            assert(spec_vis_bits(old_vis, k) == seq![spec_vis_bit_tone(old_vis % 2)]
                + spec_vis_bits(old_vis / 2, (k - 1) as nat));
            assert(out@ + spec_vis_bits(vis as int, (7 - i) as nat) =~= pre + spec_vis_bits(
                code as int,
                7,
            ));
        }
    }
    proof {
        assert(out@ + spec_vis_bits(vis as int, 0) =~= out@);
        assert(out@ =~= pre + spec_vis_bits(code as int, 7));
        assert(num_ones == spec_ones(code as int, 7));
    }
    let parity: u8 = num_ones % 2;
    if parity == 1 {
        out.push(ToneEvent { freq_mhz: FREQ_VIS_BIT1, dur_ns: NSEC_VIS_BIT });
    } else {
        out.push(ToneEvent { freq_mhz: FREQ_VIS_BIT0, dur_ns: NSEC_VIS_BIT });
    }
    out.push(ToneEvent { freq_mhz: FREQ_SYNC, dur_ns: NSEC_VIS_BIT });
    proof {
        assert(out@ =~= vox_part + spec_vis_header(code as int));
    }
    out.append(&mut scan);
    proof {
        assert(out@ =~= mode.spec_transmission(vox_enabled));
    }
    Ok(out)
}

} // verus!
