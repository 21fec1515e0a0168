use vstd::prelude::*;

verus! {

/// Sine scaled to a byte: entry k holds sin(k / 128 half-turns) * 256,
/// computed at single precision and truncated to byte range, the table the
/// game's oscillator reads. Entry 64 saturates at 255.
pub const SINE_TABLE: [u8; 128] = [
    0, 6, 12, 18, 25, 31, 37, 43, 49, 56, 62, 68,
    74, 80, 86, 92, 97, 103, 109, 115, 120, 126, 131, 136,
    142, 147, 152, 157, 162, 167, 171, 176, 181, 185, 189, 193,
    197, 201, 205, 209, 212, 216, 219, 222, 225, 228, 231, 234,
    236, 238, 241, 243, 244, 246, 248, 249, 251, 252, 253, 254,
    254, 255, 255, 255, 255, 255, 255, 255, 254, 254, 253, 252,
    251, 249, 248, 246, 244, 243, 241, 238, 236, 234, 231, 228,
    225, 222, 219, 216, 212, 209, 205, 201, 197, 193, 189, 185,
    181, 176, 171, 167, 162, 157, 152, 147, 142, 136, 131, 126,
    120, 115, 109, 103, 97, 92, 86, 80, 74, 68, 62, 56,
    49, 43, 37, 31, 25, 18, 12, 6,
];

/// 16.16 horizontal launch velocity at twice unit speed for an angle byte
/// of 0x80 + index: 2 * trunc(cos(angle * pi / 128) * 65535), the cosine
/// taken at single precision as the game's routine fixes it.
pub const LAUNCH_VX: [i32; 128] = [
    -131070, -131030, -130912, -130714, -130438, -130084, -129650, -129140,
    -128550, -127884, -127142, -126322, -125426, -124454, -123408, -122286,
    -121092, -119824, -118484, -117074, -115592, -114042, -112422, -110734,
    -108980, -107160, -105276, -103328, -101318, -99246, -97116, -94926,
    -92680, -90378, -88020, -85610, -83148, -80638, -78078, -75470,
    -72818, -70122, -67382, -64604, -61784, -58930, -56038, -53114,
    -50158, -47170, -44156, -41114, -38046, -34958, -31846, -28716,
    -25570, -22406, -19230, -16044, -12846, -9642, -6430, -3216,
    0, 3216, 6430, 9642, 12846, 16044, 19230, 22406,
    25570, 28716, 31846, 34958, 38046, 41114, 44156, 47170,
    50158, 53114, 56038, 58930, 61784, 64604, 67382, 70122,
    72818, 75470, 78078, 80638, 83148, 85610, 88020, 90378,
    92680, 94926, 97116, 99246, 101318, 103328, 105276, 107160,
    108980, 110734, 112422, 114042, 115592, 117074, 118484, 119824,
    121092, 122286, 123408, 124454, 125426, 126322, 127142, 127884,
    128550, 129140, 129650, 130084, 130438, 130714, 130912, 131030,
];

/// 16.16 vertical launch velocity, screen-down positive, for an angle byte
/// of 0x80 + index: 2 * trunc(-sin(angle * pi / 128) * 65535) at single
/// precision. Never negative: every launch angle points downward or level.
pub const LAUNCH_VY: [i32; 128] = [
    0, 3216, 6430, 9642, 12846, 16044, 19230, 22406,
    25570, 28716, 31846, 34958, 38046, 41114, 44156, 47170,
    50158, 53114, 56038, 58930, 61784, 64604, 67382, 70122,
    72818, 75470, 78078, 80638, 83148, 85610, 88020, 90378,
    92680, 94926, 97116, 99246, 101318, 103328, 105276, 107160,
    108980, 110734, 112422, 114042, 115592, 117074, 118484, 119824,
    121092, 122286, 123408, 124454, 125426, 126322, 127142, 127884,
    128550, 129140, 129650, 130084, 130438, 130714, 130912, 131030,
    131070, 131030, 130912, 130714, 130438, 130084, 129650, 129140,
    128550, 127884, 127140, 126322, 125426, 124454, 123408, 122286,
    121092, 119824, 118484, 117074, 115592, 114042, 112422, 110734,
    108980, 107160, 105276, 103328, 101318, 99246, 97116, 94926,
    92680, 90378, 88020, 85610, 83148, 80638, 78078, 75470,
    72818, 70122, 67382, 64604, 61784, 58930, 56038, 53114,
    50158, 47170, 44156, 41114, 38046, 34956, 31846, 28716,
    25570, 22406, 19230, 16044, 12846, 9642, 6430, 3216,
];

/// 16-bit two's-complement negation. The game's routine negates the integer
/// and fractional halves of the fixed-point product each on their own with
/// this, not the combined 32-bit value.
pub open spec fn neg16(v: u16) -> u16 {
    if v == 0 {
        0
    } else {
        (0x10000 - v) as u16
    }
}

/// The integer and fractional halves of amplitude * cos(theta): theta is
/// offset a quarter turn, the table gives a sine byte, the 16-bit product
/// splits into high and low bytes, and for angles in the second half-turn
/// each half is negated independently.
pub open spec fn cosmul_parts(x: u8, theta: u8) -> (u16, u16) {
    let t = if theta >= 0xC0 {
        (theta - 0xC0) as u8
    } else {
        (theta + 0x40) as u8
    };
    let sin = SINE_TABLE[(t & 0x7F) as int];
    let mul = (x * sin) as u16;
    let ip = mul >> 8;
    let fp = (mul & 0xFF) << 8;
    if t >= 0x80 {
        (neg16(ip), neg16(fp))
    } else {
        (ip, fp)
    }
}

/// amplitude * cos(theta) in 16.16 fixed point, packed exactly as the
/// game's routine packs it: integer half in the high word, fractional half
/// in the low word, reinterpreted as a signed 32-bit value.
pub open spec fn spec_cosmul(x: u8, theta: u8) -> i32 {
    (((cosmul_parts(x, theta).0 as u32) << 16) | (cosmul_parts(x, theta).1 as u32)) as i32
}

/// The signed integer half of the product: what a caller reads off the
/// high word of the packed value.
pub open spec fn cosmul_hi(x: u8, theta: u8) -> i16 {
    cosmul_parts(x, theta).0 as i16
}

/// 16-bit two's-complement negation, executable half.
fn twos_neg16(v: u16) -> (r: u16)
    ensures
        r == neg16(v),
{
    if v == 0 {
        0
    } else {
        (0xFFFF - v) + 1
    }
}

/// Amplitude times cosine of an 8-bit angle, as a 16.16 fixed-point value.
/// The split negation of the two halves for angles past the half-turn is a
/// load-bearing quirk: it rounds differently from negating the packed value.
pub fn cosmul(x: u8, theta: u8) -> (r: i32)
    ensures
        r == spec_cosmul(x, theta),
{
    let t = if theta >= 0xC0 {
        theta - 0xC0
    } else {
        theta + 0x40
    };
    proof {
        assert((t & 0x7F) < 128) by (bit_vector);
    }
    let sin = SINE_TABLE[(t & 0x7F) as usize];
    proof {
        assert((x as int) * (sin as int) <= 255 * 255) by (nonlinear_arith)
            requires
                0 <= x <= 255,
                0 <= sin <= 255,
        ;
    }
    let mul: u16 = (x as u16) * (sin as u16);
    let mut ip: u16 = mul >> 8;
    let mut fp: u16 = (mul & 0xFF) << 8;
    if t >= 0x80 {
        ip = twos_neg16(ip);
        fp = twos_neg16(fp);
    }
    let bits: u32 = ((ip as u32) << 16) | (fp as u32);
    #[verifier::truncate] (bits as i32)
}

/// Reading the high word of the packed product through an arithmetic shift
/// recovers the signed integer half, and that half never exceeds the
/// amplitude in magnitude.
pub proof fn lemma_cosmul_hi(x: u8, theta: u8)
    ensures
        ((spec_cosmul(x, theta) >> 16) as i16) == cosmul_hi(x, theta),
        -(x as int) <= cosmul_hi(x, theta) <= x as int,
{
    let t = if theta >= 0xC0 {
        (theta - 0xC0) as u8
    } else {
        (theta + 0x40) as u8
    };
    let sin = SINE_TABLE[(t & 0x7F) as int];
    let mul = (x * sin) as u16;
    assert(x * sin <= x * 255) by (nonlinear_arith)
        requires
            sin <= 255,
            x >= 0,
            sin >= 0,
    ;
    assert(mul <= 255 * (x as u16) ==> mul >> 8 <= x) by (bit_vector);
    let ip = cosmul_parts(x, theta).0;
    let fp = cosmul_parts(x, theta).1;
    assert(((((ip as u32) << 16) | (fp as u32)) as i32 >> 16) as i16 == ip as i16) by (bit_vector);
    let ip0 = mul >> 8;
    assert(ip0 < 0x8000 ==> ip0 as i16 == ip0 as int) by (bit_vector);
    if t >= 0x80 && ip0 != 0 {
        let n = (0x10000 - ip0) as u16;
        assert(n as i16 == -(ip0 as int)) by (bit_vector)
            requires
                n == (0x10000 - ip0) as u16,
                0 < ip0 < 0x8000,
        ;
    }
}

/// Every launch velocity lies within the 16.16 two-unit speed bound, points
/// level or downward vertically, and keeps at least one component at the
/// diagonal minimum, so a projectile crosses the field in bounded steps.
pub open spec fn launch_speed_ok(i: int) -> bool {
    &&& -131070 <= LAUNCH_VX[i] <= 131070
    &&& 0 <= LAUNCH_VY[i] <= 131070
    &&& (LAUNCH_VX[i] <= -92680 || LAUNCH_VX[i] >= 92680 || LAUNCH_VY[i] >= 92680)
}

/// The bound holds of every entry of the launch tables.
pub proof fn lemma_launch_tables()
    ensures
        forall|i: int| 0 <= i < 128 ==> #[trigger] launch_speed_ok(i),
{
}

} // verus!
