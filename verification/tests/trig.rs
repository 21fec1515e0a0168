use std::f32::consts::PI;

use draygon_goop::trig::{cosmul, LAUNCH_VX, LAUNCH_VY, SINE_TABLE};

// The expected fixed-point cosine multiply, derived independently from
// single-precision sine the way the game's routine defines it.
fn reference_cosmul(x: u8, theta: u8) -> i32 {
    let theta = theta.wrapping_add(0x40);
    let sin = (((theta & 0x7F) as f32 / 0x80 as f32 * PI).sin() * 256.) as u8;
    let mul = x as u16 * sin as u16;

    let mut int = mul >> 8;
    let mut frac = (mul & 0xFF) << 8;

    if theta >= 0x80 {
        int = int.wrapping_neg();
        frac = frac.wrapping_neg();
    }

    ((int as u32) << 16 | (frac as u32)) as i32
}

#[test]
fn sine_table_matches_reference() {
    for k in 0..128u32 {
        let expected = ((k as f32 / 0x80 as f32 * PI).sin() * 256.) as u8;
        assert_eq!(SINE_TABLE[k as usize], expected, "sine entry {k}");
    }
}

#[test]
fn cosmul_matches_reference_for_every_angle() {
    for x in [0u8, 1, 0x20, 0x7F, 0xA5, 0xFF] {
        for theta in 0..=255u8 {
            assert_eq!(
                cosmul(x, theta),
                reference_cosmul(x, theta),
                "cosmul({x:#x}, {theta:#x})"
            );
        }
    }
}

#[test]
fn cosmul_fixed_values() {
    assert_eq!(cosmul(0x20, 0x00), 0x001F_E000);
    assert_eq!(cosmul(0x20, 0x40), 0x0000_0000);
    assert_eq!(cosmul(0x20, 0x80), 0xFFE1_2000u32 as i32);
    assert_eq!(cosmul(0x20, 0xC0), 0x0000_0000);
    assert_eq!(cosmul(0xFF, 0x99), 0xFF30_D100u32 as i32);
    assert_eq!(cosmul(0x00, 0x33), 0);
    assert_eq!(cosmul(0x7F, 0xFF), 0x007E_8100);
}

#[test]
fn cosmul_negates_halves_separately() {
    // At this angle the fractional half is nonzero, so negating the two
    // halves separately differs from negating the packed value by one
    // integer unit: the split form is the correct one.
    assert_eq!(cosmul(0x20, 0x55), -966_656);
    assert_ne!(cosmul(0x20, 0x55), -1_032_192);
    let positive = 0x000F_C000;
    assert_ne!(cosmul(0x20, 0x55), -positive);
}

#[test]
fn launch_tables_match_reference() {
    for a in 128..256u32 {
        let angle = (a as f32) * PI / 0x80 as f32;
        let vx = 2 * (angle.cos() * 65535.) as i32;
        let vy = 2 * (-angle.sin() * 65535.) as i32;
        assert_eq!(LAUNCH_VX[(a - 128) as usize], vx, "vx entry {a:#x}");
        assert_eq!(LAUNCH_VY[(a - 128) as usize], vy, "vy entry {a:#x}");
    }
}
