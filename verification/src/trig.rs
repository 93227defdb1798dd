//! Sines and cosines of whole degrees, scaled to the length of one step.

use vstd::prelude::*;
use vstd::arithmetic::div_mod::*;
use crate::units::STEP;

verus! {

/// `STEP` times the sine of `d` degrees, to the nearest unit, for `d` in the
/// first quarter turn (`0..=90`).
pub open spec fn quarter_sine(d: int) -> int {
    if d == 0 {
        0
    } else if d == 1 {
        1745
    } else if d == 2 {
        3490
    } else if d == 3 {
        5234
    } else if d == 4 {
        6976
    } else if d == 5 {
        8716
    } else if d == 6 {
        10453
    } else if d == 7 {
        12187
    } else if d == 8 {
        13917
    } else if d == 9 {
        15643
    } else if d == 10 {
        17365
    } else if d == 11 {
        19081
    } else if d == 12 {
        20791
    } else if d == 13 {
        22495
    } else if d == 14 {
        24192
    } else if d == 15 {
        25882
    } else if d == 16 {
        27564
    } else if d == 17 {
        29237
    } else if d == 18 {
        30902
    } else if d == 19 {
        32557
    } else if d == 20 {
        34202
    } else if d == 21 {
        35837
    } else if d == 22 {
        37461
    } else if d == 23 {
        39073
    } else if d == 24 {
        40674
    } else if d == 25 {
        42262
    } else if d == 26 {
        43837
    } else if d == 27 {
        45399
    } else if d == 28 {
        46947
    } else if d == 29 {
        48481
    } else if d == 30 {
        50000
    } else if d == 31 {
        51504
    } else if d == 32 {
        52992
    } else if d == 33 {
        54464
    } else if d == 34 {
        55919
    } else if d == 35 {
        57358
    } else if d == 36 {
        58779
    } else if d == 37 {
        60182
    } else if d == 38 {
        61566
    } else if d == 39 {
        62932
    } else if d == 40 {
        64279
    } else if d == 41 {
        65606
    } else if d == 42 {
        66913
    } else if d == 43 {
        68200
    } else if d == 44 {
        69466
    } else if d == 45 {
        70711
    } else if d == 46 {
        71934
    } else if d == 47 {
        73135
    } else if d == 48 {
        74314
    } else if d == 49 {
        75471
    } else if d == 50 {
        76604
    } else if d == 51 {
        77715
    } else if d == 52 {
        78801
    } else if d == 53 {
        79864
    } else if d == 54 {
        80902
    } else if d == 55 {
        81915
    } else if d == 56 {
        82904
    } else if d == 57 {
        83867
    } else if d == 58 {
        84805
    } else if d == 59 {
        85717
    } else if d == 60 {
        86603
    } else if d == 61 {
        87462
    } else if d == 62 {
        88295
    } else if d == 63 {
        89101
    } else if d == 64 {
        89879
    } else if d == 65 {
        90631
    } else if d == 66 {
        91355
    } else if d == 67 {
        92050
    } else if d == 68 {
        92718
    } else if d == 69 {
        93358
    } else if d == 70 {
        93969
    } else if d == 71 {
        94552
    } else if d == 72 {
        95106
    } else if d == 73 {
        95630
    } else if d == 74 {
        96126
    } else if d == 75 {
        96593
    } else if d == 76 {
        97030
    } else if d == 77 {
        97437
    } else if d == 78 {
        97815
    } else if d == 79 {
        98163
    } else if d == 80 {
        98481
    } else if d == 81 {
        98769
    } else if d == 82 {
        99027
    } else if d == 83 {
        99255
    } else if d == 84 {
        99452
    } else if d == 85 {
        99619
    } else if d == 86 {
        99756
    } else if d == 87 {
        99863
    } else if d == 88 {
        99939
    } else if d == 89 {
        99985
    } else {
        100000
    }
}

/// The bearing brought into `0..360`.
pub open spec fn wrapped(bearing: int) -> int {
    bearing % 360
}

/// `STEP` times the sine of `bearing` degrees: the first quarter turn,
/// mirrored into the other three.
pub open spec fn sine(bearing: int) -> int {
    let d = wrapped(bearing);
    if d <= 90 {
        quarter_sine(d)
    } else if d <= 180 {
        quarter_sine(180 - d)
    } else if d <= 270 {
        -quarter_sine(d - 180)
    } else {
        -quarter_sine(360 - d)
    }
}

/// `STEP` times the cosine of `bearing` degrees.
pub open spec fn cosine(bearing: int) -> int {
    sine(bearing + 90)
}

/// No sine or cosine is longer than one step.
pub proof fn lemma_sine_bounds(bearing: int)
    ensures
        -STEP <= sine(bearing) <= STEP,
        -STEP <= cosine(bearing) <= STEP,
{
    lemma_quarter_bounds(wrapped(bearing));
    lemma_quarter_bounds(180 - wrapped(bearing));
    lemma_quarter_bounds(wrapped(bearing) - 180);
    lemma_quarter_bounds(360 - wrapped(bearing));
    lemma_quarter_bounds(wrapped(bearing + 90));
    lemma_quarter_bounds(180 - wrapped(bearing + 90));
    lemma_quarter_bounds(wrapped(bearing + 90) - 180);
    lemma_quarter_bounds(360 - wrapped(bearing + 90));
}

proof fn lemma_quarter_bounds(d: int)
    ensures
        0 <= quarter_sine(d) <= STEP,
{
}

/// Along the four axes the step vector is exact.
pub proof fn lemma_cardinal_steps()
    ensures
        cosine(0) == STEP && sine(0) == 0,
        cosine(90) == 0 && sine(90) == STEP,
        cosine(180) == -STEP && sine(180) == 0,
        cosine(270) == 0 && sine(270) == -STEP,
{
}

fn quarter_sine_units(d: u32) -> (r: i64)
    requires
        d <= 90,
    ensures
        r == quarter_sine(d as int),
{
    if d == 0 {
        0
    } else if d == 1 {
        1745
    } else if d == 2 {
        3490
    } else if d == 3 {
        5234
    } else if d == 4 {
        6976
    } else if d == 5 {
        8716
    } else if d == 6 {
        10453
    } else if d == 7 {
        12187
    } else if d == 8 {
        13917
    } else if d == 9 {
        15643
    } else if d == 10 {
        17365
    } else if d == 11 {
        19081
    } else if d == 12 {
        20791
    } else if d == 13 {
        22495
    } else if d == 14 {
        24192
    } else if d == 15 {
        25882
    } else if d == 16 {
        27564
    } else if d == 17 {
        29237
    } else if d == 18 {
        30902
    } else if d == 19 {
        32557
    } else if d == 20 {
        34202
    } else if d == 21 {
        35837
    } else if d == 22 {
        37461
    } else if d == 23 {
        39073
    } else if d == 24 {
        40674
    } else if d == 25 {
        42262
    } else if d == 26 {
        43837
    } else if d == 27 {
        45399
    } else if d == 28 {
        46947
    } else if d == 29 {
        48481
    } else if d == 30 {
        50000
    } else if d == 31 {
        51504
    } else if d == 32 {
        52992
    } else if d == 33 {
        54464
    } else if d == 34 {
        55919
    } else if d == 35 {
        57358
    } else if d == 36 {
        58779
    } else if d == 37 {
        60182
    } else if d == 38 {
        61566
    } else if d == 39 {
        62932
    } else if d == 40 {
        64279
    } else if d == 41 {
        65606
    } else if d == 42 {
        66913
    } else if d == 43 {
        68200
    } else if d == 44 {
        69466
    } else if d == 45 {
        70711
    } else if d == 46 {
        71934
    } else if d == 47 {
        73135
    } else if d == 48 {
        74314
    } else if d == 49 {
        75471
    } else if d == 50 {
        76604
    } else if d == 51 {
        77715
    } else if d == 52 {
        78801
    } else if d == 53 {
        79864
    } else if d == 54 {
        80902
    } else if d == 55 {
        81915
    } else if d == 56 {
        82904
    } else if d == 57 {
        83867
    } else if d == 58 {
        84805
    } else if d == 59 {
        85717
    } else if d == 60 {
        86603
    } else if d == 61 {
        87462
    } else if d == 62 {
        88295
    } else if d == 63 {
        89101
    } else if d == 64 {
        89879
    } else if d == 65 {
        90631
    } else if d == 66 {
        91355
    } else if d == 67 {
        92050
    } else if d == 68 {
        92718
    } else if d == 69 {
        93358
    } else if d == 70 {
        93969
    } else if d == 71 {
        94552
    } else if d == 72 {
        95106
    } else if d == 73 {
        95630
    } else if d == 74 {
        96126
    } else if d == 75 {
        96593
    } else if d == 76 {
        97030
    } else if d == 77 {
        97437
    } else if d == 78 {
        97815
    } else if d == 79 {
        98163
    } else if d == 80 {
        98481
    } else if d == 81 {
        98769
    } else if d == 82 {
        99027
    } else if d == 83 {
        99255
    } else if d == 84 {
        99452
    } else if d == 85 {
        99619
    } else if d == 86 {
        99756
    } else if d == 87 {
        99863
    } else if d == 88 {
        99939
    } else if d == 89 {
        99985
    } else {
        100000
    }
}

/// Brings any bearing into `0..360`.
pub fn wrap_degrees(bearing: i64) -> (r: u32)
    ensures
        r == wrapped(bearing as int),
        r < 360,
{
    if bearing >= 0 {
        (bearing % 360) as u32
    } else {
        let below: i64 = -(bearing + 1);
        let m: i64 = below % 360;
        proof {
            let q = (below as int) / 360;
            lemma_fundamental_div_mod(below as int, 360);
            assert(bearing as int == 360 * (-q - 1) + (359 - m));
            lemma_fundamental_div_mod_converse(bearing as int, 360, -q - 1, 359 - m);
        }
        (359 - m) as u32
    }
}

/// `STEP` times the sine of `bearing` degrees.
pub fn sine_units(bearing: i64) -> (r: i64)
    ensures
        r == sine(bearing as int),
        -STEP <= r <= STEP,
{
    proof {
        lemma_sine_bounds(bearing as int);
    }
    let d: u32 = wrap_degrees(bearing);
    if d <= 90 {
        quarter_sine_units(d)
    } else if d <= 180 {
        quarter_sine_units(180 - d)
    } else if d <= 270 {
        -quarter_sine_units(d - 180)
    } else {
        -quarter_sine_units(360 - d)
    }
}

/// `STEP` times the cosine of `bearing` degrees.
pub fn cosine_units(bearing: i64) -> (r: i64)
    ensures
        r == cosine(bearing as int),
        -STEP <= r <= STEP,
{
    proof {
        lemma_sine_bounds(bearing as int);
        lemma_add_mod_noop(bearing as int, 90, 360);
        lemma_mod_twice(bearing as int, 360);
        lemma_add_mod_noop(wrapped(bearing as int), 90, 360);
    }
    let d: u32 = wrap_degrees(bearing);
    sine_units((d + 90) as i64)
}

} // verus!
