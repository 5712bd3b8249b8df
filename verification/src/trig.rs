//! Directions as whole degrees, and their sine and cosine in fixed point.
//!
//! An angle of 0 degrees points along `+x` and angles grow counter-clockwise.
//! A heading is an angle in the range from -179 to 180. Sines and cosines
//! are whole numbers of millionths, each the true value rounded to the
//! nearest millionth.

use vstd::prelude::*;

verus! {

/// The fixed-point value of 1: the length of a direction vector.
pub const TRIG_ONE: i64 = 1_000_000;

/// How far the squared length of a direction vector may lie from
/// `TRIG_ONE * TRIG_ONE`. It keeps the length within a millionth of 1.
pub const UNIT_TOLERANCE: i64 = 2_000_000;

/// Whether `angle` is a heading: more than -180 and at most 180.
pub open spec fn is_heading(angle: int) -> bool {
    -180 < angle <= 180
}

/// The heading that points the same way as `angle`.
pub open spec fn normalized(angle: int) -> int {
    180 - (180 - angle) % 360
}

/// The sine of `k` degrees in millionths, for `k` from 0 to 90.
#[verifier::opaque]
pub open spec fn sine_of_quadrant(k: int) -> int {
    if k <= 0 {
        0
    } else if k == 1 {
        17_452
    } else if k == 2 {
        34_899
    } else if k == 3 {
        52_336
    } else if k == 4 {
        69_756
    } else if k == 5 {
        87_156
    } else if k == 6 {
        104_528
    } else if k == 7 {
        121_869
    } else if k == 8 {
        139_173
    } else if k == 9 {
        156_434
    } else if k == 10 {
        173_648
    } else if k == 11 {
        190_809
    } else if k == 12 {
        207_912
    } else if k == 13 {
        224_951
    } else if k == 14 {
        241_922
    } else if k == 15 {
        258_819
    } else if k == 16 {
        275_637
    } else if k == 17 {
        292_372
    } else if k == 18 {
        309_017
    } else if k == 19 {
        325_568
    } else if k == 20 {
        342_020
    } else if k == 21 {
        358_368
    } else if k == 22 {
        374_607
    } else if k == 23 {
        390_731
    } else if k == 24 {
        406_737
    } else if k == 25 {
        422_618
    } else if k == 26 {
        438_371
    } else if k == 27 {
        453_990
    } else if k == 28 {
        469_472
    } else if k == 29 {
        484_810
    } else if k == 30 {
        500_000
    } else if k == 31 {
        515_038
    } else if k == 32 {
        529_919
    } else if k == 33 {
        544_639
    } else if k == 34 {
        559_193
    } else if k == 35 {
        573_576
    } else if k == 36 {
        587_785
    } else if k == 37 {
        601_815
    } else if k == 38 {
        615_661
    } else if k == 39 {
        629_320
    } else if k == 40 {
        642_788
    } else if k == 41 {
        656_059
    } else if k == 42 {
        669_131
    } else if k == 43 {
        681_998
    } else if k == 44 {
        694_658
    } else if k == 45 {
        707_107
    } else if k == 46 {
        719_340
    } else if k == 47 {
        731_354
    } else if k == 48 {
        743_145
    } else if k == 49 {
        754_710
    } else if k == 50 {
        766_044
    } else if k == 51 {
        777_146
    } else if k == 52 {
        788_011
    } else if k == 53 {
        798_636
    } else if k == 54 {
        809_017
    } else if k == 55 {
        819_152
    } else if k == 56 {
        829_038
    } else if k == 57 {
        838_671
    } else if k == 58 {
        848_048
    } else if k == 59 {
        857_167
    } else if k == 60 {
        866_025
    } else if k == 61 {
        874_620
    } else if k == 62 {
        882_948
    } else if k == 63 {
        891_007
    } else if k == 64 {
        898_794
    } else if k == 65 {
        906_308
    } else if k == 66 {
        913_545
    } else if k == 67 {
        920_505
    } else if k == 68 {
        927_184
    } else if k == 69 {
        933_580
    } else if k == 70 {
        939_693
    } else if k == 71 {
        945_519
    } else if k == 72 {
        951_057
    } else if k == 73 {
        956_305
    } else if k == 74 {
        961_262
    } else if k == 75 {
        965_926
    } else if k == 76 {
        970_296
    } else if k == 77 {
        974_370
    } else if k == 78 {
        978_148
    } else if k == 79 {
        981_627
    } else if k == 80 {
        984_808
    } else if k == 81 {
        987_688
    } else if k == 82 {
        990_268
    } else if k == 83 {
        992_546
    } else if k == 84 {
        994_522
    } else if k == 85 {
        996_195
    } else if k == 86 {
        997_564
    } else if k == 87 {
        998_630
    } else if k == 88 {
        999_391
    } else if k == 89 {
        999_848
    } else if k == 90 {
        1_000_000
    } else {
        1_000_000
    }
}

/// The sine of a heading, in millionths.
pub open spec fn sine(angle: int) -> int {
    if angle < -90 {
        -sine_of_quadrant(180 + angle)
    } else if angle < 0 {
        -sine_of_quadrant(-angle)
    } else if angle <= 90 {
        sine_of_quadrant(angle)
    } else {
        sine_of_quadrant(180 - angle)
    }
}

/// The cosine of a heading, in millionths.
pub open spec fn cosine(angle: int) -> int {
    if angle < -90 {
        -sine_of_quadrant(-angle - 90)
    } else if angle < 0 {
        sine_of_quadrant(90 + angle)
    } else if angle <= 90 {
        sine_of_quadrant(90 - angle)
    } else {
        -sine_of_quadrant(angle - 90)
    }
}

/// Whether `(x, y)`, in millionths, has length 1 up to `UNIT_TOLERANCE`.
pub open spec fn is_unit(x: int, y: int) -> bool {
    -UNIT_TOLERANCE <= x * x + y * y - TRIG_ONE * TRIG_ONE <= UNIT_TOLERANCE
}

/// Looks up the sine of `k` degrees.
pub fn quadrant_sine(k: i32) -> (s: i64)
    requires
        0 <= k <= 90,
    ensures
        s == sine_of_quadrant(k as int),
        0 <= s <= TRIG_ONE,
{
    proof {
        reveal(sine_of_quadrant);
    }
    match k {
        0 => 0,
        1 => 17_452,
        2 => 34_899,
        3 => 52_336,
        4 => 69_756,
        5 => 87_156,
        6 => 104_528,
        7 => 121_869,
        8 => 139_173,
        9 => 156_434,
        10 => 173_648,
        11 => 190_809,
        12 => 207_912,
        13 => 224_951,
        14 => 241_922,
        15 => 258_819,
        16 => 275_637,
        17 => 292_372,
        18 => 309_017,
        19 => 325_568,
        20 => 342_020,
        21 => 358_368,
        22 => 374_607,
        23 => 390_731,
        24 => 406_737,
        25 => 422_618,
        26 => 438_371,
        27 => 453_990,
        28 => 469_472,
        29 => 484_810,
        30 => 500_000,
        31 => 515_038,
        32 => 529_919,
        33 => 544_639,
        34 => 559_193,
        35 => 573_576,
        36 => 587_785,
        37 => 601_815,
        38 => 615_661,
        39 => 629_320,
        40 => 642_788,
        41 => 656_059,
        42 => 669_131,
        43 => 681_998,
        44 => 694_658,
        45 => 707_107,
        46 => 719_340,
        47 => 731_354,
        48 => 743_145,
        49 => 754_710,
        50 => 766_044,
        51 => 777_146,
        52 => 788_011,
        53 => 798_636,
        54 => 809_017,
        55 => 819_152,
        56 => 829_038,
        57 => 838_671,
        58 => 848_048,
        59 => 857_167,
        60 => 866_025,
        61 => 874_620,
        62 => 882_948,
        63 => 891_007,
        64 => 898_794,
        65 => 906_308,
        66 => 913_545,
        67 => 920_505,
        68 => 927_184,
        69 => 933_580,
        70 => 939_693,
        71 => 945_519,
        72 => 951_057,
        73 => 956_305,
        74 => 961_262,
        75 => 965_926,
        76 => 970_296,
        77 => 974_370,
        78 => 978_148,
        79 => 981_627,
        80 => 984_808,
        81 => 987_688,
        82 => 990_268,
        83 => 992_546,
        84 => 994_522,
        85 => 996_195,
        86 => 997_564,
        87 => 998_630,
        88 => 999_391,
        89 => 999_848,
        90 => 1_000_000,
        _ => 0,
    }
}

/// The sine of a heading.
pub fn sin_degrees(angle: i32) -> (s: i64)
    requires
        is_heading(angle as int),
    ensures
        s == sine(angle as int),
        -TRIG_ONE <= s <= TRIG_ONE,
{
    if angle < -90 {
        -quadrant_sine(180 + angle)
    } else if angle < 0 {
        -quadrant_sine(-angle)
    } else if angle <= 90 {
        quadrant_sine(angle)
    } else {
        quadrant_sine(180 - angle)
    }
}

/// The cosine of a heading.
pub fn cos_degrees(angle: i32) -> (c: i64)
    requires
        is_heading(angle as int),
    ensures
        c == cosine(angle as int),
        -TRIG_ONE <= c <= TRIG_ONE,
{
    if angle < -90 {
        -quadrant_sine(-angle - 90)
    } else if angle < 0 {
        quadrant_sine(90 + angle)
    } else if angle <= 90 {
        quadrant_sine(90 - angle)
    } else {
        -quadrant_sine(angle - 90)
    }
}

/// Brings any angle in degrees to the heading that points the same way.
pub fn normalize_degrees(angle: i32) -> (heading: i32)
    ensures
        heading == normalized(angle as int),
        is_heading(heading as int),
{
    // 5_965_233 full turns: more than any `i32` is below zero.
    let shifted: i64 = 180 - (angle as i64) + 2_147_483_880;
    let turned: u64 = (shifted as u64) % 360;
    180 - (turned as i32)
}

/// The heading after a bounce off a horizontal surface: the angle negated.
pub fn reflect_vertical(angle: i32) -> (heading: i32)
    requires
        is_heading(angle as int),
    ensures
        heading == normalized(-angle),
        is_heading(heading as int),
{
    if angle == 180 {
        180
    } else {
        -angle
    }
}

/// The heading after a bounce off a vertical surface: 180 degrees less the
/// angle.
pub fn reflect_horizontal(angle: i32) -> (heading: i32)
    requires
        is_heading(angle as int),
    ensures
        heading == normalized(180 - angle),
        is_heading(heading as int),
{
    if angle < 0 {
        -180 - angle
    } else {
        180 - angle
    }
}

/// A heading is its own normal form.
pub proof fn lemma_normalized_heading(angle: int)
    requires
        is_heading(angle),
    ensures
        normalized(angle) == angle,
{
}

/// Every angle has a normal form, and it is a heading.
pub proof fn lemma_normalized_is_heading(angle: int)
    ensures
        is_heading(normalized(angle)),
{
}

/// Within the first quadrant the table's sine and cosine give a vector of
/// length 1.
pub proof fn lemma_quadrant_unit(k: int)
    requires
        0 <= k <= 90,
    ensures
        is_unit(sine_of_quadrant(90 - k), sine_of_quadrant(k)),
{
    reveal(sine_of_quadrant);
}

/// The table starts at 0 and ends at 1.
pub proof fn lemma_quadrant_ends()
    ensures
        sine_of_quadrant(0) == 0,
        sine_of_quadrant(90) == TRIG_ONE,
{
    reveal(sine_of_quadrant);
}

/// Turning a vector's parts round does not change its length.
pub proof fn lemma_unit_signs(x: int, y: int)
    requires
        is_unit(x, y),
    ensures
        is_unit(-x, y),
        is_unit(x, -y),
        is_unit(-x, -y),
        is_unit(y, x),
{
    assert((-x) * (-x) == x * x) by (nonlinear_arith);
    assert((-y) * (-y) == y * y) by (nonlinear_arith);
}

/// The direction of every heading has length 1.
pub proof fn lemma_direction_unit(angle: int)
    requires
        is_heading(angle),
    ensures
        is_unit(cosine(angle), sine(angle)),
{
    let k = if angle < -90 {
        180 + angle
    } else if angle < 0 {
        -angle
    } else if angle <= 90 {
        angle
    } else {
        180 - angle
    };
    lemma_quadrant_unit(k);
    lemma_unit_signs(sine_of_quadrant(90 - k), sine_of_quadrant(k));
}

/// Negating the angle keeps the horizontal part of the direction and turns
/// the vertical part round.
pub proof fn lemma_reflect_vertical(angle: int)
    requires
        is_heading(angle),
    ensures
        cosine(normalized(-angle)) == cosine(angle),
        sine(normalized(-angle)) == -sine(angle),
{
    lemma_quadrant_ends();
}

/// Taking the angle from 180 degrees keeps the vertical part of the
/// direction and turns the horizontal part round.
pub proof fn lemma_reflect_horizontal(angle: int)
    requires
        is_heading(angle),
    ensures
        cosine(normalized(180 - angle)) == -cosine(angle),
        sine(normalized(180 - angle)) == sine(angle),
{
    lemma_quadrant_ends();
}

} // verus!
