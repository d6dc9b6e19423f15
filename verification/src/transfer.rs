//! The sRGB transfer function and its inverse in fixed point.
//!
//! A linear-light intensity is a whole number of millionths of full intensity.
//! Both directions are stated exactly, as the nearest whole number to the real
//! value of the transfer curve, by comparing integer powers; the tables that
//! the executable code reads are proved against those statements.

use crate::colors::Rgb;
use vstd::prelude::*;

verus! {

/// Full intensity in linear light.
pub const UNIT: u32 = 1_000_000;

/// The fifth power of `a` times the twelfth power of `k`.
#[verifier::opaque]
pub open spec fn pow5_pow12(a: int, k: int) -> int {
    a * a * a * a * a * k * k * k * k * k * k * k * k * k * k * k * k
}

/// Whether `(lo / 2_000_000)^5 <= (m / 10761)^12 < (hi / 2_000_000)^5`.
pub open spec fn decode_bracket(lo: int, m: int, hi: int) -> bool {
    pow5_pow12(lo, 10761) <= pow5_pow12(2_000_000, m) < pow5_pow12(hi, 10761)
}

/// Whether `(lo / 1_000_000)^5 < (m / 10761)^12 <= (hi / 1_000_000)^5`.
pub open spec fn encode_bracket(lo: int, m: int, hi: int) -> bool {
    pow5_pow12(lo, 10761) < pow5_pow12(1_000_000, m) <= pow5_pow12(hi, 10761)
}

/// Whether `t` millionths is the linear-light intensity of the sRGB byte `c`,
/// rounded to the nearest millionth.
///
/// With `x = c / 255`, the curve is `x / 12.92` up to `x = 0.04045` (bytes 0 to
/// 10) and `((x + 0.055) / 1.055)^2.4` above. The first is `10 c / 32946`; the
/// base of the second is `(40 c + 561) / 10761`, and `t - 1/2 <= UNIT * y^2.4 <
/// t + 1/2` is compared after raising both sides to the fifth power and
/// clearing the denominators.
pub open spec fn is_linear_of(c: int, t: int) -> bool {
    &&& 0 <= t
    &&& if c <= 10 {
        (2 * t - 1) * 32946 <= 20_000_000 * c < (2 * t + 1) * 32946
    } else {
        decode_bracket(2 * t - 1, 40 * c + 561, 2 * t + 1)
    }
}

/// The linear-light intensity of an sRGB byte, in millionths.
pub open spec fn srgb_to_linear(c: u8) -> int {
    choose|t: int| is_linear_of(c as int, t)
}

/// Whether the linear-light intensity `t` encodes to the sRGB byte `c` or to a
/// higher one, that is whether 255 times the encoded value is at least `c -
/// 1/2`.
///
/// With `x = t / UNIT`, the encoded value is `12.92 x` up to `x = 0.0031308`
/// (up to 3130 millionths), where the bound reads `65892 t >= (2 c - 1) *
/// 10_000_000`, and `1.055 x^(1/2.4) - 0.055` above. In the second
/// case the bound reads `x^(5/12) >= (40 c + 541) / 10761`, compared after
/// raising both sides to the twelfth power and clearing the denominators.
pub open spec fn encodes_at_least(t: int, c: int) -> bool {
    if t <= 3130 {
        65892 * t >= (2 * c - 1) * 10_000_000
    } else {
        pow5_pow12(t, 10761) >= pow5_pow12(1_000_000, 40 * c + 541)
    }
}

/// Whether the linear-light intensity `t` encodes to the sRGB byte `c`: 255
/// times the encoded value, rounded to the nearest whole number, is `c`.
pub open spec fn is_srgb_of(t: int, c: int) -> bool {
    &&& 0 <= c
    &&& encodes_at_least(t, c)
    &&& !encodes_at_least(t, c + 1)
}

/// The sRGB byte of a linear-light intensity in millionths; intensities above
/// full intensity are clamped to it.
pub open spec fn linear_to_srgb(t: int) -> int {
    choose|c: int| is_srgb_of(at_most_unit(t), c)
}

/// An intensity, cut off at full intensity.
pub open spec fn at_most_unit(t: int) -> int {
    if t > UNIT {
        UNIT as int
    } else {
        t
    }
}

/// The linear-light intensity of each sRGB byte, in millionths.
const LINEAR_OF_SRGB: [u32; 256] = [
    0, 304, 607, 911, 1214, 1518, 1821, 2125,
    2428, 2732, 3035, 3347, 3677, 4025, 4391, 4777,
    5182, 5605, 6049, 6512, 6995, 7499, 8023, 8568,
    9134, 9721, 10330, 10960, 11612, 12286, 12983, 13702,
    14444, 15209, 15996, 16807, 17642, 18500, 19382, 20289,
    21219, 22174, 23153, 24158, 25187, 26241, 27321, 28426,
    29557, 30713, 31896, 33105, 34340, 35601, 36889, 38204,
    39546, 40915, 42311, 43735, 45186, 46665, 48172, 49707,
    51269, 52861, 54480, 56128, 57805, 59511, 61246, 63010,
    64803, 66626, 68478, 70360, 72272, 74214, 76185, 78187,
    80220, 82283, 84376, 86500, 88656, 90842, 93059, 95307,
    97587, 99899, 102242, 104616, 107023, 109462, 111932, 114435,
    116971, 119538, 122139, 124772, 127438, 130136, 132868, 135633,
    138432, 141263, 144128, 147027, 149960, 152926, 155926, 158961,
    162029, 165132, 168269, 171441, 174647, 177888, 181164, 184475,
    187821, 191202, 194618, 198069, 201556, 205079, 208637, 212231,
    215861, 219526, 223228, 226966, 230740, 234551, 238398, 242281,
    246201, 250158, 254152, 258183, 262251, 266356, 270498, 274677,
    278894, 283149, 287441, 291771, 296138, 300544, 304987, 309469,
    313989, 318547, 323143, 327778, 332452, 337164, 341914, 346704,
    351533, 356400, 361307, 366253, 371238, 376262, 381326, 386429,
    391572, 396755, 401978, 407240, 412543, 417885, 423268, 428690,
    434154, 439657, 445201, 450786, 456411, 462077, 467784, 473531,
    479320, 485150, 491021, 496933, 502886, 508881, 514918, 520996,
    527115, 533276, 539479, 545724, 552011, 558340, 564712, 571125,
    577580, 584078, 590619, 597202, 603827, 610496, 617207, 623960,
    630757, 637597, 644480, 651406, 658375, 665387, 672443, 679542,
    686685, 693872, 701102, 708376, 715694, 723055, 730461, 737910,
    745404, 752942, 760525, 768151, 775822, 783538, 791298, 799103,
    806952, 814847, 822786, 830770, 838799, 846873, 854993, 863157,
    871367, 879622, 887923, 896269, 904661, 913099, 921582, 930111,
    938686, 947307, 955973, 964686, 973445, 982251, 991102, 1000000,
];

/// For each sRGB byte, the least linear-light intensity that encodes to it.
const SRGB_THRESHOLD: [u32; 256] = [
    0, 152, 456, 759, 1063, 1366, 1670, 1973,
    2277, 2580, 2884, 3189, 3510, 3849, 4206, 4582,
    4977, 5392, 5825, 6278, 6752, 7245, 7759, 8294,
    8849, 9425, 10023, 10643, 11284, 11947, 12632, 13340,
    14071, 14824, 15600, 16399, 17222, 18069, 18939, 19833,
    20751, 21694, 22661, 23653, 24670, 25711, 26778, 27871,
    28989, 30132, 31302, 32498, 33719, 34968, 36243, 37544,
    38872, 40228, 41610, 43020, 44458, 45923, 47415, 48936,
    50485, 52062, 53667, 55301, 56964, 58655, 60376, 62125,
    63903, 65711, 67549, 69416, 71313, 73239, 75196, 77183,
    79200, 81248, 83326, 85435, 87575, 89745, 91947, 94180,
    96444, 98740, 101067, 103426, 105816, 108239, 110694, 113180,
    115699, 118251, 120835, 123452, 126101, 128783, 131499, 134247,
    137029, 139844, 142692, 145574, 148490, 151439, 154423, 157440,
    160491, 163577, 166697, 169851, 173040, 176264, 179522, 182816,
    186144, 189507, 192906, 196340, 199809, 203314, 206854, 210430,
    214042, 217689, 221373, 225093, 228849, 232641, 236470, 240335,
    244237, 248176, 252151, 256163, 260213, 264299, 268423, 272583,
    276782, 281017, 285291, 289602, 293950, 298337, 302761, 307224,
    311725, 316263, 320841, 325456, 330110, 334803, 339535, 344305,
    349114, 353962, 358849, 363775, 368741, 373745, 378790, 383873,
    388996, 394159, 399362, 404605, 409887, 415209, 420572, 425975,
    431418, 436901, 442425, 447989, 453594, 459239, 464926, 470653,
    476421, 482230, 488081, 493972, 499905, 505879, 511895, 517952,
    524051, 530191, 536373, 542597, 548863, 555171, 561521, 567913,
    574348, 580825, 587344, 593905, 600510, 607157, 613846, 620579,
    627354, 634172, 641033, 647938, 654885, 661876, 668910, 675988,
    683109, 690274, 697482, 704734, 712030, 719369, 726753, 734181,
    741652, 749168, 756728, 764333, 771982, 779675, 787413, 795195,
    803022, 810894, 818811, 826773, 834779, 842831, 850928, 859070,
    867257, 875490, 883768, 892091, 900460, 908875, 917335, 925841,
    934393, 942991, 951635, 960325, 969060, 977843, 986671, 995546,
];

proof fn lemma_mul_le(x: int, y: int, a: int, b: int)
    requires
        0 <= x <= y,
        0 <= a <= b,
    ensures
        0 <= x * a <= y * b,
{
    assert(0 <= x * a <= y * b) by (nonlinear_arith)
        requires
            0 <= x <= y,
            0 <= a <= b,
    ;
}

/// The product grows with both of its arguments.
proof fn lemma_pow5_pow12_monotone(a: int, k: int, b: int, m: int)
    requires
        0 <= a <= b,
        0 <= k <= m,
    ensures
        0 <= pow5_pow12(a, k) <= pow5_pow12(b, m),
{
    reveal(pow5_pow12);
    lemma_mul_le(a, b, a, b);
    lemma_mul_le(a * a, b * b, a, b);
    lemma_mul_le(a * a * a, b * b * b, a, b);
    lemma_mul_le(a * a * a * a, b * b * b * b, a, b);
    let x0 = a * a * a * a * a;
    let y0 = b * b * b * b * b;
    lemma_mul_le(x0, y0, k, m);
    lemma_mul_le(x0 * k, y0 * m, k, m);
    lemma_mul_le(x0 * k * k, y0 * m * m, k, m);
    lemma_mul_le(x0 * k * k * k, y0 * m * m * m, k, m);
    lemma_mul_le(x0 * k * k * k * k, y0 * m * m * m * m, k, m);
    lemma_mul_le(x0 * k * k * k * k * k, y0 * m * m * m * m * m, k, m);
    lemma_mul_le(x0 * k * k * k * k * k * k, y0 * m * m * m * m * m * m, k, m);
    lemma_mul_le(x0 * k * k * k * k * k * k * k, y0 * m * m * m * m * m * m * m, k, m);
    lemma_mul_le(x0 * k * k * k * k * k * k * k * k, y0 * m * m * m * m * m * m * m * m, k, m);
    lemma_mul_le(
        x0 * k * k * k * k * k * k * k * k * k,
        y0 * m * m * m * m * m * m * m * m * m,
        k,
        m,
    );
    lemma_mul_le(
        x0 * k * k * k * k * k * k * k * k * k * k,
        y0 * m * m * m * m * m * m * m * m * m * m,
        k,
        m,
    );
    lemma_mul_le(
        x0 * k * k * k * k * k * k * k * k * k * k * k,
        y0 * m * m * m * m * m * m * m * m * m * m * m,
        k,
        m,
    );
}

/// At most one intensity is the linear-light intensity of a byte.
pub proof fn lemma_linear_unique(c: int, t1: int, t2: int)
    requires
        is_linear_of(c, t1),
        is_linear_of(c, t2),
    ensures
        t1 == t2,
{
    if c > 10 {
        if t1 < t2 {
            lemma_pow5_pow12_monotone(2 * t1 + 1, 10761, 2 * t2 - 1, 10761);
        } else if t2 < t1 {
            lemma_pow5_pow12_monotone(2 * t2 + 1, 10761, 2 * t1 - 1, 10761);
        }
    }
}

// The entries of the table of linear-light intensities lie on the curve.

proof fn lemma_decode_products_1()
    ensures
        decode_bracket(6693, 1001, 6695),
        decode_bracket(7353, 1041, 7355),
        decode_bracket(8049, 1081, 8051),
        decode_bracket(8781, 1121, 8783),
        decode_bracket(9553, 1161, 9555),
{
    reveal(pow5_pow12);
}

proof fn lemma_decode_products_2()
    ensures
        decode_bracket(10363, 1201, 10365),
        decode_bracket(11209, 1241, 11211),
        decode_bracket(12097, 1281, 12099),
        decode_bracket(13023, 1321, 13025),
        decode_bracket(13989, 1361, 13991),
        decode_bracket(14997, 1401, 14999),
        decode_bracket(16045, 1441, 16047),
        decode_bracket(17135, 1481, 17137),
{
    reveal(pow5_pow12);
}

proof fn lemma_decode_products_3()
    ensures
        decode_bracket(18267, 1521, 18269),
        decode_bracket(19441, 1561, 19443),
        decode_bracket(20659, 1601, 20661),
        decode_bracket(21919, 1641, 21921),
        decode_bracket(23223, 1681, 23225),
        decode_bracket(24571, 1721, 24573),
        decode_bracket(25965, 1761, 25967),
        decode_bracket(27403, 1801, 27405),
{
    reveal(pow5_pow12);
}

proof fn lemma_decode_products_4()
    ensures
        decode_bracket(28887, 1841, 28889),
        decode_bracket(30417, 1881, 30419),
        decode_bracket(31991, 1921, 31993),
        decode_bracket(33613, 1961, 33615),
        decode_bracket(35283, 2001, 35285),
        decode_bracket(36999, 2041, 37001),
        decode_bracket(38763, 2081, 38765),
        decode_bracket(40577, 2121, 40579),
{
    reveal(pow5_pow12);
}

proof fn lemma_decode_products_5()
    ensures
        decode_bracket(42437, 2161, 42439),
        decode_bracket(44347, 2201, 44349),
        decode_bracket(46305, 2241, 46307),
        decode_bracket(48315, 2281, 48317),
        decode_bracket(50373, 2321, 50375),
        decode_bracket(52481, 2361, 52483),
        decode_bracket(54641, 2401, 54643),
        decode_bracket(56851, 2441, 56853),
{
    reveal(pow5_pow12);
}

proof fn lemma_decode_products_6()
    ensures
        decode_bracket(59113, 2481, 59115),
        decode_bracket(61425, 2521, 61427),
        decode_bracket(63791, 2561, 63793),
        decode_bracket(66209, 2601, 66211),
        decode_bracket(68679, 2641, 68681),
        decode_bracket(71201, 2681, 71203),
        decode_bracket(73777, 2721, 73779),
        decode_bracket(76407, 2761, 76409),
{
    reveal(pow5_pow12);
}

proof fn lemma_decode_products_7()
    ensures
        decode_bracket(79091, 2801, 79093),
        decode_bracket(81829, 2841, 81831),
        decode_bracket(84621, 2881, 84623),
        decode_bracket(87469, 2921, 87471),
        decode_bracket(90371, 2961, 90373),
        decode_bracket(93329, 3001, 93331),
        decode_bracket(96343, 3041, 96345),
        decode_bracket(99413, 3081, 99415),
{
    reveal(pow5_pow12);
}

proof fn lemma_decode_products_8()
    ensures
        decode_bracket(102537, 3121, 102539),
        decode_bracket(105721, 3161, 105723),
        decode_bracket(108959, 3201, 108961),
        decode_bracket(112255, 3241, 112257),
        decode_bracket(115609, 3281, 115611),
        decode_bracket(119021, 3321, 119023),
        decode_bracket(122491, 3361, 122493),
        decode_bracket(126019, 3401, 126021),
{
    reveal(pow5_pow12);
}

proof fn lemma_decode_products_9()
    ensures
        decode_bracket(129605, 3441, 129607),
        decode_bracket(133251, 3481, 133253),
        decode_bracket(136955, 3521, 136957),
        decode_bracket(140719, 3561, 140721),
        decode_bracket(144543, 3601, 144545),
        decode_bracket(148427, 3641, 148429),
        decode_bracket(152369, 3681, 152371),
        decode_bracket(156373, 3721, 156375),
{
    reveal(pow5_pow12);
}

proof fn lemma_decode_products_10()
    ensures
        decode_bracket(160439, 3761, 160441),
        decode_bracket(164565, 3801, 164567),
        decode_bracket(168751, 3841, 168753),
        decode_bracket(172999, 3881, 173001),
        decode_bracket(177311, 3921, 177313),
        decode_bracket(181683, 3961, 181685),
        decode_bracket(186117, 4001, 186119),
        decode_bracket(190613, 4041, 190615),
{
    reveal(pow5_pow12);
}

proof fn lemma_decode_products_11()
    ensures
        decode_bracket(195173, 4081, 195175),
        decode_bracket(199797, 4121, 199799),
        decode_bracket(204483, 4161, 204485),
        decode_bracket(209231, 4201, 209233),
        decode_bracket(214045, 4241, 214047),
        decode_bracket(218923, 4281, 218925),
        decode_bracket(223863, 4321, 223865),
        decode_bracket(228869, 4361, 228871),
{
    reveal(pow5_pow12);
}

proof fn lemma_decode_products_12()
    ensures
        decode_bracket(233941, 4401, 233943),
        decode_bracket(239075, 4441, 239077),
        decode_bracket(244277, 4481, 244279),
        decode_bracket(249543, 4521, 249545),
        decode_bracket(254875, 4561, 254877),
        decode_bracket(260271, 4601, 260273),
        decode_bracket(265735, 4641, 265737),
        decode_bracket(271265, 4681, 271267),
{
    reveal(pow5_pow12);
}

proof fn lemma_decode_products_13()
    ensures
        decode_bracket(276863, 4721, 276865),
        decode_bracket(282525, 4761, 282527),
        decode_bracket(288255, 4801, 288257),
        decode_bracket(294053, 4841, 294055),
        decode_bracket(299919, 4881, 299921),
        decode_bracket(305851, 4921, 305853),
        decode_bracket(311851, 4961, 311853),
        decode_bracket(317921, 5001, 317923),
{
    reveal(pow5_pow12);
}

proof fn lemma_decode_products_14()
    ensures
        decode_bracket(324057, 5041, 324059),
        decode_bracket(330263, 5081, 330265),
        decode_bracket(336537, 5121, 336539),
        decode_bracket(342881, 5161, 342883),
        decode_bracket(349293, 5201, 349295),
        decode_bracket(355775, 5241, 355777),
        decode_bracket(362327, 5281, 362329),
        decode_bracket(368949, 5321, 368951),
{
    reveal(pow5_pow12);
}

proof fn lemma_decode_products_15()
    ensures
        decode_bracket(375641, 5361, 375643),
        decode_bracket(382403, 5401, 382405),
        decode_bracket(389235, 5441, 389237),
        decode_bracket(396137, 5481, 396139),
        decode_bracket(403111, 5521, 403113),
        decode_bracket(410157, 5561, 410159),
        decode_bracket(417273, 5601, 417275),
        decode_bracket(424461, 5641, 424463),
{
    reveal(pow5_pow12);
}

proof fn lemma_decode_products_16()
    ensures
        decode_bracket(431721, 5681, 431723),
        decode_bracket(439051, 5721, 439053),
        decode_bracket(446455, 5761, 446457),
        decode_bracket(453931, 5801, 453933),
        decode_bracket(461479, 5841, 461481),
        decode_bracket(469101, 5881, 469103),
        decode_bracket(476795, 5921, 476797),
        decode_bracket(484561, 5961, 484563),
{
    reveal(pow5_pow12);
}

proof fn lemma_decode_products_17()
    ensures
        decode_bracket(492401, 6001, 492403),
        decode_bracket(500315, 6041, 500317),
        decode_bracket(508303, 6081, 508305),
        decode_bracket(516365, 6121, 516367),
        decode_bracket(524501, 6161, 524503),
        decode_bracket(532711, 6201, 532713),
        decode_bracket(540995, 6241, 540997),
        decode_bracket(549353, 6281, 549355),
{
    reveal(pow5_pow12);
}

proof fn lemma_decode_products_18()
    ensures
        decode_bracket(557787, 6321, 557789),
        decode_bracket(566297, 6361, 566299),
        decode_bracket(574881, 6401, 574883),
        decode_bracket(583541, 6441, 583543),
        decode_bracket(592275, 6481, 592277),
        decode_bracket(601087, 6521, 601089),
        decode_bracket(609973, 6561, 609975),
        decode_bracket(618937, 6601, 618939),
{
    reveal(pow5_pow12);
}

proof fn lemma_decode_products_19()
    ensures
        decode_bracket(627977, 6641, 627979),
        decode_bracket(637093, 6681, 637095),
        decode_bracket(646285, 6721, 646287),
        decode_bracket(655555, 6761, 655557),
        decode_bracket(664903, 6801, 664905),
        decode_bracket(674327, 6841, 674329),
        decode_bracket(683827, 6881, 683829),
        decode_bracket(693407, 6921, 693409),
{
    reveal(pow5_pow12);
}

proof fn lemma_decode_products_20()
    ensures
        decode_bracket(703065, 6961, 703067),
        decode_bracket(712799, 7001, 712801),
        decode_bracket(722613, 7041, 722615),
        decode_bracket(732505, 7081, 732507),
        decode_bracket(742475, 7121, 742477),
        decode_bracket(752523, 7161, 752525),
        decode_bracket(762651, 7201, 762653),
        decode_bracket(772857, 7241, 772859),
{
    reveal(pow5_pow12);
}

proof fn lemma_decode_products_21()
    ensures
        decode_bracket(783143, 7281, 783145),
        decode_bracket(793509, 7321, 793511),
        decode_bracket(803955, 7361, 803957),
        decode_bracket(814479, 7401, 814481),
        decode_bracket(825085, 7441, 825087),
        decode_bracket(835769, 7481, 835771),
        decode_bracket(846535, 7521, 846537),
        decode_bracket(857379, 7561, 857381),
{
    reveal(pow5_pow12);
}

proof fn lemma_decode_products_22()
    ensures
        decode_bracket(868307, 7601, 868309),
        decode_bracket(879313, 7641, 879315),
        decode_bracket(890401, 7681, 890403),
        decode_bracket(901571, 7721, 901573),
        decode_bracket(912821, 7761, 912823),
        decode_bracket(924153, 7801, 924155),
        decode_bracket(935567, 7841, 935569),
        decode_bracket(947061, 7881, 947063),
{
    reveal(pow5_pow12);
}

proof fn lemma_decode_products_23()
    ensures
        decode_bracket(958639, 7921, 958641),
        decode_bracket(970299, 7961, 970301),
        decode_bracket(982041, 8001, 982043),
        decode_bracket(993865, 8041, 993867),
        decode_bracket(1005771, 8081, 1005773),
        decode_bracket(1017761, 8121, 1017763),
        decode_bracket(1029835, 8161, 1029837),
        decode_bracket(1041991, 8201, 1041993),
{
    reveal(pow5_pow12);
}

proof fn lemma_decode_products_24()
    ensures
        decode_bracket(1054229, 8241, 1054231),
        decode_bracket(1066551, 8281, 1066553),
        decode_bracket(1078957, 8321, 1078959),
        decode_bracket(1091447, 8361, 1091449),
        decode_bracket(1104021, 8401, 1104023),
        decode_bracket(1116679, 8441, 1116681),
        decode_bracket(1129423, 8481, 1129425),
        decode_bracket(1142249, 8521, 1142251),
{
    reveal(pow5_pow12);
}

proof fn lemma_decode_products_25()
    ensures
        decode_bracket(1155159, 8561, 1155161),
        decode_bracket(1168155, 8601, 1168157),
        decode_bracket(1181237, 8641, 1181239),
        decode_bracket(1194403, 8681, 1194405),
        decode_bracket(1207653, 8721, 1207655),
        decode_bracket(1220991, 8761, 1220993),
        decode_bracket(1234413, 8801, 1234415),
        decode_bracket(1247919, 8841, 1247921),
{
    reveal(pow5_pow12);
}

proof fn lemma_decode_products_26()
    ensures
        decode_bracket(1261513, 8881, 1261515),
        decode_bracket(1275193, 8921, 1275195),
        decode_bracket(1288959, 8961, 1288961),
        decode_bracket(1302811, 9001, 1302813),
        decode_bracket(1316749, 9041, 1316751),
        decode_bracket(1330773, 9081, 1330775),
        decode_bracket(1344885, 9121, 1344887),
        decode_bracket(1359083, 9161, 1359085),
{
    reveal(pow5_pow12);
}

proof fn lemma_decode_products_27()
    ensures
        decode_bracket(1373369, 9201, 1373371),
        decode_bracket(1387743, 9241, 1387745),
        decode_bracket(1402203, 9281, 1402205),
        decode_bracket(1416751, 9321, 1416753),
        decode_bracket(1431387, 9361, 1431389),
        decode_bracket(1446109, 9401, 1446111),
        decode_bracket(1460921, 9441, 1460923),
        decode_bracket(1475819, 9481, 1475821),
{
    reveal(pow5_pow12);
}

proof fn lemma_decode_products_28()
    ensures
        decode_bracket(1490807, 9521, 1490809),
        decode_bracket(1505883, 9561, 1505885),
        decode_bracket(1521049, 9601, 1521051),
        decode_bracket(1536301, 9641, 1536303),
        decode_bracket(1551643, 9681, 1551645),
        decode_bracket(1567075, 9721, 1567077),
        decode_bracket(1582595, 9761, 1582597),
        decode_bracket(1598205, 9801, 1598207),
{
    reveal(pow5_pow12);
}

proof fn lemma_decode_products_29()
    ensures
        decode_bracket(1613903, 9841, 1613905),
        decode_bracket(1629693, 9881, 1629695),
        decode_bracket(1645571, 9921, 1645573),
        decode_bracket(1661539, 9961, 1661541),
        decode_bracket(1677597, 10001, 1677599),
        decode_bracket(1693745, 10041, 1693747),
        decode_bracket(1709985, 10081, 1709987),
        decode_bracket(1726313, 10121, 1726315),
{
    reveal(pow5_pow12);
}

proof fn lemma_decode_products_30()
    ensures
        decode_bracket(1742733, 10161, 1742735),
        decode_bracket(1759243, 10201, 1759245),
        decode_bracket(1775845, 10241, 1775847),
        decode_bracket(1792537, 10281, 1792539),
        decode_bracket(1809321, 10321, 1809323),
        decode_bracket(1826197, 10361, 1826199),
        decode_bracket(1843163, 10401, 1843165),
        decode_bracket(1860221, 10441, 1860223),
{
    reveal(pow5_pow12);
}

proof fn lemma_decode_products_31()
    ensures
        decode_bracket(1877371, 10481, 1877373),
        decode_bracket(1894613, 10521, 1894615),
        decode_bracket(1911945, 10561, 1911947),
        decode_bracket(1929371, 10601, 1929373),
        decode_bracket(1946889, 10641, 1946891),
        decode_bracket(1964501, 10681, 1964503),
        decode_bracket(1982203, 10721, 1982205),
        decode_bracket(1999999, 10761, 2000001),
{
    reveal(pow5_pow12);
}

proof fn lemma_decode_table_0(c: int)
    requires
        0 <= c < 32,
    ensures
        is_linear_of(c, LINEAR_OF_SRGB[c] as int),
        SRGB_THRESHOLD[c] <= LINEAR_OF_SRGB[c] <= UNIT,
        c < 255 ==> LINEAR_OF_SRGB[c] < SRGB_THRESHOLD[c + 1],
{
    lemma_decode_products_1();
    lemma_decode_products_2();
    lemma_decode_products_3();
}

proof fn lemma_decode_table_1(c: int)
    requires
        32 <= c < 64,
    ensures
        is_linear_of(c, LINEAR_OF_SRGB[c] as int),
        SRGB_THRESHOLD[c] <= LINEAR_OF_SRGB[c] <= UNIT,
        c < 255 ==> LINEAR_OF_SRGB[c] < SRGB_THRESHOLD[c + 1],
{
    lemma_decode_products_4();
    lemma_decode_products_5();
    lemma_decode_products_6();
    lemma_decode_products_7();
}

proof fn lemma_decode_table_2(c: int)
    requires
        64 <= c < 96,
    ensures
        is_linear_of(c, LINEAR_OF_SRGB[c] as int),
        SRGB_THRESHOLD[c] <= LINEAR_OF_SRGB[c] <= UNIT,
        c < 255 ==> LINEAR_OF_SRGB[c] < SRGB_THRESHOLD[c + 1],
{
    lemma_decode_products_8();
    lemma_decode_products_9();
    lemma_decode_products_10();
    lemma_decode_products_11();
}

proof fn lemma_decode_table_3(c: int)
    requires
        96 <= c < 128,
    ensures
        is_linear_of(c, LINEAR_OF_SRGB[c] as int),
        SRGB_THRESHOLD[c] <= LINEAR_OF_SRGB[c] <= UNIT,
        c < 255 ==> LINEAR_OF_SRGB[c] < SRGB_THRESHOLD[c + 1],
{
    lemma_decode_products_12();
    lemma_decode_products_13();
    lemma_decode_products_14();
    lemma_decode_products_15();
}

proof fn lemma_decode_table_4(c: int)
    requires
        128 <= c < 160,
    ensures
        is_linear_of(c, LINEAR_OF_SRGB[c] as int),
        SRGB_THRESHOLD[c] <= LINEAR_OF_SRGB[c] <= UNIT,
        c < 255 ==> LINEAR_OF_SRGB[c] < SRGB_THRESHOLD[c + 1],
{
    lemma_decode_products_16();
    lemma_decode_products_17();
    lemma_decode_products_18();
    lemma_decode_products_19();
}

proof fn lemma_decode_table_5(c: int)
    requires
        160 <= c < 192,
    ensures
        is_linear_of(c, LINEAR_OF_SRGB[c] as int),
        SRGB_THRESHOLD[c] <= LINEAR_OF_SRGB[c] <= UNIT,
        c < 255 ==> LINEAR_OF_SRGB[c] < SRGB_THRESHOLD[c + 1],
{
    lemma_decode_products_20();
    lemma_decode_products_21();
    lemma_decode_products_22();
    lemma_decode_products_23();
}

proof fn lemma_decode_table_6(c: int)
    requires
        192 <= c < 224,
    ensures
        is_linear_of(c, LINEAR_OF_SRGB[c] as int),
        SRGB_THRESHOLD[c] <= LINEAR_OF_SRGB[c] <= UNIT,
        c < 255 ==> LINEAR_OF_SRGB[c] < SRGB_THRESHOLD[c + 1],
{
    lemma_decode_products_24();
    lemma_decode_products_25();
    lemma_decode_products_26();
    lemma_decode_products_27();
}

proof fn lemma_decode_table_7(c: int)
    requires
        224 <= c < 256,
    ensures
        is_linear_of(c, LINEAR_OF_SRGB[c] as int),
        SRGB_THRESHOLD[c] <= LINEAR_OF_SRGB[c] <= UNIT,
        c < 255 ==> LINEAR_OF_SRGB[c] < SRGB_THRESHOLD[c + 1],
{
    lemma_decode_products_28();
    lemma_decode_products_29();
    lemma_decode_products_30();
    lemma_decode_products_31();
}

// The thresholds are the least intensities that encode to their bytes.

proof fn lemma_encode_products_1()
    ensures
        encode_bracket(3188, 981, 3189),
        encode_bracket(3509, 1021, 3510),
        encode_bracket(3848, 1061, 3849),
        encode_bracket(4205, 1101, 4206),
        encode_bracket(4581, 1141, 4582),
{
    reveal(pow5_pow12);
}

proof fn lemma_encode_products_2()
    ensures
        encode_bracket(4976, 1181, 4977),
        encode_bracket(5391, 1221, 5392),
        encode_bracket(5824, 1261, 5825),
        encode_bracket(6277, 1301, 6278),
        encode_bracket(6751, 1341, 6752),
        encode_bracket(7244, 1381, 7245),
        encode_bracket(7758, 1421, 7759),
        encode_bracket(8293, 1461, 8294),
{
    reveal(pow5_pow12);
}

proof fn lemma_encode_products_3()
    ensures
        encode_bracket(8848, 1501, 8849),
        encode_bracket(9424, 1541, 9425),
        encode_bracket(10022, 1581, 10023),
        encode_bracket(10642, 1621, 10643),
        encode_bracket(11283, 1661, 11284),
        encode_bracket(11946, 1701, 11947),
        encode_bracket(12631, 1741, 12632),
        encode_bracket(13339, 1781, 13340),
{
    reveal(pow5_pow12);
}

proof fn lemma_encode_products_4()
    ensures
        encode_bracket(14070, 1821, 14071),
        encode_bracket(14823, 1861, 14824),
        encode_bracket(15599, 1901, 15600),
        encode_bracket(16398, 1941, 16399),
        encode_bracket(17221, 1981, 17222),
        encode_bracket(18068, 2021, 18069),
        encode_bracket(18938, 2061, 18939),
        encode_bracket(19832, 2101, 19833),
{
    reveal(pow5_pow12);
}

proof fn lemma_encode_products_5()
    ensures
        encode_bracket(20750, 2141, 20751),
        encode_bracket(21693, 2181, 21694),
        encode_bracket(22660, 2221, 22661),
        encode_bracket(23652, 2261, 23653),
        encode_bracket(24669, 2301, 24670),
        encode_bracket(25710, 2341, 25711),
        encode_bracket(26777, 2381, 26778),
        encode_bracket(27870, 2421, 27871),
{
    reveal(pow5_pow12);
}

proof fn lemma_encode_products_6()
    ensures
        encode_bracket(28988, 2461, 28989),
        encode_bracket(30131, 2501, 30132),
        encode_bracket(31301, 2541, 31302),
        encode_bracket(32497, 2581, 32498),
        encode_bracket(33718, 2621, 33719),
        encode_bracket(34967, 2661, 34968),
        encode_bracket(36242, 2701, 36243),
        encode_bracket(37543, 2741, 37544),
{
    reveal(pow5_pow12);
}

proof fn lemma_encode_products_7()
    ensures
        encode_bracket(38871, 2781, 38872),
        encode_bracket(40227, 2821, 40228),
        encode_bracket(41609, 2861, 41610),
        encode_bracket(43019, 2901, 43020),
        encode_bracket(44457, 2941, 44458),
        encode_bracket(45922, 2981, 45923),
        encode_bracket(47414, 3021, 47415),
        encode_bracket(48935, 3061, 48936),
{
    reveal(pow5_pow12);
}

proof fn lemma_encode_products_8()
    ensures
        encode_bracket(50484, 3101, 50485),
        encode_bracket(52061, 3141, 52062),
        encode_bracket(53666, 3181, 53667),
        encode_bracket(55300, 3221, 55301),
        encode_bracket(56963, 3261, 56964),
        encode_bracket(58654, 3301, 58655),
        encode_bracket(60375, 3341, 60376),
        encode_bracket(62124, 3381, 62125),
{
    reveal(pow5_pow12);
}

proof fn lemma_encode_products_9()
    ensures
        encode_bracket(63902, 3421, 63903),
        encode_bracket(65710, 3461, 65711),
        encode_bracket(67548, 3501, 67549),
        encode_bracket(69415, 3541, 69416),
        encode_bracket(71312, 3581, 71313),
        encode_bracket(73238, 3621, 73239),
        encode_bracket(75195, 3661, 75196),
        encode_bracket(77182, 3701, 77183),
{
    reveal(pow5_pow12);
}

proof fn lemma_encode_products_10()
    ensures
        encode_bracket(79199, 3741, 79200),
        encode_bracket(81247, 3781, 81248),
        encode_bracket(83325, 3821, 83326),
        encode_bracket(85434, 3861, 85435),
        encode_bracket(87574, 3901, 87575),
        encode_bracket(89744, 3941, 89745),
        encode_bracket(91946, 3981, 91947),
        encode_bracket(94179, 4021, 94180),
{
    reveal(pow5_pow12);
}

proof fn lemma_encode_products_11()
    ensures
        encode_bracket(96443, 4061, 96444),
        encode_bracket(98739, 4101, 98740),
        encode_bracket(101066, 4141, 101067),
        encode_bracket(103425, 4181, 103426),
        encode_bracket(105815, 4221, 105816),
        encode_bracket(108238, 4261, 108239),
        encode_bracket(110693, 4301, 110694),
        encode_bracket(113179, 4341, 113180),
{
    reveal(pow5_pow12);
}

proof fn lemma_encode_products_12()
    ensures
        encode_bracket(115698, 4381, 115699),
        encode_bracket(118250, 4421, 118251),
        encode_bracket(120834, 4461, 120835),
        encode_bracket(123451, 4501, 123452),
        encode_bracket(126100, 4541, 126101),
        encode_bracket(128782, 4581, 128783),
        encode_bracket(131498, 4621, 131499),
        encode_bracket(134246, 4661, 134247),
{
    reveal(pow5_pow12);
}

proof fn lemma_encode_products_13()
    ensures
        encode_bracket(137028, 4701, 137029),
        encode_bracket(139843, 4741, 139844),
        encode_bracket(142691, 4781, 142692),
        encode_bracket(145573, 4821, 145574),
        encode_bracket(148489, 4861, 148490),
        encode_bracket(151438, 4901, 151439),
        encode_bracket(154422, 4941, 154423),
        encode_bracket(157439, 4981, 157440),
{
    reveal(pow5_pow12);
}

proof fn lemma_encode_products_14()
    ensures
        encode_bracket(160490, 5021, 160491),
        encode_bracket(163576, 5061, 163577),
        encode_bracket(166696, 5101, 166697),
        encode_bracket(169850, 5141, 169851),
        encode_bracket(173039, 5181, 173040),
        encode_bracket(176263, 5221, 176264),
        encode_bracket(179521, 5261, 179522),
        encode_bracket(182815, 5301, 182816),
{
    reveal(pow5_pow12);
}

proof fn lemma_encode_products_15()
    ensures
        encode_bracket(186143, 5341, 186144),
        encode_bracket(189506, 5381, 189507),
        encode_bracket(192905, 5421, 192906),
        encode_bracket(196339, 5461, 196340),
        encode_bracket(199808, 5501, 199809),
        encode_bracket(203313, 5541, 203314),
        encode_bracket(206853, 5581, 206854),
        encode_bracket(210429, 5621, 210430),
{
    reveal(pow5_pow12);
}

proof fn lemma_encode_products_16()
    ensures
        encode_bracket(214041, 5661, 214042),
        encode_bracket(217688, 5701, 217689),
        encode_bracket(221372, 5741, 221373),
        encode_bracket(225092, 5781, 225093),
        encode_bracket(228848, 5821, 228849),
        encode_bracket(232640, 5861, 232641),
        encode_bracket(236469, 5901, 236470),
        encode_bracket(240334, 5941, 240335),
{
    reveal(pow5_pow12);
}

proof fn lemma_encode_products_17()
    ensures
        encode_bracket(244236, 5981, 244237),
        encode_bracket(248175, 6021, 248176),
        encode_bracket(252150, 6061, 252151),
        encode_bracket(256162, 6101, 256163),
        encode_bracket(260212, 6141, 260213),
        encode_bracket(264298, 6181, 264299),
        encode_bracket(268422, 6221, 268423),
        encode_bracket(272582, 6261, 272583),
{
    reveal(pow5_pow12);
}

proof fn lemma_encode_products_18()
    ensures
        encode_bracket(276781, 6301, 276782),
        encode_bracket(281016, 6341, 281017),
        encode_bracket(285290, 6381, 285291),
        encode_bracket(289601, 6421, 289602),
        encode_bracket(293949, 6461, 293950),
        encode_bracket(298336, 6501, 298337),
        encode_bracket(302760, 6541, 302761),
        encode_bracket(307223, 6581, 307224),
{
    reveal(pow5_pow12);
}

proof fn lemma_encode_products_19()
    ensures
        encode_bracket(311724, 6621, 311725),
        encode_bracket(316262, 6661, 316263),
        encode_bracket(320840, 6701, 320841),
        encode_bracket(325455, 6741, 325456),
        encode_bracket(330109, 6781, 330110),
        encode_bracket(334802, 6821, 334803),
        encode_bracket(339534, 6861, 339535),
        encode_bracket(344304, 6901, 344305),
{
    reveal(pow5_pow12);
}

proof fn lemma_encode_products_20()
    ensures
        encode_bracket(349113, 6941, 349114),
        encode_bracket(353961, 6981, 353962),
        encode_bracket(358848, 7021, 358849),
        encode_bracket(363774, 7061, 363775),
        encode_bracket(368740, 7101, 368741),
        encode_bracket(373744, 7141, 373745),
        encode_bracket(378789, 7181, 378790),
        encode_bracket(383872, 7221, 383873),
{
    reveal(pow5_pow12);
}

proof fn lemma_encode_products_21()
    ensures
        encode_bracket(388995, 7261, 388996),
        encode_bracket(394158, 7301, 394159),
        encode_bracket(399361, 7341, 399362),
        encode_bracket(404604, 7381, 404605),
        encode_bracket(409886, 7421, 409887),
        encode_bracket(415208, 7461, 415209),
        encode_bracket(420571, 7501, 420572),
        encode_bracket(425974, 7541, 425975),
{
    reveal(pow5_pow12);
}

proof fn lemma_encode_products_22()
    ensures
        encode_bracket(431417, 7581, 431418),
        encode_bracket(436900, 7621, 436901),
        encode_bracket(442424, 7661, 442425),
        encode_bracket(447988, 7701, 447989),
        encode_bracket(453593, 7741, 453594),
        encode_bracket(459238, 7781, 459239),
        encode_bracket(464925, 7821, 464926),
        encode_bracket(470652, 7861, 470653),
{
    reveal(pow5_pow12);
}

proof fn lemma_encode_products_23()
    ensures
        encode_bracket(476420, 7901, 476421),
        encode_bracket(482229, 7941, 482230),
        encode_bracket(488080, 7981, 488081),
        encode_bracket(493971, 8021, 493972),
        encode_bracket(499904, 8061, 499905),
        encode_bracket(505878, 8101, 505879),
        encode_bracket(511894, 8141, 511895),
        encode_bracket(517951, 8181, 517952),
{
    reveal(pow5_pow12);
}

proof fn lemma_encode_products_24()
    ensures
        encode_bracket(524050, 8221, 524051),
        encode_bracket(530190, 8261, 530191),
        encode_bracket(536372, 8301, 536373),
        encode_bracket(542596, 8341, 542597),
        encode_bracket(548862, 8381, 548863),
        encode_bracket(555170, 8421, 555171),
        encode_bracket(561520, 8461, 561521),
        encode_bracket(567912, 8501, 567913),
{
    reveal(pow5_pow12);
}

proof fn lemma_encode_products_25()
    ensures
        encode_bracket(574347, 8541, 574348),
        encode_bracket(580824, 8581, 580825),
        encode_bracket(587343, 8621, 587344),
        encode_bracket(593904, 8661, 593905),
        encode_bracket(600509, 8701, 600510),
        encode_bracket(607156, 8741, 607157),
        encode_bracket(613845, 8781, 613846),
        encode_bracket(620578, 8821, 620579),
{
    reveal(pow5_pow12);
}

proof fn lemma_encode_products_26()
    ensures
        encode_bracket(627353, 8861, 627354),
        encode_bracket(634171, 8901, 634172),
        encode_bracket(641032, 8941, 641033),
        encode_bracket(647937, 8981, 647938),
        encode_bracket(654884, 9021, 654885),
        encode_bracket(661875, 9061, 661876),
        encode_bracket(668909, 9101, 668910),
        encode_bracket(675987, 9141, 675988),
{
    reveal(pow5_pow12);
}

proof fn lemma_encode_products_27()
    ensures
        encode_bracket(683108, 9181, 683109),
        encode_bracket(690273, 9221, 690274),
        encode_bracket(697481, 9261, 697482),
        encode_bracket(704733, 9301, 704734),
        encode_bracket(712029, 9341, 712030),
        encode_bracket(719368, 9381, 719369),
        encode_bracket(726752, 9421, 726753),
        encode_bracket(734180, 9461, 734181),
{
    reveal(pow5_pow12);
}

proof fn lemma_encode_products_28()
    ensures
        encode_bracket(741651, 9501, 741652),
        encode_bracket(749167, 9541, 749168),
        encode_bracket(756727, 9581, 756728),
        encode_bracket(764332, 9621, 764333),
        encode_bracket(771981, 9661, 771982),
        encode_bracket(779674, 9701, 779675),
        encode_bracket(787412, 9741, 787413),
        encode_bracket(795194, 9781, 795195),
{
    reveal(pow5_pow12);
}

proof fn lemma_encode_products_29()
    ensures
        encode_bracket(803021, 9821, 803022),
        encode_bracket(810893, 9861, 810894),
        encode_bracket(818810, 9901, 818811),
        encode_bracket(826772, 9941, 826773),
        encode_bracket(834778, 9981, 834779),
        encode_bracket(842830, 10021, 842831),
        encode_bracket(850927, 10061, 850928),
        encode_bracket(859069, 10101, 859070),
{
    reveal(pow5_pow12);
}

proof fn lemma_encode_products_30()
    ensures
        encode_bracket(867256, 10141, 867257),
        encode_bracket(875489, 10181, 875490),
        encode_bracket(883767, 10221, 883768),
        encode_bracket(892090, 10261, 892091),
        encode_bracket(900459, 10301, 900460),
        encode_bracket(908874, 10341, 908875),
        encode_bracket(917334, 10381, 917335),
        encode_bracket(925840, 10421, 925841),
{
    reveal(pow5_pow12);
}

proof fn lemma_encode_products_31()
    ensures
        encode_bracket(934392, 10461, 934393),
        encode_bracket(942990, 10501, 942991),
        encode_bracket(951634, 10541, 951635),
        encode_bracket(960324, 10581, 960325),
        encode_bracket(969059, 10621, 969060),
        encode_bracket(977842, 10661, 977843),
        encode_bracket(986670, 10701, 986671),
        encode_bracket(995545, 10741, 995546),
{
    reveal(pow5_pow12);
}

proof fn lemma_encode_table_0(c: int)
    requires
        0 <= c < 32,
    ensures
        encodes_at_least(SRGB_THRESHOLD[c] as int, c),
        c > 0 ==> !encodes_at_least(SRGB_THRESHOLD[c] as int - 1, c),
        SRGB_THRESHOLD[c] <= UNIT,
{
    lemma_encode_products_1();
    lemma_encode_products_2();
    lemma_encode_products_3();
}

proof fn lemma_encode_table_1(c: int)
    requires
        32 <= c < 64,
    ensures
        encodes_at_least(SRGB_THRESHOLD[c] as int, c),
        c > 0 ==> !encodes_at_least(SRGB_THRESHOLD[c] as int - 1, c),
        SRGB_THRESHOLD[c] <= UNIT,
{
    lemma_encode_products_4();
    lemma_encode_products_5();
    lemma_encode_products_6();
    lemma_encode_products_7();
}

proof fn lemma_encode_table_2(c: int)
    requires
        64 <= c < 96,
    ensures
        encodes_at_least(SRGB_THRESHOLD[c] as int, c),
        c > 0 ==> !encodes_at_least(SRGB_THRESHOLD[c] as int - 1, c),
        SRGB_THRESHOLD[c] <= UNIT,
{
    lemma_encode_products_8();
    lemma_encode_products_9();
    lemma_encode_products_10();
    lemma_encode_products_11();
}

proof fn lemma_encode_table_3(c: int)
    requires
        96 <= c < 128,
    ensures
        encodes_at_least(SRGB_THRESHOLD[c] as int, c),
        c > 0 ==> !encodes_at_least(SRGB_THRESHOLD[c] as int - 1, c),
        SRGB_THRESHOLD[c] <= UNIT,
{
    lemma_encode_products_12();
    lemma_encode_products_13();
    lemma_encode_products_14();
    lemma_encode_products_15();
}

proof fn lemma_encode_table_4(c: int)
    requires
        128 <= c < 160,
    ensures
        encodes_at_least(SRGB_THRESHOLD[c] as int, c),
        c > 0 ==> !encodes_at_least(SRGB_THRESHOLD[c] as int - 1, c),
        SRGB_THRESHOLD[c] <= UNIT,
{
    lemma_encode_products_16();
    lemma_encode_products_17();
    lemma_encode_products_18();
    lemma_encode_products_19();
}

proof fn lemma_encode_table_5(c: int)
    requires
        160 <= c < 192,
    ensures
        encodes_at_least(SRGB_THRESHOLD[c] as int, c),
        c > 0 ==> !encodes_at_least(SRGB_THRESHOLD[c] as int - 1, c),
        SRGB_THRESHOLD[c] <= UNIT,
{
    lemma_encode_products_20();
    lemma_encode_products_21();
    lemma_encode_products_22();
    lemma_encode_products_23();
}

proof fn lemma_encode_table_6(c: int)
    requires
        192 <= c < 224,
    ensures
        encodes_at_least(SRGB_THRESHOLD[c] as int, c),
        c > 0 ==> !encodes_at_least(SRGB_THRESHOLD[c] as int - 1, c),
        SRGB_THRESHOLD[c] <= UNIT,
{
    lemma_encode_products_24();
    lemma_encode_products_25();
    lemma_encode_products_26();
    lemma_encode_products_27();
}

proof fn lemma_encode_table_7(c: int)
    requires
        224 <= c < 256,
    ensures
        encodes_at_least(SRGB_THRESHOLD[c] as int, c),
        c > 0 ==> !encodes_at_least(SRGB_THRESHOLD[c] as int - 1, c),
        SRGB_THRESHOLD[c] <= UNIT,
{
    lemma_encode_products_28();
    lemma_encode_products_29();
    lemma_encode_products_30();
    lemma_encode_products_31();
}


proof fn lemma_decode_table(c: int)
    requires
        0 <= c < 256,
    ensures
        is_linear_of(c, LINEAR_OF_SRGB[c] as int),
        SRGB_THRESHOLD[c] <= LINEAR_OF_SRGB[c] <= UNIT,
        c < 255 ==> LINEAR_OF_SRGB[c] < SRGB_THRESHOLD[c + 1],
{
    if c < 32 {
        lemma_decode_table_0(c);
    } else if c < 64 {
        lemma_decode_table_1(c);
    } else if c < 96 {
        lemma_decode_table_2(c);
    } else if c < 128 {
        lemma_decode_table_3(c);
    } else if c < 160 {
        lemma_decode_table_4(c);
    } else if c < 192 {
        lemma_decode_table_5(c);
    } else if c < 224 {
        lemma_decode_table_6(c);
    } else {
        lemma_decode_table_7(c);
    }
}

proof fn lemma_encode_table(c: int)
    requires
        0 <= c < 256,
    ensures
        encodes_at_least(SRGB_THRESHOLD[c] as int, c),
        c > 0 ==> !encodes_at_least(SRGB_THRESHOLD[c] as int - 1, c),
        SRGB_THRESHOLD[c] <= UNIT,
{
    if c < 32 {
        lemma_encode_table_0(c);
    } else if c < 64 {
        lemma_encode_table_1(c);
    } else if c < 96 {
        lemma_encode_table_2(c);
    } else if c < 128 {
        lemma_encode_table_3(c);
    } else if c < 160 {
        lemma_encode_table_4(c);
    } else if c < 192 {
        lemma_encode_table_5(c);
    } else if c < 224 {
        lemma_encode_table_6(c);
    } else {
        lemma_encode_table_7(c);
    }
}

/// An intensity that encodes to a byte or higher still does so when it grows.
proof fn lemma_encodes_at_least_grows(t1: int, t2: int, c: int)
    requires
        0 <= t1 <= t2,
        0 <= c,
        encodes_at_least(t1, c),
    ensures
        encodes_at_least(t2, c),
{
    if t2 <= 3130 {
    } else if t1 > 3130 {
        lemma_pow5_pow12_monotone(t1, 10761, t2, 10761);
    } else {
        assert(c <= 10);
        assert(pow5_pow12(1000000, 941) <= pow5_pow12(3131, 10761)) by {
            reveal(pow5_pow12);
        }
        lemma_pow5_pow12_monotone(1000000, 40 * c + 541, 1000000, 941);
        lemma_pow5_pow12_monotone(3131, 10761, t2, 10761);
    }
}

/// An intensity that encodes to a byte or higher also encodes to every lower
/// byte or higher.
proof fn lemma_encodes_at_least_lower(t: int, c1: int, c2: int)
    requires
        0 <= t,
        0 <= c1 <= c2,
        encodes_at_least(t, c2),
    ensures
        encodes_at_least(t, c1),
{
    if t > 3130 {
        lemma_pow5_pow12_monotone(1000000, 40 * c1 + 541, 1000000, 40 * c2 + 541);
    }
}

/// Every byte has a linear-light intensity, which is at most full intensity.
pub proof fn lemma_srgb_to_linear(c: u8)
    ensures
        is_linear_of(c as int, srgb_to_linear(c)),
        0 <= srgb_to_linear(c) <= UNIT,
{
    lemma_decode_table(c as int);
    lemma_linear_unique(c as int, srgb_to_linear(c), LINEAR_OF_SRGB[c as int] as int);
}

/// At most one byte is the encoding of an intensity.
pub proof fn lemma_srgb_unique(t: int, c1: int, c2: int)
    requires
        0 <= t,
        is_srgb_of(t, c1),
        is_srgb_of(t, c2),
    ensures
        c1 == c2,
{
    if c1 < c2 {
        lemma_encodes_at_least_lower(t, c1 + 1, c2);
    } else if c2 < c1 {
        lemma_encodes_at_least_lower(t, c2 + 1, c1);
    }
}

/// Whether an intensity lies between the threshold of a byte and that of the
/// next byte.
spec fn in_threshold_interval(t: int, c: int) -> bool {
    &&& 0 <= c < 256
    &&& SRGB_THRESHOLD[c] <= t <= UNIT
    &&& c < 255 ==> t < SRGB_THRESHOLD[c + 1]
}

/// Between the threshold of a byte and that of the next, an intensity encodes
/// to that byte.
proof fn lemma_encodes_between(t: int, c: int)
    requires
        in_threshold_interval(t, c),
    ensures
        is_srgb_of(t, c),
{
    lemma_encode_table(c);
    lemma_encodes_at_least_grows(SRGB_THRESHOLD[c] as int, t, c);
    if c < 255 {
        lemma_encode_table(c + 1);
        if encodes_at_least(t, c + 1) {
            lemma_encodes_at_least_grows(t, SRGB_THRESHOLD[c + 1] as int - 1, c + 1);
        }
    } else {
        assert(pow5_pow12(1000000, 10761) < pow5_pow12(1000000, 10781)) by {
            reveal(pow5_pow12);
        }
        lemma_pow5_pow12_monotone(t, 10761, 1000000, 10761);
    }
}

/// Every intensity encodes to a byte.
pub proof fn lemma_linear_to_srgb(t: int)
    requires
        0 <= t,
    ensures
        is_srgb_of(at_most_unit(t), linear_to_srgb(t)),
        0 <= linear_to_srgb(t) <= 255,
{
    let x = at_most_unit(t);
    let c = choose|c: int| in_threshold_interval(x, c);
    lemma_threshold_interval(x, 0, 256);
    lemma_encodes_between(x, c);
    lemma_srgb_unique(x, c, linear_to_srgb(t));
}

/// Some byte's threshold interval holds the intensity.
proof fn lemma_threshold_interval(x: int, lo: int, hi: int)
    requires
        0 <= lo < hi <= 256,
        SRGB_THRESHOLD[lo] <= x <= UNIT,
        hi < 256 ==> x < SRGB_THRESHOLD[hi],
    ensures
        exists|c: int| in_threshold_interval(x, c),
    decreases hi - lo,
{
    if hi - lo == 1 {
        assert(in_threshold_interval(x, lo));
    } else if SRGB_THRESHOLD[lo + 1] <= x {
        lemma_threshold_interval(x, lo + 1, hi);
    } else {
        lemma_threshold_interval(x, lo, lo + 1);
    }
}

/// Decoding a byte to linear light and encoding it again gives the byte back.
pub proof fn lemma_round_trip(c: u8)
    ensures
        linear_to_srgb(srgb_to_linear(c)) == c,
{
    lemma_srgb_to_linear(c);
    lemma_decode_table(c as int);
    lemma_linear_unique(c as int, srgb_to_linear(c), LINEAR_OF_SRGB[c as int] as int);
    let t = srgb_to_linear(c);
    lemma_encodes_between(t, c as int);
    lemma_linear_to_srgb(t);
    lemma_srgb_unique(t, c as int, linear_to_srgb(t));
}

/// Black has no intensity and white has full intensity.
pub proof fn lemma_linear_ends()
    ensures
        srgb_to_linear(0) == 0,
        srgb_to_linear(255) == UNIT,
{
    lemma_decode_table(0);
    lemma_decode_table(255);
    lemma_srgb_to_linear(0);
    lemma_srgb_to_linear(255);
    lemma_linear_unique(0, srgb_to_linear(0), LINEAR_OF_SRGB[0] as int);
    lemma_linear_unique(255, srgb_to_linear(255), LINEAR_OF_SRGB[255] as int);
}

/// The linear-light intensity of an sRGB byte, in millionths.
pub fn to_linear(c: u8) -> (t: u32)
    ensures
        t == srgb_to_linear(c),
        t <= UNIT,
{
    proof {
        lemma_decode_table(c as int);
        lemma_srgb_to_linear(c);
        lemma_linear_unique(c as int, srgb_to_linear(c), LINEAR_OF_SRGB[c as int] as int);
    }
    LINEAR_OF_SRGB[c as usize]
}

/// The sRGB byte of a linear-light intensity in millionths.
pub fn from_linear(t: u32) -> (c: u8)
    ensures
        c == linear_to_srgb(t as int),
{
    let x: u32 = if t > UNIT { UNIT } else { t };
    let mut lo: usize = 0;
    let mut hi: usize = 256;
    while hi - lo > 1
        invariant
            0 <= lo < hi <= 256,
            x <= UNIT,
            SRGB_THRESHOLD[lo as int] <= x,
            hi < 256 ==> x < SRGB_THRESHOLD[hi as int],
        decreases hi - lo,
    {
        let mid: usize = lo + (hi - lo) / 2;
        if SRGB_THRESHOLD[mid] <= x {
            lo = mid;
        } else {
            hi = mid;
        }
    }
    proof {
        lemma_encodes_between(x as int, lo as int);
        lemma_linear_to_srgb(t as int);
        lemma_srgb_unique(x as int, lo as int, linear_to_srgb(t as int));
    }
    lo as u8
}

/// A colour in linear light: each channel in millionths of full intensity.
#[derive(Clone, Copy, Debug, PartialEq, Eq, Structural)]
pub struct LinearRgb {
    pub r: u32,
    pub g: u32,
    pub b: u32,
}

/// An sRGB colour in linear light.
pub open spec fn linear_of(c: Rgb) -> LinearRgb {
    LinearRgb {
        r: srgb_to_linear(c.r) as u32,
        g: srgb_to_linear(c.g) as u32,
        b: srgb_to_linear(c.b) as u32,
    }
}

/// The sRGB colour of a colour in linear light.
pub open spec fn srgb_of(l: LinearRgb) -> Rgb {
    Rgb {
        r: linear_to_srgb(l.r as int) as u8,
        g: linear_to_srgb(l.g as int) as u8,
        b: linear_to_srgb(l.b as int) as u8,
    }
}

/// An sRGB colour in linear light.
pub fn rgb_to_linear(c: Rgb) -> (l: LinearRgb)
    ensures
        l == linear_of(c),
        l.r <= UNIT && l.g <= UNIT && l.b <= UNIT,
{
    LinearRgb { r: to_linear(c.r), g: to_linear(c.g), b: to_linear(c.b) }
}

/// The sRGB colour of a colour in linear light.
pub fn linear_to_rgb(l: LinearRgb) -> (c: Rgb)
    ensures
        c == srgb_of(l),
{
    proof {
        lemma_linear_to_srgb(l.r as int);
        lemma_linear_to_srgb(l.g as int);
        lemma_linear_to_srgb(l.b as int);
    }
    Rgb { r: from_linear(l.r), g: from_linear(l.g), b: from_linear(l.b) }
}

/// A colour taken to linear light and back is the colour itself.
pub proof fn lemma_color_round_trip(c: Rgb)
    ensures
        srgb_of(linear_of(c)) == c,
{
    lemma_srgb_to_linear(c.r);
    lemma_srgb_to_linear(c.g);
    lemma_srgb_to_linear(c.b);
    lemma_round_trip(c.r);
    lemma_round_trip(c.g);
    lemma_round_trip(c.b);
}

} // verus!
