//! The gamma-2.2 fade curve of the night lamp.
//!
//! `FADE_TABLE[step]` is the PWM duty for fade step `step`, precomputed as
//! `round(1023 * (1 - step / 239) ^ 2.2)` for `step` in `0..240`; the
//! firmware never evaluates the power function. The table starts fully lit
//! (1023), ends dark (0) and never rises on the way; `lemma_fade_follows_gamma`
//! proves each entry against the formula, stated in integers.
//! `extras/fade_table.py` regenerates it.
use vstd::prelude::*;

use crate::config::{FADE_STEPS, PWM_MAX_DUTY};

verus! {

/// The PWM duty of each fade step.
pub const FADE_TABLE: [u16; 240] = [
    1023, 1014, 1004, 995, 986, 977, 967, 958, 949, 940, 931, 922, 913, 905, 896, 887, 878,
    870, 861, 853, 844, 836, 827, 819, 811, 802, 794, 786, 778, 770, 762, 754, 746, 738,
    730, 722, 714, 707, 699, 691, 684, 676, 669, 661, 654, 646, 639, 632, 625, 618, 610,
    603, 596, 589, 582, 575, 569, 562, 555, 548, 542, 535, 528, 522, 515, 509, 502, 496,
    490, 483, 477, 471, 465, 459, 453, 447, 441, 435, 429, 423, 417, 412, 406, 400, 395,
    389, 383, 378, 373, 367, 362, 356, 351, 346, 341, 336, 330, 325, 320, 315, 310, 306,
    301, 296, 291, 286, 282, 277, 273, 268, 263, 259, 255, 250, 246, 242, 237, 233, 229,
    225, 221, 217, 213, 209, 205, 201, 197, 193, 189, 186, 182, 178, 175, 171, 168, 164,
    161, 157, 154, 150, 147, 144, 141, 138, 134, 131, 128, 125, 122, 119, 116, 114, 111,
    108, 105, 103, 100, 97, 95, 92, 90, 87, 85, 82, 80, 78, 75, 73, 71, 69, 67, 64, 62, 60,
    58, 56, 54, 53, 51, 49, 47, 45, 44, 42, 40, 39, 37, 36, 34, 33, 31, 30, 29, 27, 26, 25,
    23, 22, 21, 20, 19, 18, 17, 16, 15, 14, 13, 12, 11, 11, 10, 9, 8, 8, 7, 7, 6, 5, 5, 4,
    4, 3, 3, 3, 2, 2, 2, 1, 1, 1, 1, 1, 0, 0, 0, 0, 0, 0, 0, 0
];

/// The fade curve, step by step.
#[verifier::opaque]
pub open spec fn fade_curve() -> Seq<u16> {
    seq![
        1023u16, 1014u16, 1004u16, 995u16, 986u16, 977u16, 967u16, 958u16, 949u16, 940u16,
        931u16, 922u16, 913u16, 905u16, 896u16, 887u16, 878u16, 870u16, 861u16, 853u16, 844u16,
        836u16, 827u16, 819u16, 811u16, 802u16, 794u16, 786u16, 778u16, 770u16, 762u16, 754u16,
        746u16, 738u16, 730u16, 722u16, 714u16, 707u16, 699u16, 691u16, 684u16, 676u16, 669u16,
        661u16, 654u16, 646u16, 639u16, 632u16, 625u16, 618u16, 610u16, 603u16, 596u16, 589u16,
        582u16, 575u16, 569u16, 562u16, 555u16, 548u16, 542u16, 535u16, 528u16, 522u16, 515u16,
        509u16, 502u16, 496u16, 490u16, 483u16, 477u16, 471u16, 465u16, 459u16, 453u16, 447u16,
        441u16, 435u16, 429u16, 423u16, 417u16, 412u16, 406u16, 400u16, 395u16, 389u16, 383u16,
        378u16, 373u16, 367u16, 362u16, 356u16, 351u16, 346u16, 341u16, 336u16, 330u16, 325u16,
        320u16, 315u16, 310u16, 306u16, 301u16, 296u16, 291u16, 286u16, 282u16, 277u16, 273u16,
        268u16, 263u16, 259u16, 255u16, 250u16, 246u16, 242u16, 237u16, 233u16, 229u16, 225u16,
        221u16, 217u16, 213u16, 209u16, 205u16, 201u16, 197u16, 193u16, 189u16, 186u16, 182u16,
        178u16, 175u16, 171u16, 168u16, 164u16, 161u16, 157u16, 154u16, 150u16, 147u16, 144u16,
        141u16, 138u16, 134u16, 131u16, 128u16, 125u16, 122u16, 119u16, 116u16, 114u16, 111u16,
        108u16, 105u16, 103u16, 100u16, 97u16, 95u16, 92u16, 90u16, 87u16, 85u16, 82u16, 80u16,
        78u16, 75u16, 73u16, 71u16, 69u16, 67u16, 64u16, 62u16, 60u16, 58u16, 56u16, 54u16,
        53u16, 51u16, 49u16, 47u16, 45u16, 44u16, 42u16, 40u16, 39u16, 37u16, 36u16, 34u16,
        33u16, 31u16, 30u16, 29u16, 27u16, 26u16, 25u16, 23u16, 22u16, 21u16, 20u16, 19u16,
        18u16, 17u16, 16u16, 15u16, 14u16, 13u16, 12u16, 11u16, 11u16, 10u16, 9u16, 8u16, 8u16,
        7u16, 7u16, 6u16, 5u16, 5u16, 4u16, 4u16, 3u16, 3u16, 3u16, 2u16, 2u16, 2u16, 1u16,
        1u16, 1u16, 1u16, 1u16, 0u16, 0u16, 0u16, 0u16, 0u16, 0u16, 0u16, 0u16
    ]
}

/// The duty of fade step `step`; a step past the end of the fade is dark.
pub open spec fn fade_duty(step: int) -> u16 {
    if 0 <= step < FADE_STEPS {
        fade_curve()[step]
    } else {
        0
    }
}

/// The duty of fade step `step`; steps at or past `FADE_STEPS` give 0
/// (the lamp is out), so no index panics.
pub fn at(step: usize) -> (duty: u16)
    ensures
        duty == fade_duty(step as int),
{
    if step < FADE_STEPS {
        let table = FADE_TABLE;
        assert(table@ =~= fade_curve()) by {
            reveal(fade_curve);
        }
        table[step]
    } else {
        0
    }
}

/// The fifth power.
pub open spec fn pow5(x: int) -> int {
    x * x * x * x * x
}

/// The eleventh power.
pub open spec fn pow11(x: int) -> int {
    x * x * x * x * x * x * x * x * x * x * x
}

/// `duty` is `PWM_MAX_DUTY * x ^ 2.2` rounded to the nearest integer, where
/// `x = (239 - step) / 239` and `0 <= step <= 239`. With `2.2 = 11 / 5` and
/// both sides of `duty - 1/2 <= PWM_MAX_DUTY * x ^ (11/5) < duty + 1/2`
/// doubled and raised to the fifth power, this reads in integers:
/// `(2 duty - 1)^5 * 239^11 <= (2 * PWM_MAX_DUTY)^5 * (239 - step)^11
/// < (2 duty + 1)^5 * 239^11` (the lower bound is void for `duty == 0`).
pub open spec fn gamma_rounds_to(step: int, duty: int) -> bool {
    let last = FADE_STEPS - 1;
    let scaled = pow5(2 * PWM_MAX_DUTY) * pow11(last - step);
    &&& duty == 0 || pow5(2 * duty - 1) * pow11(last) <= scaled
    &&& scaled < pow5(2 * duty + 1) * pow11(last)
}

/// `gamma_rounds_to` with the parameters written out as numbers, so that
/// the solver evaluates it on given values.
spec fn gamma_rounds_to_numerals(step: int, duty: int) -> bool {
    let scaled = pow5(2046) * pow11(239 - step);
    &&& duty == 0 || pow5(2 * duty - 1) * pow11(239) <= scaled
    &&& scaled < pow5(2 * duty + 1) * pow11(239)
}

proof fn lemma_gamma_numerals(step: int, duty: int)
    ensures
        gamma_rounds_to(step, duty) == gamma_rounds_to_numerals(step, duty),
{
    assert(FADE_STEPS - 1 - step == 239 - step);
    assert(2 * PWM_MAX_DUTY == 2046);
}

/// From index `from` on, every entry of `c` rounds the gamma curve and no
/// entry is above the one before it.
spec fn curve_checked(c: Seq<u16>, from: nat) -> bool
    decreases c.len() - from,
{
    if from >= c.len() {
        true
    } else {
        &&& gamma_rounds_to_numerals(from as int, c[from as int] as int)
        &&& from + 1 < c.len() ==> c[from as int] >= c[from as int + 1]
        &&& curve_checked(c, from + 1)
    }
}

proof fn lemma_curve_checked_at(c: Seq<u16>, from: nat, i: int)
    requires
        curve_checked(c, from),
        from <= i < c.len(),
    ensures
        gamma_rounds_to_numerals(i, c[i] as int),
        i + 1 < c.len() ==> c[i] >= c[i + 1],
    decreases i - from,
{
    if from < i {
        lemma_curve_checked_at(c, from + 1, i);
    }
}

/// The gamma rounding of each entry of the table, entry by entry, on the
/// numbers themselves.
spec fn gamma_table_facts() -> bool {
    &&& gamma_rounds_to_numerals(0, 1023)
    &&& gamma_rounds_to_numerals(1, 1014)
    &&& gamma_rounds_to_numerals(2, 1004)
    &&& gamma_rounds_to_numerals(3, 995)
    &&& gamma_rounds_to_numerals(4, 986)
    &&& gamma_rounds_to_numerals(5, 977)
    &&& gamma_rounds_to_numerals(6, 967)
    &&& gamma_rounds_to_numerals(7, 958)
    &&& gamma_rounds_to_numerals(8, 949)
    &&& gamma_rounds_to_numerals(9, 940)
    &&& gamma_rounds_to_numerals(10, 931)
    &&& gamma_rounds_to_numerals(11, 922)
    &&& gamma_rounds_to_numerals(12, 913)
    &&& gamma_rounds_to_numerals(13, 905)
    &&& gamma_rounds_to_numerals(14, 896)
    &&& gamma_rounds_to_numerals(15, 887)
    &&& gamma_rounds_to_numerals(16, 878)
    &&& gamma_rounds_to_numerals(17, 870)
    &&& gamma_rounds_to_numerals(18, 861)
    &&& gamma_rounds_to_numerals(19, 853)
    &&& gamma_rounds_to_numerals(20, 844)
    &&& gamma_rounds_to_numerals(21, 836)
    &&& gamma_rounds_to_numerals(22, 827)
    &&& gamma_rounds_to_numerals(23, 819)
    &&& gamma_rounds_to_numerals(24, 811)
    &&& gamma_rounds_to_numerals(25, 802)
    &&& gamma_rounds_to_numerals(26, 794)
    &&& gamma_rounds_to_numerals(27, 786)
    &&& gamma_rounds_to_numerals(28, 778)
    &&& gamma_rounds_to_numerals(29, 770)
    &&& gamma_rounds_to_numerals(30, 762)
    &&& gamma_rounds_to_numerals(31, 754)
    &&& gamma_rounds_to_numerals(32, 746)
    &&& gamma_rounds_to_numerals(33, 738)
    &&& gamma_rounds_to_numerals(34, 730)
    &&& gamma_rounds_to_numerals(35, 722)
    &&& gamma_rounds_to_numerals(36, 714)
    &&& gamma_rounds_to_numerals(37, 707)
    &&& gamma_rounds_to_numerals(38, 699)
    &&& gamma_rounds_to_numerals(39, 691)
    &&& gamma_rounds_to_numerals(40, 684)
    &&& gamma_rounds_to_numerals(41, 676)
    &&& gamma_rounds_to_numerals(42, 669)
    &&& gamma_rounds_to_numerals(43, 661)
    &&& gamma_rounds_to_numerals(44, 654)
    &&& gamma_rounds_to_numerals(45, 646)
    &&& gamma_rounds_to_numerals(46, 639)
    &&& gamma_rounds_to_numerals(47, 632)
    &&& gamma_rounds_to_numerals(48, 625)
    &&& gamma_rounds_to_numerals(49, 618)
    &&& gamma_rounds_to_numerals(50, 610)
    &&& gamma_rounds_to_numerals(51, 603)
    &&& gamma_rounds_to_numerals(52, 596)
    &&& gamma_rounds_to_numerals(53, 589)
    &&& gamma_rounds_to_numerals(54, 582)
    &&& gamma_rounds_to_numerals(55, 575)
    &&& gamma_rounds_to_numerals(56, 569)
    &&& gamma_rounds_to_numerals(57, 562)
    &&& gamma_rounds_to_numerals(58, 555)
    &&& gamma_rounds_to_numerals(59, 548)
    &&& gamma_rounds_to_numerals(60, 542)
    &&& gamma_rounds_to_numerals(61, 535)
    &&& gamma_rounds_to_numerals(62, 528)
    &&& gamma_rounds_to_numerals(63, 522)
    &&& gamma_rounds_to_numerals(64, 515)
    &&& gamma_rounds_to_numerals(65, 509)
    &&& gamma_rounds_to_numerals(66, 502)
    &&& gamma_rounds_to_numerals(67, 496)
    &&& gamma_rounds_to_numerals(68, 490)
    &&& gamma_rounds_to_numerals(69, 483)
    &&& gamma_rounds_to_numerals(70, 477)
    &&& gamma_rounds_to_numerals(71, 471)
    &&& gamma_rounds_to_numerals(72, 465)
    &&& gamma_rounds_to_numerals(73, 459)
    &&& gamma_rounds_to_numerals(74, 453)
    &&& gamma_rounds_to_numerals(75, 447)
    &&& gamma_rounds_to_numerals(76, 441)
    &&& gamma_rounds_to_numerals(77, 435)
    &&& gamma_rounds_to_numerals(78, 429)
    &&& gamma_rounds_to_numerals(79, 423)
    &&& gamma_rounds_to_numerals(80, 417)
    &&& gamma_rounds_to_numerals(81, 412)
    &&& gamma_rounds_to_numerals(82, 406)
    &&& gamma_rounds_to_numerals(83, 400)
    &&& gamma_rounds_to_numerals(84, 395)
    &&& gamma_rounds_to_numerals(85, 389)
    &&& gamma_rounds_to_numerals(86, 383)
    &&& gamma_rounds_to_numerals(87, 378)
    &&& gamma_rounds_to_numerals(88, 373)
    &&& gamma_rounds_to_numerals(89, 367)
    &&& gamma_rounds_to_numerals(90, 362)
    &&& gamma_rounds_to_numerals(91, 356)
    &&& gamma_rounds_to_numerals(92, 351)
    &&& gamma_rounds_to_numerals(93, 346)
    &&& gamma_rounds_to_numerals(94, 341)
    &&& gamma_rounds_to_numerals(95, 336)
    &&& gamma_rounds_to_numerals(96, 330)
    &&& gamma_rounds_to_numerals(97, 325)
    &&& gamma_rounds_to_numerals(98, 320)
    &&& gamma_rounds_to_numerals(99, 315)
    &&& gamma_rounds_to_numerals(100, 310)
    &&& gamma_rounds_to_numerals(101, 306)
    &&& gamma_rounds_to_numerals(102, 301)
    &&& gamma_rounds_to_numerals(103, 296)
    &&& gamma_rounds_to_numerals(104, 291)
    &&& gamma_rounds_to_numerals(105, 286)
    &&& gamma_rounds_to_numerals(106, 282)
    &&& gamma_rounds_to_numerals(107, 277)
    &&& gamma_rounds_to_numerals(108, 273)
    &&& gamma_rounds_to_numerals(109, 268)
    &&& gamma_rounds_to_numerals(110, 263)
    &&& gamma_rounds_to_numerals(111, 259)
    &&& gamma_rounds_to_numerals(112, 255)
    &&& gamma_rounds_to_numerals(113, 250)
    &&& gamma_rounds_to_numerals(114, 246)
    &&& gamma_rounds_to_numerals(115, 242)
    &&& gamma_rounds_to_numerals(116, 237)
    &&& gamma_rounds_to_numerals(117, 233)
    &&& gamma_rounds_to_numerals(118, 229)
    &&& gamma_rounds_to_numerals(119, 225)
    &&& gamma_rounds_to_numerals(120, 221)
    &&& gamma_rounds_to_numerals(121, 217)
    &&& gamma_rounds_to_numerals(122, 213)
    &&& gamma_rounds_to_numerals(123, 209)
    &&& gamma_rounds_to_numerals(124, 205)
    &&& gamma_rounds_to_numerals(125, 201)
    &&& gamma_rounds_to_numerals(126, 197)
    &&& gamma_rounds_to_numerals(127, 193)
    &&& gamma_rounds_to_numerals(128, 189)
    &&& gamma_rounds_to_numerals(129, 186)
    &&& gamma_rounds_to_numerals(130, 182)
    &&& gamma_rounds_to_numerals(131, 178)
    &&& gamma_rounds_to_numerals(132, 175)
    &&& gamma_rounds_to_numerals(133, 171)
    &&& gamma_rounds_to_numerals(134, 168)
    &&& gamma_rounds_to_numerals(135, 164)
    &&& gamma_rounds_to_numerals(136, 161)
    &&& gamma_rounds_to_numerals(137, 157)
    &&& gamma_rounds_to_numerals(138, 154)
    &&& gamma_rounds_to_numerals(139, 150)
    &&& gamma_rounds_to_numerals(140, 147)
    &&& gamma_rounds_to_numerals(141, 144)
    &&& gamma_rounds_to_numerals(142, 141)
    &&& gamma_rounds_to_numerals(143, 138)
    &&& gamma_rounds_to_numerals(144, 134)
    &&& gamma_rounds_to_numerals(145, 131)
    &&& gamma_rounds_to_numerals(146, 128)
    &&& gamma_rounds_to_numerals(147, 125)
    &&& gamma_rounds_to_numerals(148, 122)
    &&& gamma_rounds_to_numerals(149, 119)
    &&& gamma_rounds_to_numerals(150, 116)
    &&& gamma_rounds_to_numerals(151, 114)
    &&& gamma_rounds_to_numerals(152, 111)
    &&& gamma_rounds_to_numerals(153, 108)
    &&& gamma_rounds_to_numerals(154, 105)
    &&& gamma_rounds_to_numerals(155, 103)
    &&& gamma_rounds_to_numerals(156, 100)
    &&& gamma_rounds_to_numerals(157, 97)
    &&& gamma_rounds_to_numerals(158, 95)
    &&& gamma_rounds_to_numerals(159, 92)
    &&& gamma_rounds_to_numerals(160, 90)
    &&& gamma_rounds_to_numerals(161, 87)
    &&& gamma_rounds_to_numerals(162, 85)
    &&& gamma_rounds_to_numerals(163, 82)
    &&& gamma_rounds_to_numerals(164, 80)
    &&& gamma_rounds_to_numerals(165, 78)
    &&& gamma_rounds_to_numerals(166, 75)
    &&& gamma_rounds_to_numerals(167, 73)
    &&& gamma_rounds_to_numerals(168, 71)
    &&& gamma_rounds_to_numerals(169, 69)
    &&& gamma_rounds_to_numerals(170, 67)
    &&& gamma_rounds_to_numerals(171, 64)
    &&& gamma_rounds_to_numerals(172, 62)
    &&& gamma_rounds_to_numerals(173, 60)
    &&& gamma_rounds_to_numerals(174, 58)
    &&& gamma_rounds_to_numerals(175, 56)
    &&& gamma_rounds_to_numerals(176, 54)
    &&& gamma_rounds_to_numerals(177, 53)
    &&& gamma_rounds_to_numerals(178, 51)
    &&& gamma_rounds_to_numerals(179, 49)
    &&& gamma_rounds_to_numerals(180, 47)
    &&& gamma_rounds_to_numerals(181, 45)
    &&& gamma_rounds_to_numerals(182, 44)
    &&& gamma_rounds_to_numerals(183, 42)
    &&& gamma_rounds_to_numerals(184, 40)
    &&& gamma_rounds_to_numerals(185, 39)
    &&& gamma_rounds_to_numerals(186, 37)
    &&& gamma_rounds_to_numerals(187, 36)
    &&& gamma_rounds_to_numerals(188, 34)
    &&& gamma_rounds_to_numerals(189, 33)
    &&& gamma_rounds_to_numerals(190, 31)
    &&& gamma_rounds_to_numerals(191, 30)
    &&& gamma_rounds_to_numerals(192, 29)
    &&& gamma_rounds_to_numerals(193, 27)
    &&& gamma_rounds_to_numerals(194, 26)
    &&& gamma_rounds_to_numerals(195, 25)
    &&& gamma_rounds_to_numerals(196, 23)
    &&& gamma_rounds_to_numerals(197, 22)
    &&& gamma_rounds_to_numerals(198, 21)
    &&& gamma_rounds_to_numerals(199, 20)
    &&& gamma_rounds_to_numerals(200, 19)
    &&& gamma_rounds_to_numerals(201, 18)
    &&& gamma_rounds_to_numerals(202, 17)
    &&& gamma_rounds_to_numerals(203, 16)
    &&& gamma_rounds_to_numerals(204, 15)
    &&& gamma_rounds_to_numerals(205, 14)
    &&& gamma_rounds_to_numerals(206, 13)
    &&& gamma_rounds_to_numerals(207, 12)
    &&& gamma_rounds_to_numerals(208, 11)
    &&& gamma_rounds_to_numerals(209, 11)
    &&& gamma_rounds_to_numerals(210, 10)
    &&& gamma_rounds_to_numerals(211, 9)
    &&& gamma_rounds_to_numerals(212, 8)
    &&& gamma_rounds_to_numerals(213, 8)
    &&& gamma_rounds_to_numerals(214, 7)
    &&& gamma_rounds_to_numerals(215, 7)
    &&& gamma_rounds_to_numerals(216, 6)
    &&& gamma_rounds_to_numerals(217, 5)
    &&& gamma_rounds_to_numerals(218, 5)
    &&& gamma_rounds_to_numerals(219, 4)
    &&& gamma_rounds_to_numerals(220, 4)
    &&& gamma_rounds_to_numerals(221, 3)
    &&& gamma_rounds_to_numerals(222, 3)
    &&& gamma_rounds_to_numerals(223, 3)
    &&& gamma_rounds_to_numerals(224, 2)
    &&& gamma_rounds_to_numerals(225, 2)
    &&& gamma_rounds_to_numerals(226, 2)
    &&& gamma_rounds_to_numerals(227, 1)
    &&& gamma_rounds_to_numerals(228, 1)
    &&& gamma_rounds_to_numerals(229, 1)
    &&& gamma_rounds_to_numerals(230, 1)
    &&& gamma_rounds_to_numerals(231, 1)
    &&& gamma_rounds_to_numerals(232, 0)
    &&& gamma_rounds_to_numerals(233, 0)
    &&& gamma_rounds_to_numerals(234, 0)
    &&& gamma_rounds_to_numerals(235, 0)
    &&& gamma_rounds_to_numerals(236, 0)
    &&& gamma_rounds_to_numerals(237, 0)
    &&& gamma_rounds_to_numerals(238, 0)
    &&& gamma_rounds_to_numerals(239, 0)
}

proof fn lemma_gamma_table_facts()
    by (nonlinear_arith)
    ensures
        gamma_table_facts(),
{
}

/// The whole table, checked entry by entry by unfolding the check along it.
#[verifier::rlimit(100)]
proof fn lemma_curve_checked()
    ensures
        fade_curve().len() == FADE_STEPS,
        curve_checked(fade_curve(), 0),
{
    reveal(fade_curve);
    lemma_gamma_table_facts();
    let c = fade_curve();
    // unfold the check in chunks of 40 entries, from the end
    reveal_with_fuel(curve_checked, 41);
    assert(curve_checked(c, 200));
    assert(curve_checked(c, 160));
    assert(curve_checked(c, 120));
    assert(curve_checked(c, 80));
    assert(curve_checked(c, 40));
    assert(curve_checked(c, 0));
}

/// Every entry of the table is the gamma curve rounded to the nearest duty.
pub proof fn lemma_fade_follows_gamma(step: int)
    requires
        0 <= step < FADE_STEPS,
    ensures
        gamma_rounds_to(step, fade_duty(step) as int),
{
    lemma_curve_checked();
    lemma_curve_checked_at(fade_curve(), 0, step);
    lemma_gamma_numerals(step, fade_duty(step) as int);
}

/// The fade starts fully lit, at the largest duty.
pub proof fn lemma_fade_starts_full()
    ensures
        fade_duty(0) == PWM_MAX_DUTY,
{
    reveal(fade_curve);
}

/// The last fade step is dark.
pub proof fn lemma_fade_ends_dark()
    ensures
        fade_duty(FADE_STEPS - 1) == 0,
{
    reveal(fade_curve);
}

/// The fade never brightens: a later step is never brighter than an earlier
/// one, also past the end of the table.
pub proof fn lemma_fade_monotone(i: int, j: int)
    requires
        0 <= i <= j,
    ensures
        fade_duty(i) >= fade_duty(j),
    decreases j - i,
{
    if i < j {
        lemma_fade_monotone(i, j - 1);
        if j < FADE_STEPS {
            lemma_curve_checked();
            lemma_curve_checked_at(fade_curve(), 0, j - 1);
        }
    }
}

/// Every duty of the fade is within the PWM range.
pub proof fn lemma_fade_in_range(step: int)
    ensures
        fade_duty(step) <= PWM_MAX_DUTY,
{
    lemma_fade_starts_full();
    if step >= 0 {
        lemma_fade_monotone(0, step);
    }
}

} // verus!
