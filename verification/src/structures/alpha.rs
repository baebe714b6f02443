//! The alpha channel as a decimal fraction.
//!
//! The fraction `alpha / 255` is written the way a single-precision number
//! prints: the number nearest to the fraction, with the fewest digits that
//! still tell it from its neighbours. Those digits are kept here as a table of
//! whole numbers, so that no arithmetic on fractions is needed.

use vstd::prelude::*;
use crate::text::digit_char;

verus! {

/// For each alpha value the printed fraction, in billionths.
pub const ALPHA_BILLIONTHS: [u32; 256] = [
    0, 3921569, 7843138, 11764706, 15686275, 19607844,
    23529412, 27450980, 31372550, 35294120, 39215688, 43137256,
    47058824, 50980393, 54901960, 58823530, 62745100, 66666670,
    70588240, 74509810, 78431375, 82352940, 86274510, 90196080,
    94117650, 98039220, 101960786, 105882354, 109803920, 113725490,
    117647060, 121568630, 125490200, 129411770, 133333340, 137254910,
    141176480, 145098050, 149019610, 152941180, 156862750, 160784320,
    164705890, 168627460, 172549020, 176470600, 180392160, 184313730,
    188235300, 192156870, 196078430, 200000000, 203921570, 207843140,
    211764710, 215686280, 219607840, 223529410, 227450980, 231372550,
    235294120, 239215690, 243137260, 247058820, 250980400, 254901980,
    258823540, 262745100, 266666680, 270588250, 274509820, 278431400,
    282352950, 286274520, 290196100, 294117660, 298039230, 301960800,
    305882360, 309803930, 313725500, 317647070, 321568640, 325490200,
    329411770, 333333340, 337254900, 341176480, 345098050, 349019620,
    352941200, 356862750, 360784320, 364705900, 368627460, 372549030,
    376470600, 380392160, 384313730, 388235300, 392156870, 396078440,
    400000000, 403921570, 407843140, 411764700, 415686280, 419607850,
    423529420, 427450980, 431372550, 435294120, 439215700, 443137260,
    447058830, 450980400, 454901960, 458823530, 462745100, 466666670,
    470588240, 474509800, 478431370, 482352940, 486274500, 490196080,
    494117650, 498039220, 501960800, 505882400, 509803950, 513725500,
    517647100, 521568660, 525490200, 529411800, 533333360, 537254900,
    541176500, 545098070, 549019630, 552941200, 556862800, 560784340,
    564705900, 568627500, 572549050, 576470600, 580392200, 584313750,
    588235300, 592156900, 596078460, 600000000, 603921600, 607843160,
    611764700, 615686300, 619607870, 623529430, 627451000, 631372600,
    635294140, 639215700, 643137300, 647058840, 650980400, 654902000,
    658823550, 662745100, 666666700, 670588250, 674509800, 678431400,
    682352960, 686274500, 690196100, 694117670, 698039230, 701960800,
    705882400, 709803940, 713725500, 717647100, 721568640, 725490200,
    729411800, 733333350, 737254900, 741176500, 745098050, 749019600,
    752941200, 756862760, 760784300, 764705900, 768627460, 772549030,
    776470600, 780392170, 784313740, 788235300, 792156900, 796078440,
    800000000, 803921600, 807843150, 811764700, 815686300, 819607850,
    823529400, 827451000, 831372560, 835294100, 839215700, 843137260,
    847058830, 850980400, 854901970, 858823540, 862745100, 866666700,
    870588240, 874509800, 878431400, 882352950, 886274500, 890196100,
    894117650, 898039200, 901960800, 905882360, 909803900, 913725500,
    917647060, 921568630, 925490200, 929411770, 933333340, 937254900,
    941176500, 945098040, 949019600, 952941200, 956862750, 960784300,
    964705900, 968627450, 972549000, 976470600, 980392160, 984313700,
    988235300, 992156860, 996078430, 1000000000,
];

/// The printed fraction of an alpha value, in billionths.
pub open spec fn alpha_billionths(a: u8) -> nat {
    ALPHA_BILLIONTHS[a as int] as nat
}

/// `t` written with exactly `places` decimal digits, the lowest last.
pub open spec fn padded(t: nat, places: nat) -> Seq<char>
    decreases places,
{
    if places == 0 {
        Seq::<char>::empty()
    } else {
        padded(t / 10, (places - 1) as nat).push(digit_char((t % 10) as int))
    }
}

/// The digits behind the point of `t / 10^places`, without zeros at the end.
pub open spec fn fraction_digits(t: nat, places: nat) -> Seq<char>
    decreases places,
{
    if places > 0 && t % 10 == 0 {
        fraction_digits(t / 10, (places - 1) as nat)
    } else {
        padded(t, places)
    }
}

/// The text of an alpha value as a fraction of full opacity: `0`, `1`, or
/// `0.` and the digits of the printed fraction.
pub open spec fn alpha_text(a: u8) -> Seq<char> {
    let t = alpha_billionths(a);
    if t >= 1_000_000_000 {
        seq!['1']
    } else if t == 0 {
        seq!['0']
    } else {
        seq!['0', '.'] + fraction_digits(t, 9)
    }
}

/// Appends `t` with exactly `places` digits.
fn push_padded(out: &mut String, t: u32, places: u8)
    ensures
        final(out)@ == old(out)@ + padded(t as nat, places as nat),
    decreases places,
{
    if places > 0 {
        push_padded(out, t / 10, places - 1);
        out.push((48 + (t % 10) as u8) as char);
    }
}

/// Appends the digits behind the point of `t / 10^places`.
fn push_fraction(out: &mut String, t: u32, places: u8)
    ensures
        final(out)@ == old(out)@ + fraction_digits(t as nat, places as nat),
    decreases places,
{
    if places > 0 && t % 10 == 0 {
        push_fraction(out, t / 10, places - 1);
    } else {
        push_padded(out, t, places);
    }
}

/// Writes an alpha value as a fraction of full opacity.
pub fn write_alpha(a: u8) -> (out: String)
    ensures
        out@ == alpha_text(a),
{
    let t: u32 = ALPHA_BILLIONTHS[a as usize];
    let mut out = String::new();
    if t >= 1_000_000_000 {
        out.push('1');
    } else if t == 0 {
        out.push('0');
    } else {
        out.push('0');
        out.push('.');
        push_fraction(&mut out, t, 9);
    }
    out
}

/// The printed fraction is 0 for a clear and 1 for an opaque color, and
/// differs from `a / 255` by less than a ten-millionth.
pub proof fn lemma_alpha_fraction_close(a: u8)
    ensures
        alpha_billionths(0) == 0,
        alpha_billionths(255) == 1_000_000_000,
        -14000 <= alpha_billionths(a) * 255 - a * 1_000_000_000 <= 14000,
{
}

/// A higher alpha value has a higher printed fraction.
pub proof fn lemma_alpha_fraction_rises(a: u8, b: u8)
    requires
        a < b,
    ensures
        alpha_billionths(a) < alpha_billionths(b),
{
    lemma_alpha_fraction_close(a);
    lemma_alpha_fraction_close(b);
}

} // verus!
