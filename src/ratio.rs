use vstd::prelude::*;
use crate::text::{append, decimal, push_decimal, push_repeated, repeated};

verus! {

/// Cells of the gauge bar.
pub const BAR_LENGTH: usize = 40;

/// Two assets ordered so that the numerator's cap does not exceed the
/// denominator's; caps in whole USD.
pub struct CapRatio {
    pub numerator_asset: String,
    pub denominator_asset: String,
    pub numerator_cap: u64,
    pub denominator_cap: u64,
}

/// The first asset is the numerator exactly when its cap is the smaller; on a
/// tie the second asset is the numerator.
pub open spec fn first_is_numerator(cap_a: u64, cap_b: u64) -> bool {
    cap_a < cap_b
}

/// The numerator's cap.
pub open spec fn numerator_cap_of(cap_a: u64, cap_b: u64) -> u64 {
    if first_is_numerator(cap_a, cap_b) {
        cap_a
    } else {
        cap_b
    }
}

/// The denominator's cap.
pub open spec fn denominator_cap_of(cap_a: u64, cap_b: u64) -> u64 {
    if first_is_numerator(cap_a, cap_b) {
        cap_b
    } else {
        cap_a
    }
}

/// `q / d` rounded to the nearest integer, halves upwards.
pub open spec fn round_div(q: nat, d: nat) -> nat {
    q / d + if 2 * (q % d) >= d {
        1nat
    } else {
        0nat
    }
}

/// The percentage of the ratio `num / den`, truncated.
pub open spec fn truncated_percentage(num: nat, den: nat) -> nat {
    100 * num / den
}

/// Orders two assets by market cap.
pub fn order_pair(asset_a: String, cap_a: u64, asset_b: String, cap_b: u64) -> (r: CapRatio)
    ensures
        first_is_numerator(cap_a, cap_b) ==> r.numerator_asset == asset_a && r.denominator_asset
            == asset_b,
        !first_is_numerator(cap_a, cap_b) ==> r.numerator_asset == asset_b
            && r.denominator_asset == asset_a,
        r.numerator_cap == numerator_cap_of(cap_a, cap_b),
        r.denominator_cap == denominator_cap_of(cap_a, cap_b),
        0 < cap_a || 0 < cap_b ==> r.wf(),
{
    if cap_a < cap_b {
        CapRatio {
            numerator_asset: asset_a,
            denominator_asset: asset_b,
            numerator_cap: cap_a,
            denominator_cap: cap_b,
        }
    } else {
        CapRatio {
            numerator_asset: asset_b,
            denominator_asset: asset_a,
            numerator_cap: cap_b,
            denominator_cap: cap_a,
        }
    }
}

/// The truncated percentage `floor(100 * num / den)`.
pub fn percentage(num: u64, den: u64) -> (r: u64)
    requires
        0 < den,
        num <= den,
    ensures
        r == truncated_percentage(num as nat, den as nat),
        r <= 100,
{
    proof {
        assert(100 * num as int <= 100 * den as int);
        vstd::arithmetic::div_mod::lemma_div_is_ordered(100 * num as int, 100 * den as int, den as int);
        vstd::arithmetic::div_mod::lemma_div_by_multiple(100, den as int);
    }
    let q: u128 = 100 * num as u128;
    (q / den as u128) as u64
}

/// `round(scale * num / den)`, which lies in `[0, scale]`.
pub fn scaled_round(num: u64, den: u64, scale: u64) -> (r: u64)
    requires
        0 < den,
        num <= den,
    ensures
        r == round_div(scale as nat * num as nat, den as nat),
        r <= scale,
{
    proof {
        vstd::arithmetic::mul::lemma_mul_upper_bound(scale as int, u64::MAX as int, num as int, u64::MAX as int);
        assert(u64::MAX as int * u64::MAX as int <= u128::MAX) by (nonlinear_arith);
    }
    let q: u128 = scale as u128 * num as u128;
    let d: u128 = den as u128;
    let a: u128 = q / d;
    let b: u128 = q % d;
    proof {
        let qi = q as int;
        let di = d as int;
        vstd::arithmetic::div_mod::lemma_fundamental_div_mod(qi, di);
        assert(qi <= scale as int * di) by (nonlinear_arith)
            requires
                qi == scale as int * num as int,
                num as int <= di,
                scale >= 0,
        ;
        assert(a as int <= scale as int && (a as int == scale as int ==> b == 0)) by (nonlinear_arith)
            requires
                qi == di * (a as int) + b as int,
                0 <= b < di,
                qi <= scale as int * di,
                a >= 0,
        ;
    }
    if b >= d - b {
        (a + 1) as u64
    } else {
        a as u64
    }
}

/// Filled cells of a gauge of `total` cells for the ratio `num / den`.
pub fn gauge_filled_cells(num: u64, den: u64, total: usize) -> (r: usize)
    requires
        0 < den,
        num <= den,
    ensures
        r == round_div(total as nat * num as nat, den as nat),
        r <= total,
{
    scaled_round(num, den, total as u64) as usize
}

/// The escape sequences of a green foreground around `s`.
pub open spec fn green_text(s: Seq<char>) -> Seq<char> {
    "\x1b[32m"@ + s + "\x1b[0m"@
}

/// `s` holds no escape character.
pub open spec fn has_no_escape(s: Seq<char>) -> bool {
    forall|i: int| 0 <= i < s.len() ==> s[i] != '\x1b'
}

/// Relies on colored's `Colorize::green` and `ColoredString`'s `Display`: a
/// text without escape sequences comes back unchanged where colouring is off
/// (which the environment decides), else between the escape sequences of a
/// green foreground.
#[verifier::external_body]
fn paint_green(s: &String) -> (r: String)
    ensures
        has_no_escape(s@) ==> (r@ == s@ || r@ == green_text(s@)),
{
    colored::Colorize::green(s.as_str()).to_string()
}

/// The block that fills a gauge cell.
pub open spec fn block() -> char {
    '\u{2588}'
}

/// A gauge line: `[`, the filled part, `empty` spaces, `] `, the percentage, `%`.
pub open spec fn gauge_text(filled: Seq<char>, empty: nat, pct: nat) -> Seq<char> {
    "["@ + filled + repeated(' ', empty) + "] "@ + decimal(pct) + "%"@
}

/// The gauge line of the ratio `num / den` over `total_length` cells: the
/// filled cells are `round(total_length * num / den)` blocks, in green where
/// colouring is on, and the percentage is `round(100 * num / den)`.
pub fn create_ratio_gauge(num: u64, den: u64, total_length: usize) -> (r: String)
    requires
        0 < den,
        num <= den,
    ensures
        ({
            let f = round_div(total_length as nat * num as nat, den as nat);
            let pct = round_div(100 * num as nat, den as nat);
            &&& f <= total_length
            &&& (r@ == gauge_text(repeated(block(), f), (total_length - f) as nat, pct) || r@
                == gauge_text(green_text(repeated(block(), f)), (total_length - f) as nat, pct))
        }),
{
    let filled = gauge_filled_cells(num, den, total_length);
    let empty = total_length - filled;
    let mut blocks = String::new();
    push_repeated(&mut blocks, '\u{2588}', filled);
    assert(blocks@ =~= repeated(block(), filled as nat));
    let painted = paint_green(&blocks);
    let pct = scaled_round(num, den, 100);
    let mut line = String::new();
    append(&mut line, "[");
    append(&mut line, painted.as_str());
    push_repeated(&mut line, ' ', empty);
    append(&mut line, "] ");
    push_decimal(&mut line, pct);
    append(&mut line, "%");
    assert(line@ =~= gauge_text(painted@, empty as nat, pct as nat));
    line
}

/// The plain output: numerator asset, denominator asset and truncated
/// percentage, separated by single spaces.
pub open spec fn plain_text(num_asset: Seq<char>, den_asset: Seq<char>, pct: nat) -> Seq<char> {
    num_asset + " "@ + den_asset + " "@ + decimal(pct)
}

/// For positive caps the ratio of the ordered pair lies in `(0, 1]`: the
/// numerator's cap is positive and at most the denominator's.
pub proof fn lemma_ratio_in_unit_interval(cap_a: u64, cap_b: u64)
    requires
        0 < cap_a,
        0 < cap_b,
    ensures
        0 < numerator_cap_of(cap_a, cap_b),
        numerator_cap_of(cap_a, cap_b) <= denominator_cap_of(cap_a, cap_b),
{
}

/// Swapping the two assets keeps the ratio and the percentage. Where the caps
/// differ the same asset stays the numerator, so every output is the same;
/// on a tie the second asset is the numerator both times, so the labels swap.
pub proof fn lemma_swap_assets(cap_a: u64, cap_b: u64)
    requires
        0 < cap_a,
        0 < cap_b,
    ensures
        numerator_cap_of(cap_a, cap_b) == numerator_cap_of(cap_b, cap_a),
        denominator_cap_of(cap_a, cap_b) == denominator_cap_of(cap_b, cap_a),
        truncated_percentage(numerator_cap_of(cap_a, cap_b) as nat, denominator_cap_of(cap_a, cap_b) as nat)
            == truncated_percentage(
            numerator_cap_of(cap_b, cap_a) as nat,
            denominator_cap_of(cap_b, cap_a) as nat,
        ),
        cap_a != cap_b ==> first_is_numerator(cap_a, cap_b) == !first_is_numerator(cap_b, cap_a),
        cap_a == cap_b ==> !first_is_numerator(cap_a, cap_b) && !first_is_numerator(cap_b, cap_a),
{
}

impl CapRatio {
    /// The caps are ordered and the denominator's is positive.
    pub open spec fn wf(&self) -> bool {
        0 < self.denominator_cap && self.numerator_cap <= self.denominator_cap
    }

    /// The truncated percentage of the ratio.
    pub fn percentage(&self) -> (r: u64)
        requires
            self.wf(),
        ensures
            r == truncated_percentage(self.numerator_cap as nat, self.denominator_cap as nat),
            r <= 100,
    {
        percentage(self.numerator_cap, self.denominator_cap)
    }

    /// The plain output line.
    pub fn plain_line(&self) -> (r: String)
        requires
            self.wf(),
        ensures
            r@ == plain_text(
                self.numerator_asset@,
                self.denominator_asset@,
                truncated_percentage(self.numerator_cap as nat, self.denominator_cap as nat),
            ),
    {
        let pct = self.percentage();
        let mut line = String::new();
        append(&mut line, self.numerator_asset.as_str());
        append(&mut line, " ");
        append(&mut line, self.denominator_asset.as_str());
        append(&mut line, " ");
        push_decimal(&mut line, pct);
        assert(line@ =~= plain_text(self.numerator_asset@, self.denominator_asset@, pct as nat));
        line
    }

    /// The gauge line over `BAR_LENGTH` cells.
    pub fn gauge(&self) -> (r: String)
        requires
            self.wf(),
        ensures
            ({
                let f = round_div(BAR_LENGTH as nat * self.numerator_cap as nat, self.denominator_cap as nat);
                let pct = round_div(100 * self.numerator_cap as nat, self.denominator_cap as nat);
                &&& f <= BAR_LENGTH
                &&& (r@ == gauge_text(repeated(block(), f), (BAR_LENGTH - f) as nat, pct) || r@
                    == gauge_text(green_text(repeated(block(), f)), (BAR_LENGTH - f) as nat, pct))
            }),
    {
        create_ratio_gauge(self.numerator_cap, self.denominator_cap, BAR_LENGTH)
    }
}

} // verus!
