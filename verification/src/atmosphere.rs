//! The layer table of the standard atmosphere and the choice of a layer.
//!
//! All quantities are integers, so the table is exact:
//! heights are whole metres of geopotential height, temperatures count
//! 1/10000 K, temperature gradients count 1/10000 K per metre and pressures
//! count 1/10000 Pa.

use crate::elementwise::map_each;
use vstd::prelude::*;

verus! {

/// The number of layers in the table.
pub const LAYER_COUNT: usize = 8;

/// How many table units make one kelvin, one kelvin per metre or one pascal.
pub const UNITS_PER_ONE: i64 = 10_000;

/// One layer of the standard atmosphere.
#[derive(Clone, Copy, Debug, PartialEq, Eq, Structural)]
pub struct Layer {
    /// Geopotential height of the layer's base, in metres.
    pub base_height: i64,
    /// Temperature gradient within the layer, in 1/10000 K per metre.
    pub lapse_rate: i64,
    /// Temperature at the layer's base, in 1/10000 K.
    pub base_temperature: i64,
    /// Pressure at the layer's base, in 1/10000 Pa.
    pub base_pressure: i64,
}

/// The law by which pressure varies with height inside a layer.
#[derive(Clone, Copy, Debug, PartialEq, Eq, Structural)]
pub enum PressureLaw {
    /// Constant temperature: pressure falls exponentially with height.
    Isothermal,
    /// Linear temperature: pressure is a power of the temperature ratio.
    Gradient,
}

/// Layer `k` of the table, counted from the ground.
pub open spec fn standard_layer(k: int) -> Layer {
    if k <= 0 {
        Layer {
            base_height: 0,
            lapse_rate: (-65) as i64,
            base_temperature: 2_881_500,
            base_pressure: 1_013_250_000,
        }
    } else if k == 1 {
        Layer {
            base_height: 11_000,
            lapse_rate: 0,
            base_temperature: 2_166_500,
            base_pressure: 226_320_000,
        }
    } else if k == 2 {
        Layer {
            base_height: 20_000,
            lapse_rate: 10,
            base_temperature: 2_166_500,
            base_pressure: 54_749_000,
        }
    } else if k == 3 {
        Layer {
            base_height: 32_000,
            lapse_rate: 28,
            base_temperature: 2_286_500,
            base_pressure: 8_680_200,
        }
    } else if k == 4 {
        Layer {
            base_height: 47_000,
            lapse_rate: 0,
            base_temperature: 2_706_500,
            base_pressure: 1_109_100,
        }
    } else if k == 5 {
        Layer {
            base_height: 51_000,
            lapse_rate: (-28) as i64,
            base_temperature: 2_706_500,
            base_pressure: 669_390,
        }
    } else if k == 6 {
        Layer {
            base_height: 71_000,
            lapse_rate: (-20) as i64,
            base_temperature: 2_146_500,
            base_pressure: 39_564,
        }
    } else {
        Layer {
            base_height: 84_852,
            lapse_rate: 0,
            base_temperature: 1_869_460,
            base_pressure: 3_734,
        }
    }
}

/// Base height of layer `k`, in metres.
pub open spec fn base_height_of(k: int) -> int {
    standard_layer(k).base_height as int
}

/// The layer that a geopotential height of `h` metres falls into: the last
/// layer whose base is not above `h`, and the lowest layer for any height
/// below the table.
pub open spec fn layer_index(h: int) -> int {
    if h < base_height_of(1) {
        0
    } else if h < base_height_of(2) {
        1
    } else if h < base_height_of(3) {
        2
    } else if h < base_height_of(4) {
        3
    } else if h < base_height_of(5) {
        4
    } else if h < base_height_of(6) {
        5
    } else if h < base_height_of(7) {
        6
    } else {
        7
    }
}

/// Whether layer `k` is the one that holds height `h`: its base is at or
/// below `h` (the lowest layer also takes everything beneath it) and the next
/// base, if there is one, is above `h`.
pub open spec fn holds_height(k: int, h: int) -> bool {
    &&& 0 <= k < LAYER_COUNT as int
    &&& (k == 0 || base_height_of(k) <= h)
    &&& (k == LAYER_COUNT as int - 1 || h < base_height_of(k + 1))
}

/// The pressure law of a layer with the given temperature gradient.
pub open spec fn law_of(lapse_rate: int) -> PressureLaw {
    if lapse_rate == 0 {
        PressureLaw::Isothermal
    } else {
        PressureLaw::Gradient
    }
}

impl Layer {
    /// The law by which pressure varies inside this layer: isothermal exactly
    /// when the temperature gradient is zero.
    pub fn pressure_law(&self) -> (law: PressureLaw)
        ensures
            law == law_of(self.lapse_rate as int),
            (law == PressureLaw::Isothermal) <==> self.lapse_rate == 0,
    {
        if self.lapse_rate == 0 {
            PressureLaw::Isothermal
        } else {
            PressureLaw::Gradient
        }
    }
}

/// Layer `k` of the table, for an index that the table has.
fn layer_at(k: usize) -> (found: Layer)
    requires
        k < LAYER_COUNT,
    ensures
        found == standard_layer(k as int),
{
    match k {
        0 => Layer {
            base_height: 0,
            lapse_rate: -65,
            base_temperature: 2_881_500,
            base_pressure: 1_013_250_000,
        },
        1 => Layer {
            base_height: 11_000,
            lapse_rate: 0,
            base_temperature: 2_166_500,
            base_pressure: 226_320_000,
        },
        2 => Layer {
            base_height: 20_000,
            lapse_rate: 10,
            base_temperature: 2_166_500,
            base_pressure: 54_749_000,
        },
        3 => Layer {
            base_height: 32_000,
            lapse_rate: 28,
            base_temperature: 2_286_500,
            base_pressure: 8_680_200,
        },
        4 => Layer {
            base_height: 47_000,
            lapse_rate: 0,
            base_temperature: 2_706_500,
            base_pressure: 1_109_100,
        },
        5 => Layer {
            base_height: 51_000,
            lapse_rate: -28,
            base_temperature: 2_706_500,
            base_pressure: 669_390,
        },
        6 => Layer {
            base_height: 71_000,
            lapse_rate: -20,
            base_temperature: 2_146_500,
            base_pressure: 39_564,
        },
        _ => Layer {
            base_height: 84_852,
            lapse_rate: 0,
            base_temperature: 1_869_460,
            base_pressure: 3_734,
        },
    }
}

/// Layer `k` of the table, or `None` where the table has no such layer.
pub fn layer(k: usize) -> (found: Option<Layer>)
    ensures
        k < LAYER_COUNT ==> found == Some(standard_layer(k as int)),
        k >= LAYER_COUNT ==> found.is_none(),
{
    if k < LAYER_COUNT {
        Some(layer_at(k))
    } else {
        None
    }
}

/// The whole table, from the ground up.
pub fn layer_table() -> (table: Vec<Layer>)
    ensures
        table.len() == LAYER_COUNT,
        forall|k: int| 0 <= k < LAYER_COUNT as int ==> #[trigger] table[k] == standard_layer(k),
{
    let mut table: Vec<Layer> = Vec::new();
    let mut k: usize = 0;
    while k < LAYER_COUNT
        invariant
            k <= LAYER_COUNT,
            table.len() == k,
            forall|j: int| 0 <= j < k as int ==> #[trigger] table[j] == standard_layer(j),
        decreases LAYER_COUNT - k,
    {
        table.push(layer_at(k));
        k += 1;
    }
    table
}

/// Index of the layer that holds a geopotential height of `height` metres.
///
/// Heights below the table resolve to the lowest layer and heights at or
/// above the last base to the highest, so every height has its layer. A
/// height with a fraction is given by its whole part, rounded down.
pub fn select_layer(height: i64) -> (k: usize)
    ensures
        k as int == layer_index(height as int),
        holds_height(k as int, height as int),
{
    let mut k: usize = 0;
    while k + 1 < LAYER_COUNT
        invariant
            k < LAYER_COUNT,
            k == 0 || base_height_of(k as int) <= height,
        ensures
            k < LAYER_COUNT,
            holds_height(k as int, height as int),
        decreases LAYER_COUNT - k,
    {
        if height < layer_at(k + 1).base_height {
            break;
        }
        k += 1;
    }
    proof {
        holding_layer_is_unique(k as int, height as int);
    }
    k
}

/// The layer that holds a geopotential height of `height` metres.
pub fn layer_for_height(height: i64) -> (found: Layer)
    ensures
        found == standard_layer(layer_index(height as int)),
{
    layer_at(select_layer(height))
}

/// The layers that hold each of a sequence of geopotential heights, in metres.
///
/// The result has one layer for each height, in the order of the heights, and
/// each is the layer that `layer_for_height` gives for that height alone.
pub fn layers_for_heights(heights: &[i64]) -> (found: Vec<Layer>)
    ensures
        found@.len() == heights@.len(),
        forall|i: int|
            0 <= i < heights@.len() ==> #[trigger] found@[i] == standard_layer(
                layer_index(heights@[i] as int),
            ),
{
    map_each(heights, layer_for_height)
}

/// The bases of the table rise strictly from one layer to the next.
pub proof fn bases_rise(j: int, k: int)
    requires
        0 <= j < k < LAYER_COUNT as int,
    ensures
        base_height_of(j) < base_height_of(k),
{
}

/// Exactly one layer holds a given height, and it is `layer_index` of it.
pub proof fn holding_layer_is_unique(k: int, h: int)
    ensures
        holds_height(k, h) <==> k == layer_index(h),
{
}

/// A height with a fraction lies below a whole-metre base exactly when its
/// whole part does: for the height `num / den` with a positive `den`, the
/// quotient rounded down decides on which side of `base` the height lies.
/// Every base of the table is a whole number of metres, so a height falls
/// into the layer of its whole part.
pub proof fn whole_part_decides(num: int, den: int, base: int)
    requires
        den > 0,
    ensures
        num < base * den <==> num / den < base,
{
    let q = num / den;
    let r = num % den;
    assert(num == den * q + r && 0 <= r < den) by {
        vstd::arithmetic::div_mod::lemma_fundamental_div_mod(num, den);
        vstd::arithmetic::div_mod::lemma_mod_bound(num, den);
    }
    if q < base {
        assert(den * q + den <= base * den) by (nonlinear_arith)
            requires
                q + 1 <= base,
                den > 0,
        ;
    } else {
        assert(base * den <= den * q) by (nonlinear_arith)
            requires
                base <= q,
                den > 0,
        ;
    }
}

/// A greater height never falls into a lower layer.
pub proof fn layer_index_is_monotone(h1: int, h2: int)
    requires
        h1 <= h2,
    ensures
        layer_index(h1) <= layer_index(h2),
{
}

/// Temperature is continuous across the table: following a layer's gradient
/// from its base up to the next base gives the next layer's base temperature.
pub proof fn temperature_is_continuous(k: int)
    requires
        0 <= k < LAYER_COUNT as int - 1,
    ensures
        standard_layer(k).base_temperature + standard_layer(k).lapse_rate * (base_height_of(k + 1)
            - base_height_of(k)) == standard_layer(k + 1).base_temperature,
{
    let rate = standard_layer(k).lapse_rate as int;
    let rise = base_height_of(k + 1) - base_height_of(k);
    if k == 0 {
        assert(rate * rise == -65 * 11_000);
    } else if k == 1 {
        assert(rate * rise == 0 * 9_000);
    } else if k == 2 {
        assert(rate * rise == 10 * 12_000);
    } else if k == 3 {
        assert(rate * rise == 28 * 15_000);
    } else if k == 4 {
        assert(rate * rise == 0 * 4_000);
    } else if k == 5 {
        assert(rate * rise == -28 * 20_000);
    } else {
        assert(rate * rise == -20 * 13_852);
    }
}

} // verus!
