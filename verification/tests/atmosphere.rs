use flightdyn::atmosphere::{
    layer, layer_for_height, layer_table, layers_for_heights, select_layer, Layer, PressureLaw,
    LAYER_COUNT, UNITS_PER_ONE,
};

fn kelvin(l: &Layer) -> f64 {
    l.base_temperature as f64 / UNITS_PER_ONE as f64
}

fn pascal(l: &Layer) -> f64 {
    l.base_pressure as f64 / UNITS_PER_ONE as f64
}

fn kelvin_per_metre(l: &Layer) -> f64 {
    l.lapse_rate as f64 / UNITS_PER_ONE as f64
}

/// Temperature, pressure, density and speed of sound at a geopotential height,
/// from the layer that the library selects.
fn conditions(h: f64) -> (f64, f64, f64, f64) {
    let r = 287.1;
    let gamma = 1.4;
    let g0 = 9.80665;
    let l = layer_for_height(h.floor() as i64);
    let h_k = l.base_height as f64;
    let t_k = kelvin(&l);
    let p_k = pascal(&l);
    let tg = kelvin_per_metre(&l);
    let t = t_k + tg * (h - h_k);
    let p = match l.pressure_law() {
        PressureLaw::Isothermal => p_k * f64::exp(g0 / r * (h_k - h) / t_k),
        PressureLaw::Gradient => p_k * f64::powf(t_k / t, g0 / r / tg),
    };
    (t, p, p / (r * t), f64::sqrt(gamma * r * t))
}

#[test]
fn table_has_eight_layers() {
    assert_eq!(LAYER_COUNT, 8);
    let table = layer_table();
    assert_eq!(table.len(), 8);
    for k in 0..8 {
        assert_eq!(Some(table[k]), layer(k));
    }
}

#[test]
fn table_base_heights() {
    let expected: [i64; 8] = [0, 11_000, 20_000, 32_000, 47_000, 51_000, 71_000, 84_852];
    let table = layer_table();
    for k in 0..8 {
        assert_eq!(table[k].base_height, expected[k]);
    }
}

#[test]
fn table_values_in_physical_units() {
    let h = [0.0, 11.0e3, 20.0e3, 32.0e3, 47.0e3, 51.0e3, 71.0e3, 84.852e3];
    let tg = [-6.5e-3, 0.0, 1.0e-3, 2.8e-3, 0.0, -2.8e-3, -2.0e-3, 0.0];
    let t = [288.15, 216.65, 216.65, 228.65, 270.65, 270.65, 214.65, 186.946];
    let p = [101325.0, 22632.0, 5474.9, 868.02, 110.91, 66.939, 3.9564, 0.3734];
    let table = layer_table();
    for k in 0..8 {
        assert_eq!(table[k].base_height as f64, h[k]);
        assert_eq!(kelvin_per_metre(&table[k]), tg[k]);
        assert_eq!(kelvin(&table[k]), t[k]);
        assert_eq!(pascal(&table[k]), p[k]);
    }
}

#[test]
fn layer_outside_the_table_is_none() {
    assert_eq!(layer(8), None);
    assert_eq!(layer(usize::MAX), None);
    assert!(layer(7).is_some());
}

#[test]
fn first_layer_is_the_troposphere() {
    assert_eq!(
        layer(0),
        Some(Layer {
            base_height: 0,
            lapse_rate: -65,
            base_temperature: 2_881_500,
            base_pressure: 1_013_250_000,
        })
    );
}

#[test]
fn select_at_each_base() {
    let bases: [i64; 8] = [0, 11_000, 20_000, 32_000, 47_000, 51_000, 71_000, 84_852];
    for k in 0..8 {
        assert_eq!(select_layer(bases[k]), k);
    }
}

#[test]
fn select_just_below_each_base() {
    let bases: [i64; 8] = [0, 11_000, 20_000, 32_000, 47_000, 51_000, 71_000, 84_852];
    assert_eq!(select_layer(bases[0] - 1), 0);
    for k in 1..8 {
        assert_eq!(select_layer(bases[k] - 1), k - 1);
    }
}

#[test]
fn select_inside_layers() {
    assert_eq!(select_layer(1_000), 0);
    assert_eq!(select_layer(15_000), 1);
    assert_eq!(select_layer(25_000), 2);
    assert_eq!(select_layer(40_000), 3);
    assert_eq!(select_layer(50_000), 4);
    assert_eq!(select_layer(60_000), 5);
    assert_eq!(select_layer(80_000), 6);
    assert_eq!(select_layer(90_000), 7);
}

#[test]
fn select_below_the_table_is_lowest_layer() {
    assert_eq!(select_layer(-1), 0);
    assert_eq!(select_layer(-5_000), 0);
    assert_eq!(select_layer(i64::MIN), 0);
}

#[test]
fn select_above_the_table_is_highest_layer() {
    assert_eq!(select_layer(84_852), 7);
    assert_eq!(select_layer(1_000_000), 7);
    assert_eq!(select_layer(i64::MAX), 7);
}

#[test]
fn select_never_goes_down_with_height() {
    let mut last = 0;
    let mut h: i64 = -2_000;
    while h <= 100_000 {
        let k = select_layer(h);
        assert!(k >= last);
        assert!(k < 8);
        last = k;
        h += 250;
    }
    assert_eq!(last, 7);
}

#[test]
fn layer_for_height_agrees_with_select() {
    for h in [-10i64, 0, 10_999, 11_000, 46_999, 51_000, 84_851, 84_852, 200_000] {
        assert_eq!(Some(layer_for_height(h)), layer(select_layer(h)));
    }
    assert_eq!(layer_for_height(12_000).base_temperature, 2_166_500);
}

#[test]
fn pressure_law_follows_the_gradient() {
    let expected = [
        PressureLaw::Gradient,
        PressureLaw::Isothermal,
        PressureLaw::Gradient,
        PressureLaw::Gradient,
        PressureLaw::Isothermal,
        PressureLaw::Gradient,
        PressureLaw::Gradient,
        PressureLaw::Isothermal,
    ];
    let table = layer_table();
    for k in 0..8 {
        assert_eq!(table[k].pressure_law(), expected[k]);
    }
    let made = Layer { base_height: 5, lapse_rate: 1, base_temperature: 1, base_pressure: 1 };
    assert_eq!(made.pressure_law(), PressureLaw::Gradient);
}

#[test]
fn temperature_joins_at_every_base() {
    let table = layer_table();
    for k in 0..7 {
        let rise = table[k + 1].base_height - table[k].base_height;
        assert_eq!(
            table[k].base_temperature + table[k].lapse_rate * rise,
            table[k + 1].base_temperature
        );
    }
}

#[test]
fn sea_level_conditions() {
    let (t, p, rho, a) = conditions(0.0);
    assert_eq!(t, 288.15);
    assert_eq!(p, 101325.0);
    assert!((rho - 1.225).abs() < 1.0e-3);
    assert!((a - 340.3).abs() < 0.1);
}

#[test]
fn conditions_in_an_isothermal_layer() {
    let (t, p, _, _) = conditions(11_000.0);
    assert_eq!(t, 216.65);
    assert_eq!(p, 22632.0);
    let (t, p, _, _) = conditions(15_000.0);
    assert_eq!(t, 216.65);
    let expected = 22632.0 * f64::exp(9.80665 / 287.1 * (11_000.0 - 15_000.0) / 216.65);
    assert_eq!(p, expected);
}

#[test]
fn fractional_heights_round_down() {
    let (t, _, _, _) = conditions(10_999.5);
    assert_eq!(t, 288.15 + -6.5e-3 * 10_999.5);
    let (t, _, _, _) = conditions(-0.5);
    assert_eq!(t, 288.15 + -6.5e-3 * -0.5);
}

#[test]
fn layers_for_heights_keeps_length_and_order() {
    let heights: Vec<i64> = vec![90_000, -1, 11_000, 10_999, 50_000, 11_000];
    let found = layers_for_heights(&heights);
    assert_eq!(found.len(), heights.len());
    for i in 0..heights.len() {
        assert_eq!(found[i], layer_for_height(heights[i]));
    }
    let bases: Vec<i64> = found.iter().map(|l| l.base_height).collect();
    assert_eq!(bases, vec![84_852i64, 0, 11_000, 0, 47_000, 11_000]);
}

#[test]
fn layers_for_no_heights() {
    assert!(layers_for_heights(&[]).is_empty());
}
