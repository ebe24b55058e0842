use alc_calc::calc::{
    calc_ingred_weight, calc_scalar, calc_volume, calc_weights, round_to_place, CalcError,
    IngredientData,
};
use alc_calc::fixed::Fixed;

fn ingredient(label: &str, percentage_milli: u64, parts_milli: u64) -> IngredientData {
    IngredientData {
        alc_type: label.to_string(),
        percentage: Fixed::from_milli(percentage_milli),
        parts: Fixed::from_milli(parts_milli),
        ..Default::default()
    }
}

#[test]
fn test_round_to_place() {
    let num = round_to_place(Fixed::from_milli(42281), 1);
    assert_eq!(num, Fixed::from_milli(42300));
}

#[test]
fn calc_test_calc_ingred_weight() {
    let (num, weight) = calc_ingred_weight("Hard", Fixed::from_int(40));
    assert_eq!(num, 3);
    // The exact per-serving weight is 42.2806...; to the nearest thousandth
    // of a gram it is 42.281.
    assert_eq!(round_to_place(weight, 3), Fixed::from_milli(42281));
}

#[test]
fn test_calc_volume() {
    assert_eq!(calc_volume(1, Fixed::from_int(40)), Fixed::from_milli(44355));
}

#[test]
fn test_calc_scalar() {
    let num_drinks = Fixed::from_int(2);
    let mut data: Vec<IngredientData> = Vec::new();
    (0..2).for_each(|_| {
        data.push(IngredientData {
            weight: Fixed::from_int(50),
            intermediate_weight: Fixed::from_int(50),
            ..Default::default()
        })
    });

    let result = calc_scalar(&data, num_drinks);
    assert_eq!(result, Fixed::from_int(1));
}

#[test]
fn test_calc_weights_single_ingred() {
    let mut data = vec![ingredient("Kahlua", 20_000, 0)];
    let result = calc_weights(&mut data, Fixed::from_int(1));
    assert!(result.is_ok());
    assert_eq!(data[0].weight, Fixed::from_milli(97_900));
}

#[test]
fn test_calc_weights_multiple_ingreds() {
    let mut data = vec![
        ingredient("Whiskey", 40_000, 1_500),
        ingredient("Wine", 16_500, 1_000),
    ];
    let result = calc_weights(&mut data, Fixed::from_int(2));
    assert!(result.is_ok());
    assert_eq!(data[0].weight, Fixed::from_milli(66_300));
    assert_eq!(data[1].weight, Fixed::from_milli(46_900));
}

#[test]
fn test_single_carbonated_determinism() {
    let mut data = vec![ingredient("Wine", 16_500, 0)];
    calc_weights(&mut data, Fixed::from_int(1)).unwrap();
    assert_eq!(data[0].weight, Fixed::from_milli(108_600));
    let mut data = vec![ingredient("Beer", 5_000, 0)];
    calc_weights(&mut data, Fixed::from_int(1)).unwrap();
    // One drink of 5 percent beer weighs about one 12 oz serving.
    assert_eq!(data[0].weight, Fixed::from_milli(356_800));
}

#[test]
fn test_fractional_percentage_uses_reciprocal() {
    // Below one percent the power is computed through the logarithm of the
    // reciprocal; 3062.9 * 0.5^(-1.161) is 6849.02...
    let mut data = vec![ingredient("Hard", 500, 0)];
    calc_weights(&mut data, Fixed::from_int(1)).unwrap();
    assert_eq!(data[0].weight, Fixed::from_milli(6_849_000));
    let mut data = vec![ingredient("Beer", 500, 0)];
    calc_weights(&mut data, Fixed::from_int(1)).unwrap();
    // 1772.6 * 0.5^(-0.996) is 3535.38...
    assert_eq!(data[0].weight, Fixed::from_milli(3_535_400));
}

#[test]
fn test_single_hard_determinism() {
    let mut data = vec![ingredient("Hard", 40_000, 0)];
    calc_weights(&mut data, Fixed::from_int(1)).unwrap();
    assert_eq!(data[0].weight, Fixed::from_milli(42_300));
}

#[test]
fn test_single_scaling_linearity() {
    let mut one = vec![ingredient("Kahlua", 20_000, 0)];
    calc_weights(&mut one, Fixed::from_int(1)).unwrap();
    let mut two = vec![ingredient("Kahlua", 20_000, 0)];
    calc_weights(&mut two, Fixed::from_int(2)).unwrap();
    assert_eq!(one[0].weight, Fixed::from_milli(97_900));
    // Doubling the drink count doubles the weight up to the final rounding:
    // the doubled pour weighs 195.7 g, within a tenth of 2 * 97.9.
    assert_eq!(two[0].weight, Fixed::from_milli(195_700));
    let doubled = 2 * one[0].weight.raw;
    let diff = doubled.abs_diff(two[0].weight.raw);
    assert!(diff <= 100_000_000);
}

#[test]
fn test_reference_ingredient_asymmetry() {
    let mut forward = vec![
        ingredient("Whiskey", 40_000, 1_500),
        ingredient("Wine", 16_500, 1_000),
    ];
    calc_weights(&mut forward, Fixed::from_int(2)).unwrap();
    let mut swapped = vec![
        ingredient("Wine", 16_500, 1_000),
        ingredient("Whiskey", 40_000, 1_500),
    ];
    calc_weights(&mut swapped, Fixed::from_int(2)).unwrap();
    // The first ingredient is the scaling reference, so swapping the order
    // changes the outcome at both positions.
    assert_ne!(forward[0].weight, swapped[0].weight);
    assert_ne!(forward[1].weight, swapped[1].weight);
}

#[test]
fn test_round_trip_idempotence() {
    let mut data = vec![
        ingredient("Whiskey", 40_000, 1_500),
        ingredient("Wine", 16_500, 1_000),
    ];
    calc_weights(&mut data, Fixed::from_int(2)).unwrap();
    let first = (data[0].weight, data[1].weight);
    calc_weights(&mut data, Fixed::from_int(2)).unwrap();
    let second = (data[0].weight, data[1].weight);
    assert_eq!(first, second);
}

#[test]
fn test_empty_batch_fails() {
    for drinks in [0u64, 1, 5, 1000] {
        let mut data: Vec<IngredientData> = Vec::new();
        let result = calc_weights(&mut data, Fixed::from_int(drinks));
        assert_eq!(result, Err(CalcError::EmptyInput));
        assert!(data.is_empty());
    }
}

#[test]
fn test_zero_percentage_rejected() {
    let mut data = vec![ingredient("Whiskey", 0, 1_000)];
    let result = calc_weights(&mut data, Fixed::from_int(1));
    assert_eq!(result, Err(CalcError::InvalidInput));
    assert_eq!(data[0].weight, Fixed::from_raw(0));
}

#[test]
fn test_full_percentage_accepted() {
    // Exactly one hundred percent is the edge of the supported range:
    // 3062.9 * 100^(-1.161) is 14.59...
    let mut data = vec![ingredient("Everclear", 100_000, 0)];
    let result = calc_weights(&mut data, Fixed::from_int(1));
    assert!(result.is_ok());
    assert_eq!(data[0].weight, Fixed::from_milli(14_600));
}

#[test]
fn test_overlarge_percentage_rejected() {
    let mut data = vec![ingredient("Whiskey", 100_001, 1_000)];
    let result = calc_weights(&mut data, Fixed::from_int(1));
    assert_eq!(result, Err(CalcError::InvalidInput));
}

#[test]
fn test_zero_parts_rejected_in_multi() {
    let mut data = vec![
        ingredient("Whiskey", 40_000, 0),
        ingredient("Wine", 16_500, 1_000),
    ];
    let result = calc_weights(&mut data, Fixed::from_int(1));
    assert_eq!(result, Err(CalcError::InvalidInput));
    assert_eq!(data[0].weight, Fixed::from_raw(0));
    assert_eq!(data[1].weight, Fixed::from_raw(0));
}

#[test]
fn test_zero_parts_ignored_in_single() {
    let mut data = vec![ingredient("Kahlua", 20_000, 0)];
    let result = calc_weights(&mut data, Fixed::from_int(1));
    assert!(result.is_ok());
}

#[test]
fn test_zero_drinks_rejected() {
    let mut data = vec![ingredient("Kahlua", 20_000, 0)];
    let result = calc_weights(&mut data, Fixed::from_raw(0));
    assert_eq!(result, Err(CalcError::InvalidInput));
}

#[test]
fn test_weights_have_one_decimal() {
    let mut data = vec![
        ingredient("Gin", 37_500, 2_000),
        ingredient("Seltzer", 4_500, 3_000),
        ingredient("Baileys", 17_000, 1_000),
    ];
    calc_weights(&mut data, Fixed::from_int(3)).unwrap();
    for item in &data {
        assert_eq!(item.weight.raw % 100_000_000, 0);
        assert!(item.weight.raw > 0);
    }
}

#[test]
fn test_round_to_zero_places() {
    assert_eq!(round_to_place(Fixed::from_milli(42_500), 0), Fixed::from_int(43));
    assert_eq!(round_to_place(Fixed::from_milli(42_499), 0), Fixed::from_int(42));
}
