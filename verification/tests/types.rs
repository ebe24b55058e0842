use alc_calc::types::{match_category, str_eq, Category, Type};

#[test]
fn types_test_calc_ingred_weight() {
    let cat: Category = match_category("Hard");
    assert_eq!(cat, Category::Hard);
}

#[test]
fn test_hard_labels_classify_hard() {
    for label in ["Hard", "Whiskey", "Vodka", "Gin", "Rum", "Everclear", "GrainAlcohol"] {
        assert_eq!(match_category(label), Category::Hard);
    }
}

#[test]
fn test_liqueur_labels_classify_liqueur() {
    for label in ["Flavored", "Liqueur", "Baileys", "Schnapps", "Kahlua"] {
        assert_eq!(match_category(label), Category::Liqueur);
    }
}

#[test]
fn test_carbonated_labels_classify_carbonated() {
    for label in ["Carbonated", "Fermented", "Beer", "Wine", "MaltBeer", "Seltzer"] {
        assert_eq!(match_category(label), Category::Carbonated);
    }
}

#[test]
fn test_unknown_label_falls_back_to_hard() {
    assert_eq!(match_category("Mead"), Category::Hard);
    assert_eq!(match_category(""), Category::Hard);
    assert_eq!(match_category("whiskey"), Category::Hard);
    assert_eq!(match_category("Wine "), Category::Hard);
}

#[test]
fn test_labels_round_trip() {
    let all = [
        Type::Hard,
        Type::Whiskey,
        Type::Vodka,
        Type::Gin,
        Type::Rum,
        Type::Everclear,
        Type::GrainAlcohol,
        Type::Flavored,
        Type::Liqueur,
        Type::Baileys,
        Type::Schnapps,
        Type::Kahlua,
        Type::Carbonated,
        Type::Fermented,
        Type::Beer,
        Type::Wine,
        Type::MaltBeer,
        Type::Seltzer,
    ];
    for t in all {
        assert_eq!(Type::from_label(t.label()), Some(t));
    }
    assert_eq!(Type::from_label("Cider"), None);
}

#[test]
fn test_str_eq_matches_string_equality() {
    assert!(str_eq("Whiskey", "Whiskey"));
    assert!(!str_eq("Whiskey", "Whisky"));
    assert!(!str_eq("Whiskey", "whiskey"));
    assert!(str_eq("", ""));
    assert!(!str_eq("", "a"));
}
