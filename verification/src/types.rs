//! Ingredient types and their physical categories.
//!
//! Every recognized ingredient-type label maps to exactly one of three
//! categories, which selects the regression formula and the serving-volume
//! convention that the weight engine applies.  An unrecognized label falls
//! back to [`Type::Whiskey`], and therefore to [`Category::Hard`]: the
//! classifier is total and never fails.

use vstd::prelude::*;

verus! {

/// The recognized ingredient-type labels.
#[derive(Clone, Copy, Debug, PartialEq, Eq, Structural)]
pub enum Type {
    Hard,
    Whiskey,
    Vodka,
    Gin,
    Rum,
    Everclear,
    GrainAlcohol,
    Flavored,
    Liqueur,
    Baileys,
    Schnapps,
    Kahlua,
    Carbonated,
    Fermented,
    Beer,
    Wine,
    MaltBeer,
    Seltzer,
}

/// The three physical categories an ingredient can fall in.
#[derive(Clone, Copy, Debug, PartialEq, Eq, Structural)]
pub enum Category {
    Carbonated,
    Liqueur,
    Hard,
}

/// The category each ingredient type belongs to.
pub open spec fn category_of(t: Type) -> Category {
    match t {
        Type::Hard => Category::Hard,
        Type::Whiskey => Category::Hard,
        Type::Vodka => Category::Hard,
        Type::Gin => Category::Hard,
        Type::Rum => Category::Hard,
        Type::Everclear => Category::Hard,
        Type::GrainAlcohol => Category::Hard,
        Type::Flavored => Category::Liqueur,
        Type::Liqueur => Category::Liqueur,
        Type::Baileys => Category::Liqueur,
        Type::Schnapps => Category::Liqueur,
        Type::Kahlua => Category::Liqueur,
        Type::Carbonated => Category::Carbonated,
        Type::Fermented => Category::Carbonated,
        Type::Beer => Category::Carbonated,
        Type::Wine => Category::Carbonated,
        Type::MaltBeer => Category::Carbonated,
        Type::Seltzer => Category::Carbonated,
    }
}

/// The label naming each ingredient type.
pub open spec fn label_of(t: Type) -> Seq<char> {
    match t {
        Type::Hard => "Hard"@,
        Type::Whiskey => "Whiskey"@,
        Type::Vodka => "Vodka"@,
        Type::Gin => "Gin"@,
        Type::Rum => "Rum"@,
        Type::Everclear => "Everclear"@,
        Type::GrainAlcohol => "GrainAlcohol"@,
        Type::Flavored => "Flavored"@,
        Type::Liqueur => "Liqueur"@,
        Type::Baileys => "Baileys"@,
        Type::Schnapps => "Schnapps"@,
        Type::Kahlua => "Kahlua"@,
        Type::Carbonated => "Carbonated"@,
        Type::Fermented => "Fermented"@,
        Type::Beer => "Beer"@,
        Type::Wine => "Wine"@,
        Type::MaltBeer => "MaltBeer"@,
        Type::Seltzer => "Seltzer"@,
    }
}

/// The ingredient type named by a label, by exact, case-sensitive match.
pub open spec fn type_of_label(s: Seq<char>) -> Option<Type> {
    if s == label_of(Type::Hard) {
        Some(Type::Hard)
    } else if s == label_of(Type::Whiskey) {
        Some(Type::Whiskey)
    } else if s == label_of(Type::Vodka) {
        Some(Type::Vodka)
    } else if s == label_of(Type::Gin) {
        Some(Type::Gin)
    } else if s == label_of(Type::Rum) {
        Some(Type::Rum)
    } else if s == label_of(Type::Everclear) {
        Some(Type::Everclear)
    } else if s == label_of(Type::GrainAlcohol) {
        Some(Type::GrainAlcohol)
    } else if s == label_of(Type::Flavored) {
        Some(Type::Flavored)
    } else if s == label_of(Type::Liqueur) {
        Some(Type::Liqueur)
    } else if s == label_of(Type::Baileys) {
        Some(Type::Baileys)
    } else if s == label_of(Type::Schnapps) {
        Some(Type::Schnapps)
    } else if s == label_of(Type::Kahlua) {
        Some(Type::Kahlua)
    } else if s == label_of(Type::Carbonated) {
        Some(Type::Carbonated)
    } else if s == label_of(Type::Fermented) {
        Some(Type::Fermented)
    } else if s == label_of(Type::Beer) {
        Some(Type::Beer)
    } else if s == label_of(Type::Wine) {
        Some(Type::Wine)
    } else if s == label_of(Type::MaltBeer) {
        Some(Type::MaltBeer)
    } else if s == label_of(Type::Seltzer) {
        Some(Type::Seltzer)
    } else {
        None
    }
}

/// The category assigned to a label: the category of the type it names, and
/// [`Category::Hard`] for an unrecognized label, since such a label falls
/// back to [`Type::Whiskey`].
pub open spec fn category_of_label(s: Seq<char>) -> Category {
    match type_of_label(s) {
        Some(t) => category_of(t),
        None => category_of(Type::Whiskey),
    }
}

/// Compares two string slices character by character.
pub fn str_eq(a: &str, b: &str) -> (r: bool)
    ensures
        r == (a@ == b@),
{
    let alen = a.unicode_len();
    let blen = b.unicode_len();
    if alen != blen {
        return false;
    }
    let mut i: usize = 0;
    while i < alen
        invariant
            i <= alen,
            alen == a@.len(),
            alen == b@.len(),
            forall|j: int| 0 <= j < i ==> a@[j] == b@[j],
        decreases alen - i,
    {
        if a.get_char(i) != b.get_char(i) {
            return false;
        }
        i = i + 1;
    }
    proof {
        assert(a@ =~= b@);
    }
    true
}

impl Type {
    /// Parses a label into the ingredient type it names, by exact match.
    pub fn from_label(s: &str) -> (t: Option<Type>)
        ensures
            t == type_of_label(s@),
    {
        if str_eq(s, "Hard") {
            Some(Type::Hard)
        } else if str_eq(s, "Whiskey") {
            Some(Type::Whiskey)
        } else if str_eq(s, "Vodka") {
            Some(Type::Vodka)
        } else if str_eq(s, "Gin") {
            Some(Type::Gin)
        } else if str_eq(s, "Rum") {
            Some(Type::Rum)
        } else if str_eq(s, "Everclear") {
            Some(Type::Everclear)
        } else if str_eq(s, "GrainAlcohol") {
            Some(Type::GrainAlcohol)
        } else if str_eq(s, "Flavored") {
            Some(Type::Flavored)
        } else if str_eq(s, "Liqueur") {
            Some(Type::Liqueur)
        } else if str_eq(s, "Baileys") {
            Some(Type::Baileys)
        } else if str_eq(s, "Schnapps") {
            Some(Type::Schnapps)
        } else if str_eq(s, "Kahlua") {
            Some(Type::Kahlua)
        } else if str_eq(s, "Carbonated") {
            Some(Type::Carbonated)
        } else if str_eq(s, "Fermented") {
            Some(Type::Fermented)
        } else if str_eq(s, "Beer") {
            Some(Type::Beer)
        } else if str_eq(s, "Wine") {
            Some(Type::Wine)
        } else if str_eq(s, "MaltBeer") {
            Some(Type::MaltBeer)
        } else if str_eq(s, "Seltzer") {
            Some(Type::Seltzer)
        } else {
            None
        }
    }

    /// The label naming this ingredient type.
    pub fn label(&self) -> (r: &'static str)
        ensures
            r@ == label_of(*self),
    {
        match self {
            Type::Hard => "Hard",
            Type::Whiskey => "Whiskey",
            Type::Vodka => "Vodka",
            Type::Gin => "Gin",
            Type::Rum => "Rum",
            Type::Everclear => "Everclear",
            Type::GrainAlcohol => "GrainAlcohol",
            Type::Flavored => "Flavored",
            Type::Liqueur => "Liqueur",
            Type::Baileys => "Baileys",
            Type::Schnapps => "Schnapps",
            Type::Kahlua => "Kahlua",
            Type::Carbonated => "Carbonated",
            Type::Fermented => "Fermented",
            Type::Beer => "Beer",
            Type::Wine => "Wine",
            Type::MaltBeer => "MaltBeer",
            Type::Seltzer => "Seltzer",
        }
    }

    /// The category this ingredient type belongs to.
    pub fn category(&self) -> (c: Category)
        ensures
            c == category_of(*self),
    {
        match self {
            Type::Hard => Category::Hard,
            Type::Whiskey => Category::Hard,
            Type::Vodka => Category::Hard,
            Type::Gin => Category::Hard,
            Type::Rum => Category::Hard,
            Type::Everclear => Category::Hard,
            Type::GrainAlcohol => Category::Hard,
            Type::Flavored => Category::Liqueur,
            Type::Liqueur => Category::Liqueur,
            Type::Baileys => Category::Liqueur,
            Type::Schnapps => Category::Liqueur,
            Type::Kahlua => Category::Liqueur,
            Type::Carbonated => Category::Carbonated,
            Type::Fermented => Category::Carbonated,
            Type::Beer => Category::Carbonated,
            Type::Wine => Category::Carbonated,
            Type::MaltBeer => Category::Carbonated,
            Type::Seltzer => Category::Carbonated,
        }
    }
}

/// Maps an ingredient-type label to its category.  An unrecognized label
/// falls back to the category of [`Type::Whiskey`].
pub fn match_category(alc_type: &str) -> (c: Category)
    ensures
        c == category_of_label(alc_type@),
{
    let t = match Type::from_label(alc_type) {
        Some(t) => t,
        None => Type::Whiskey,
    };
    t.category()
}

/// Each of the eighteen recognized labels is classified to its documented
/// category: the seven hard liquors to `Hard`, the five liqueurs to
/// `Liqueur`, and the six carbonated drinks to `Carbonated`.
pub proof fn lemma_classifier_exhaustive()
    ensures
        forall|t: Type| #[trigger] type_of_label(label_of(t)) == Some(t),
        forall|t: Type| #[trigger] category_of_label(label_of(t)) == category_of(t),
{
    reveal_strlit("Hard");
    reveal_strlit("Whiskey");
    reveal_strlit("Vodka");
    reveal_strlit("Gin");
    reveal_strlit("Rum");
    reveal_strlit("Everclear");
    reveal_strlit("GrainAlcohol");
    reveal_strlit("Flavored");
    reveal_strlit("Liqueur");
    reveal_strlit("Baileys");
    reveal_strlit("Schnapps");
    reveal_strlit("Kahlua");
    reveal_strlit("Carbonated");
    reveal_strlit("Fermented");
    reveal_strlit("Beer");
    reveal_strlit("Wine");
    reveal_strlit("MaltBeer");
    reveal_strlit("Seltzer");
    assert("Hard"@.len() == 4 && "Hard"@[0] == 'H');
    assert("Whiskey"@.len() == 7 && "Whiskey"@[0] == 'W');
    assert("Vodka"@.len() == 5 && "Vodka"@[0] == 'V');
    assert("Gin"@.len() == 3 && "Gin"@[0] == 'G');
    assert("Rum"@.len() == 3 && "Rum"@[0] == 'R');
    assert("Everclear"@.len() == 9 && "Everclear"@[0] == 'E');
    assert("GrainAlcohol"@.len() == 12 && "GrainAlcohol"@[0] == 'G');
    assert("Flavored"@.len() == 8 && "Flavored"@[0] == 'F');
    assert("Liqueur"@.len() == 7 && "Liqueur"@[0] == 'L');
    assert("Baileys"@.len() == 7 && "Baileys"@[0] == 'B');
    assert("Schnapps"@.len() == 8 && "Schnapps"@[0] == 'S');
    assert("Kahlua"@.len() == 6 && "Kahlua"@[0] == 'K');
    assert("Carbonated"@.len() == 10 && "Carbonated"@[0] == 'C');
    assert("Fermented"@.len() == 9 && "Fermented"@[0] == 'F');
    assert("Beer"@.len() == 4 && "Beer"@[0] == 'B');
    assert("Wine"@.len() == 4 && "Wine"@[0] == 'W');
    assert("MaltBeer"@.len() == 8 && "MaltBeer"@[0] == 'M');
    assert("Seltzer"@.len() == 7 && "Seltzer"@[0] == 'S');
    assert("Everclear"@[1] == 'v' && "Fermented"@[1] == 'e');
    assert(type_of_label(label_of(Type::Hard)) == Some(Type::Hard));
    assert(type_of_label(label_of(Type::Whiskey)) == Some(Type::Whiskey));
    assert(type_of_label(label_of(Type::Vodka)) == Some(Type::Vodka));
    assert(type_of_label(label_of(Type::Gin)) == Some(Type::Gin));
    assert(type_of_label(label_of(Type::Rum)) == Some(Type::Rum));
    assert(type_of_label(label_of(Type::Everclear)) == Some(Type::Everclear));
    assert(type_of_label(label_of(Type::GrainAlcohol)) == Some(Type::GrainAlcohol));
    assert(type_of_label(label_of(Type::Flavored)) == Some(Type::Flavored));
    assert(type_of_label(label_of(Type::Liqueur)) == Some(Type::Liqueur));
    assert(type_of_label(label_of(Type::Baileys)) == Some(Type::Baileys));
    assert(type_of_label(label_of(Type::Schnapps)) == Some(Type::Schnapps));
    assert(type_of_label(label_of(Type::Kahlua)) == Some(Type::Kahlua));
    assert(type_of_label(label_of(Type::Carbonated)) == Some(Type::Carbonated));
    assert(type_of_label(label_of(Type::Fermented)) == Some(Type::Fermented));
    assert(type_of_label(label_of(Type::Beer)) == Some(Type::Beer));
    assert(type_of_label(label_of(Type::Wine)) == Some(Type::Wine));
    assert(type_of_label(label_of(Type::MaltBeer)) == Some(Type::MaltBeer));
    assert(type_of_label(label_of(Type::Seltzer)) == Some(Type::Seltzer));
}

} // verus!
