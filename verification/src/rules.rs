//! The scoring rules: a veto for restricted ingredients, then additive
//! bonuses, in hundredths, capped at one hundred.

use vstd::prelude::*;
use vstd::string::*;
use crate::engine::{Ingredient, NutritionalInfo, Recipe};
use crate::models::HealthProfile;
use crate::text::{has_tag, matches_ignoring_case, name_mentions, same_text, texts};

verus! {

/// Whether some ingredient's name mentions `tag`, letter case aside.
pub open spec fn mentions(ingredients: Seq<Ingredient>, tag: Seq<char>) -> bool {
    exists|j: int|
        0 <= j < ingredients.len() && matches_ignoring_case(tag, #[trigger] ingredients[j].name@)
}

/// Whether some ingredient's name mentions some tag of `tags`.
pub open spec fn any_mentioned(tags: Seq<String>, ingredients: Seq<Ingredient>) -> bool {
    exists|i: int| 0 <= i < tags.len() && mentions(ingredients, #[trigger] tags[i]@)
}

/// The veto: an ingredient of the recipe mentions one of the profile's
/// dietary restrictions or allergies.
pub open spec fn is_vetoed(recipe: &Recipe, profile: &HealthProfile) -> bool {
    any_mentioned(profile.dietary_restrictions@, recipe.ingredients@) || any_mentioned(
        profile.allergies@,
        recipe.ingredients@,
    )
}

/// A meal of moderate energy with enough protein.
pub open spec fn is_balanced(n: NutritionalInfo) -> bool {
    300_000 <= n.calories <= 600_000 && n.protein >= 15_000
}

/// A sum of bonuses, held to the top of the scale.
pub open spec fn capped(points: nat) -> nat {
    if points > 100 {
        100
    } else {
        points
    }
}

/// What one health goal adds for a meal of the given nutrition.
pub open spec fn goal_points(goal: Seq<char>, n: NutritionalInfo) -> nat {
    if goal == "weight_loss"@ {
        (if n.calories < 400_000 {
            15nat
        } else {
            0nat
        }) + (if n.fiber > 5_000 {
            10nat
        } else {
            0nat
        })
    } else if goal == "muscle_gain"@ {
        if n.protein > 25_000 {
            20
        } else {
            0
        }
    } else if goal == "maintain"@ {
        if is_balanced(n) {
            10
        } else {
            0
        }
    } else {
        0
    }
}

/// What the health goals add together, each counted as often as it is listed.
pub open spec fn goals_points(goals: Seq<String>, n: NutritionalInfo) -> nat
    decreases goals.len(),
{
    if goals.len() == 0 {
        0
    } else {
        goals_points(goals.drop_last(), n) + goal_points(goals.last()@, n)
    }
}

/// What the nutrition alone adds.
pub open spec fn nutrition_points(n: NutritionalInfo) -> nat {
    if is_balanced(n) {
        10
    } else {
        0
    }
}

/// How many of the listed preferences are among the recipe's tags.
pub open spec fn matched_preferences(prefs: Seq<String>, tags: Seq<String>) -> nat
    decreases prefs.len(),
{
    if prefs.len() == 0 {
        0
    } else {
        matched_preferences(prefs.drop_last(), tags) + (if texts(tags).contains(prefs.last()@) {
            1nat
        } else {
            0nat
        })
    }
}

/// Whether `tag` is both preferred by the profile and carried by the recipe.
pub open spec fn is_shared_tag(recipe: &Recipe, profile: &HealthProfile, tag: Seq<char>) -> bool {
    texts(profile.dietary_preferences@).contains(tag) && texts(recipe.tags@).contains(tag)
}

/// What the dietary preferences add: fifteen for each preference among the
/// recipe's tags, and ten more for each of `vegetarian` and `low_carb`.
pub open spec fn preference_points(recipe: &Recipe, profile: &HealthProfile) -> nat {
    15 * matched_preferences(profile.dietary_preferences@, recipe.tags@) + (if is_shared_tag(
        recipe,
        profile,
        "vegetarian"@,
    ) {
        10nat
    } else {
        0nat
    }) + (if is_shared_tag(recipe, profile, "low_carb"@) {
        10nat
    } else {
        0nat
    })
}

/// What the user's age adds.
pub open spec fn age_points(recipe: &Recipe, profile: &HealthProfile) -> nat {
    let n = recipe.nutritional_info_per_serving;
    if profile.age < 30 {
        if 300_000 <= n.calories <= 600_000 {
            5
        } else {
            0
        }
    } else if profile.age > 50 {
        if recipe.difficulty_level@ == "easy"@ || recipe.difficulty_level@ == "medium"@ {
            5
        } else {
            0
        }
    } else {
        0
    }
}

/// What the user's activity level adds.
pub open spec fn activity_points(recipe: &Recipe, profile: &HealthProfile) -> nat {
    let n = recipe.nutritional_info_per_serving;
    if profile.activity_level@ == "sedentary"@ {
        if 250_000 <= n.calories <= 500_000 {
            5
        } else {
            0
        }
    } else if profile.activity_level@ == "very_active"@ {
        (if n.calories > 400_000 {
            5nat
        } else {
            0nat
        }) + (if recipe.preparation_time < 45 {
            5nat
        } else {
            0nat
        })
    } else {
        0
    }
}

/// The sum of all bonuses, before the cap and without regard to the veto.
pub open spec fn bonus_points(recipe: &Recipe, profile: &HealthProfile) -> nat {
    goals_points(profile.health_goals@, recipe.nutritional_info_per_serving) + nutrition_points(
        recipe.nutritional_info_per_serving,
    ) + preference_points(recipe, profile) + age_points(recipe, profile) + activity_points(
        recipe,
        profile,
    )
}

/// The score of a recipe for a profile, in hundredths: zero under the veto,
/// else the capped sum of the bonuses.
pub open spec fn rule_score(recipe: &Recipe, profile: &HealthProfile) -> nat {
    if is_vetoed(recipe, profile) {
        0
    } else {
        capped(bonus_points(recipe, profile))
    }
}

/// Tells whether some ingredient's name mentions `tag`, letter case aside.
pub fn mentioned(ingredients: &Vec<Ingredient>, tag: &str) -> (r: bool)
    ensures
        r == mentions(ingredients@, tag@),
{
    let mut j: usize = 0;
    while j < ingredients.len()
        invariant
            j <= ingredients.len(),
            forall|k: int| 0 <= k < j ==> !matches_ignoring_case(tag@, #[trigger] ingredients@[k].name@),
        decreases ingredients.len() - j,
    {
        if name_mentions(ingredients[j].name.as_str(), tag) {
            return true;
        }
        j += 1;
    }
    false
}

/// Tells whether some ingredient's name mentions some tag of `tags`.
pub fn any_tag_mentioned(tags: &Vec<String>, ingredients: &Vec<Ingredient>) -> (r: bool)
    ensures
        r == any_mentioned(tags@, ingredients@),
{
    let mut i: usize = 0;
    while i < tags.len()
        invariant
            i <= tags.len(),
            forall|k: int| 0 <= k < i ==> !mentions(ingredients@, #[trigger] tags@[k]@),
        decreases tags.len() - i,
    {
        if mentioned(ingredients, tags[i].as_str()) {
            return true;
        }
        i += 1;
    }
    false
}

/// Holds a running sum to the top of the scale.
fn cap(points: u32) -> (r: u32)
    ensures
        r == capped(points as nat),
{
    if points > 100 {
        100
    } else {
        points
    }
}

/// The rule-based scorer.
pub struct RecommendationRules;

impl RecommendationRules {
    /// Scores a recipe for a profile.
    pub fn apply_rules(recipe: &Recipe, profile: &HealthProfile) -> (score: u32)
        ensures
            score == rule_score(recipe, profile),
            score <= 100,
    {
        if !Self::passes_dietary_restrictions(recipe, profile) {
            return 0;
        }
        let goals = Self::apply_goal_based_rules(recipe, profile);
        let nutrition = Self::apply_nutrition_based_rules(recipe, profile);
        let preferences = Self::apply_preference_rules(recipe, profile);
        let traits = Self::apply_profile_characteristic_rules(recipe, profile);
        cap(goals + nutrition + preferences + traits)
    }

    /// Tells whether the recipe escapes the veto.
    pub fn passes_dietary_restrictions(recipe: &Recipe, profile: &HealthProfile) -> (r: bool)
        ensures
            r == !is_vetoed(recipe, profile),
    {
        if any_tag_mentioned(&profile.dietary_restrictions, &recipe.ingredients) {
            return false;
        }
        !any_tag_mentioned(&profile.allergies, &recipe.ingredients)
    }

    /// The capped bonus of the health goals.
    fn apply_goal_based_rules(recipe: &Recipe, profile: &HealthProfile) -> (r: u32)
        ensures
            r == capped(goals_points(profile.health_goals@, recipe.nutritional_info_per_serving)),
    {
        let n = &recipe.nutritional_info_per_serving;
        let goals = &profile.health_goals;
        let mut score: u32 = 0;
        let mut i: usize = 0;
        while i < goals.len()
            invariant
                i <= goals.len(),
                score == capped(goals_points(goals@.take(i as int), *n)),
            decreases goals.len() - i,
        {
            let goal = goals[i].as_str();
            let mut gain: u32 = 0;
            if same_text(goal, "weight_loss") {
                if n.calories < 400_000 {
                    gain += 15;
                }
                if n.fiber > 5_000 {
                    gain += 10;
                }
            } else if same_text(goal, "muscle_gain") {
                if n.protein > 25_000 {
                    gain += 20;
                }
            } else if same_text(goal, "maintain") {
                if Self::is_balanced_meal(n) {
                    gain += 10;
                }
            }
            proof {
                assert(goals@.take(i + 1).drop_last() == goals@.take(i as int));
                assert(goals@.take(i + 1).last() == goals@[i as int]);
            }
            score = cap(score + gain);
            i += 1;
        }
        proof {
            assert(goals@.take(i as int) == goals@);
        }
        score
    }

    /// The bonus of the nutrition alone.
    fn apply_nutrition_based_rules(recipe: &Recipe, _profile: &HealthProfile) -> (r: u32)
        ensures
            r == nutrition_points(recipe.nutritional_info_per_serving),
    {
        if Self::is_balanced_meal(&recipe.nutritional_info_per_serving) {
            10
        } else {
            0
        }
    }

    /// The capped bonus of the dietary preferences.
    fn apply_preference_rules(recipe: &Recipe, profile: &HealthProfile) -> (r: u32)
        ensures
            r == capped(preference_points(recipe, profile)),
    {
        let prefs = &profile.dietary_preferences;
        let mut score: u32 = 0;
        let mut i: usize = 0;
        while i < prefs.len()
            invariant
                i <= prefs.len(),
                score == capped(15 * matched_preferences(prefs@.take(i as int), recipe.tags@)),
            decreases prefs.len() - i,
        {
            proof {
                assert(prefs@.take(i + 1).drop_last() == prefs@.take(i as int));
                assert(prefs@.take(i + 1).last() == prefs@[i as int]);
            }
            if has_tag(&recipe.tags, prefs[i].as_str()) {
                score = cap(score + 15);
            }
            i += 1;
        }
        proof {
            assert(prefs@.take(i as int) == prefs@);
        }
        if has_tag(prefs, "vegetarian") && has_tag(&recipe.tags, "vegetarian") {
            score += 10;
        }
        if has_tag(prefs, "low_carb") && has_tag(&recipe.tags, "low_carb") {
            score += 10;
        }
        cap(score)
    }

    /// The bonus of the user's age and activity level.
    fn apply_profile_characteristic_rules(recipe: &Recipe, profile: &HealthProfile) -> (r: u32)
        ensures
            r == age_points(recipe, profile) + activity_points(recipe, profile),
            r <= 15,
    {
        let n = &recipe.nutritional_info_per_serving;
        let mut score: u32 = 0;
        if profile.age < 30 {
            if 300_000 <= n.calories && n.calories <= 600_000 {
                score += 5;
            }
        } else if profile.age > 50 {
            let level = recipe.difficulty_level.as_str();
            if same_text(level, "easy") || same_text(level, "medium") {
                score += 5;
            }
        }
        let activity = profile.activity_level.as_str();
        if same_text(activity, "sedentary") {
            if 250_000 <= n.calories && n.calories <= 500_000 {
                score += 5;
            }
        } else if same_text(activity, "very_active") {
            if n.calories > 400_000 {
                score += 5;
            }
            if recipe.preparation_time < 45 {
                score += 5;
            }
        }
        score
    }

    /// Tells whether a meal is of moderate energy with enough protein.
    pub fn is_balanced_meal(nutrition: &NutritionalInfo) -> (r: bool)
        ensures
            r == is_balanced(*nutrition),
    {
        nutrition.calories >= 300_000 && nutrition.calories <= 600_000 && nutrition.protein
            >= 15_000
    }
}

} // verus!
