//! The recipe catalogue and the two ways of drawing recommendations from it.

use vstd::prelude::*;
use vstd::string::*;
use crate::models;
use crate::models::{is_meal_type, DietRecommendation, HealthProfile};
use crate::outside::{fresh_id, now};
use crate::rules::{any_tag_mentioned, is_vetoed, rule_score, RecommendationRules};
use crate::text::{
    comes_before, lemma_text_lt_asymmetric, lemma_text_lt_total, lemma_text_lt_transitive, same_text,
    text_lt,
};

verus! {

/// An ingredient of a catalogue recipe; `amount` is in thousandths of `unit`.
#[derive(Debug, Clone)]
pub struct Ingredient {
    pub name: String,
    pub amount: u64,
    pub unit: String,
    pub optional: bool,
}

/// Nutritional totals of one serving: `calories` in thousandths of a
/// kilocalorie, the others in milligrams.
#[derive(Debug, Clone, Copy, PartialEq, Eq, Structural)]
pub struct NutritionalInfo {
    pub calories: u64,
    pub protein: u64,
    pub carbs: u64,
    pub fat: u64,
    pub fiber: u64,
}

/// A recipe of the catalogue that recommendations are drawn from.
#[derive(Debug, Clone)]
pub struct Recipe {
    pub id: String,
    pub title: String,
    pub description: String,
    pub ingredients: Vec<Ingredient>,
    pub nutritional_info_per_serving: NutritionalInfo,
    pub preparation_time: u32,
    pub difficulty_level: String,
    pub meal_type: String,
    pub recipe_instructions: String,
    pub cuisine_type: Option<String>,
    pub seasonal: bool,
    pub tags: Vec<String>,
}

/// Whether `copy` lists the ingredients of `from`, one for one.
pub open spec fn same_ingredients(copy: Seq<models::Ingredient>, from: Seq<Ingredient>) -> bool {
    &&& copy.len() == from.len()
    &&& forall|j: int|
        0 <= j < from.len() ==> (#[trigger] copy[j]).name@ == from[j].name@ && copy[j].amount
            == from[j].amount && copy[j].unit@ == from[j].unit@
}

/// Whether `copy` holds the totals of `from`.
pub open spec fn same_nutrition(copy: models::NutritionalInfo, from: NutritionalInfo) -> bool {
    &&& copy.calories == from.calories
    &&& copy.protein == from.protein
    &&& copy.carbs == from.carbs
    &&& copy.fat == from.fat
    &&& copy.fiber == from.fiber
}

/// Whether the recommendation carries the recipe's content.
pub open spec fn carries(rec: DietRecommendation, recipe: Recipe) -> bool {
    &&& rec.title@ == recipe.title@
    &&& same_ingredients(rec.ingredients@, recipe.ingredients@)
    &&& same_nutrition(rec.nutritional_info, recipe.nutritional_info_per_serving)
    &&& rec.preparation_time == recipe.preparation_time
    &&& rec.difficulty_level@ == recipe.difficulty_level@
    &&& rec.meal_type@ == recipe.meal_type@
    &&& rec.recipe_instructions@ == recipe.recipe_instructions@
}

/// Whether a recipe is recommended to a profile: it escapes the veto and
/// scores above ten hundredths.
pub open spec fn is_admitted(recipe: Recipe, profile: &HealthProfile) -> bool {
    !is_vetoed(&recipe, profile) && rule_score(&recipe, profile) > 10
}

/// The veto is already in the score: a recipe is recommended exactly when
/// it scores above ten hundredths, since a recipe under the veto scores
/// nothing.
pub proof fn lemma_admitted_means_scored(recipe: Recipe, profile: &HealthProfile)
    ensures
        is_admitted(recipe, profile) <==> rule_score(&recipe, profile) > 10,
        is_vetoed(&recipe, profile) ==> rule_score(&recipe, profile) == 0,
        rule_score(&recipe, profile) <= 100,
{
}

/// Whether `rec` is the personalized recommendation of `recipe` to `profile`.
pub open spec fn is_personal_pick(
    rec: DietRecommendation,
    recipe: Recipe,
    profile: &HealthProfile,
) -> bool {
    &&& carries(rec, recipe)
    &&& rec.description@ == recipe.description@
    &&& rec.user_id@ == profile.user_id@
    &&& rec.is_personalized
    &&& rec.relevance_score == rule_score(&recipe, profile)
}

/// The order of personalized recommendations: the higher score first, and of
/// two equal scores the title that comes first.
pub open spec fn beats(score_a: nat, title_a: Seq<char>, score_b: nat, title_b: Seq<char>) -> bool {
    score_a > score_b || (score_a == score_b && text_lt(title_a, title_b))
}

/// Whether recipe `a` must stand before recipe `b` for `profile`.
pub open spec fn recipe_beats(a: Recipe, b: Recipe, profile: &HealthProfile) -> bool {
    beats(rule_score(&a, profile), a.title@, rule_score(&b, profile), b.title@)
}

/// Whether recommendation `a` must stand before recommendation `b`.
pub open spec fn outranks(a: DietRecommendation, b: DietRecommendation) -> bool {
    beats(a.relevance_score as nat, a.title@, b.relevance_score as nat, b.title@)
}

/// The full order of personalized recommendations, on recipes `a` and `b`
/// of the catalogue: the higher score first, among equal scores the title
/// that comes first, and among equal titles the recipe that stands first in
/// the catalogue.
pub open spec fn ranks_before(recipes: Seq<Recipe>, profile: &HealthProfile, a: int, b: int) -> bool {
    let sa = rule_score(&recipes[a], profile);
    let sb = rule_score(&recipes[b], profile);
    let ta = recipes[a].title@;
    let tb = recipes[b].title@;
    sa > sb || (sa == sb && (text_lt(ta, tb) || (ta == tb && a < b)))
}

/// Whether `order` ranks the admitted recipes among the first `n`: it
/// lists admitted recipes only, each of them, and each stands before all
/// that it ranks before.
pub open spec fn is_ranking_of_prefix(
    order: Seq<usize>,
    recipes: Seq<Recipe>,
    profile: &HealthProfile,
    n: int,
) -> bool {
    &&& forall|k: int|
        0 <= k < order.len() ==> (#[trigger] order[k]) < n && is_admitted(
            recipes[order[k] as int],
            profile,
        )
    &&& forall|j: int, k: int|
        0 <= j < k < order.len() ==> ranks_before(
            recipes,
            profile,
            #[trigger] order[j] as int,
            #[trigger] order[k] as int,
        )
    &&& forall|x: int|
        0 <= x < n && #[trigger] is_admitted(recipes[x], profile) ==> order.contains(x as usize)
}

/// The full order passes along.
pub proof fn lemma_ranks_before_transitive(
    recipes: Seq<Recipe>,
    profile: &HealthProfile,
    a: int,
    b: int,
    c: int,
)
    requires
        ranks_before(recipes, profile, a, b),
        ranks_before(recipes, profile, b, c),
    ensures
        ranks_before(recipes, profile, a, c),
{
    let ta = recipes[a].title@;
    let tb = recipes[b].title@;
    let tc = recipes[c].title@;
    if text_lt(ta, tb) && text_lt(tb, tc) {
        lemma_text_lt_transitive(ta, tb, tc);
    }
}

/// Of two different recipes of the catalogue, one ranks before the other,
/// and never both.
pub proof fn lemma_ranks_before_decides(
    recipes: Seq<Recipe>,
    profile: &HealthProfile,
    a: int,
    b: int,
)
    requires
        a != b,
    ensures
        ranks_before(recipes, profile, a, b) != ranks_before(recipes, profile, b, a),
{
    let ta = recipes[a].title@;
    let tb = recipes[b].title@;
    if ta != tb {
        lemma_text_lt_total(ta, tb);
    }
    if text_lt(ta, tb) {
        lemma_text_lt_asymmetric(ta, tb);
    }
    if text_lt(tb, ta) {
        lemma_text_lt_asymmetric(tb, ta);
    }
}

/// A recipe that ranks before another is not beaten by it on score and
/// title.
pub proof fn lemma_ranked_is_not_beaten(
    recipes: Seq<Recipe>,
    profile: &HealthProfile,
    a: int,
    b: int,
)
    requires
        ranks_before(recipes, profile, a, b),
    ensures
        !recipe_beats(recipes[b], recipes[a], profile),
{
    let ta = recipes[a].title@;
    let tb = recipes[b].title@;
    if text_lt(tb, ta) {
        lemma_text_lt_asymmetric(tb, ta);
    }
}

/// Whether `out` is the personalized answer for `profile`, `order` naming
/// the recipe that each recommendation was made from.
pub open spec fn is_personal_ranking(
    out: Seq<DietRecommendation>,
    order: Seq<usize>,
    recipes: Seq<Recipe>,
    profile: &HealthProfile,
) -> bool {
    &&& order.len() == out.len()
    &&& is_ranking_of_prefix(order, recipes, profile, recipes.len() as int)
    &&& forall|k: int|
        0 <= k < out.len() ==> is_personal_pick(#[trigger] out[k], recipes[order[k] as int], profile)
}

/// Whether `list` is in the order `before`: each element stands before all
/// that come after it.
pub open spec fn is_in_order(list: Seq<usize>, before: spec_fn(int, int) -> bool) -> bool {
    forall|j: int, k: int|
        0 <= j < k < list.len() ==> before(#[trigger] list[j] as int, #[trigger] list[k] as int)
}

/// Two lists in one order that never holds both ways, with the same
/// members, are the same list.
pub proof fn lemma_order_fixes_the_list(
    a: Seq<usize>,
    b: Seq<usize>,
    before: spec_fn(int, int) -> bool,
)
    requires
        forall|x: int, y: int| !(#[trigger] before(x, y) && before(y, x)),
        is_in_order(a, before),
        is_in_order(b, before),
        forall|x: usize| a.contains(x) <==> b.contains(x),
    ensures
        a == b,
    decreases a.len(),
{
    if a.len() == 0 {
        if b.len() > 0 {
            assert(b.contains(b[0]));
        }
        assert(a =~= b);
    } else {
        assert(a.contains(a[0]));
        let j = choose|j: int| 0 <= j < b.len() && b[j] == a[0];
        assert(b.contains(b[0]));
        let i = choose|i: int| 0 <= i < a.len() && a[i] == b[0];
        if i > 0 && j > 0 {
            assert(before(a[0] as int, a[i] as int));
            assert(before(b[0] as int, b[j] as int));
        }
        assert(a[0] == b[0]);
        let ta = a.subrange(1, a.len() as int);
        let tb = b.subrange(1, b.len() as int);
        assert forall|x: usize| ta.contains(x) <==> tb.contains(x) by {
            if ta.contains(x) {
                let k = choose|k: int| 0 <= k < ta.len() && ta[k] == x;
                assert(a[k + 1] == x);
                assert(before(a[0] as int, a[k + 1] as int));
                assert(a.contains(x));
                let m = choose|m: int| 0 <= m < b.len() && b[m] == x;
                assert(m != 0);
                assert(tb[m - 1] == x);
            }
            if tb.contains(x) {
                let k = choose|k: int| 0 <= k < tb.len() && tb[k] == x;
                assert(b[k + 1] == x);
                assert(before(b[0] as int, b[k + 1] as int));
                assert(b.contains(x));
                let m = choose|m: int| 0 <= m < a.len() && a[m] == x;
                assert(m != 0);
                assert(ta[m - 1] == x);
            }
        }
        assert(is_in_order(ta, before)) by {
            assert forall|j: int, k: int| 0 <= j < k < ta.len() implies before(
                #[trigger] ta[j] as int,
                #[trigger] ta[k] as int,
            ) by {
                assert(ta[j] == a[j + 1] && ta[k] == a[k + 1]);
            }
        }
        assert(is_in_order(tb, before)) by {
            assert forall|j: int, k: int| 0 <= j < k < tb.len() implies before(
                #[trigger] tb[j] as int,
                #[trigger] tb[k] as int,
            ) by {
                assert(tb[j] == b[j + 1] && tb[k] == b[k + 1]);
            }
        }
        lemma_order_fixes_the_list(ta, tb, before);
        assert(a =~= seq![a[0]] + ta);
        assert(b =~= seq![b[0]] + tb);
    }
}

/// The personalized answer is determined: two rankings of one catalogue
/// for one profile draw on the same recipes in the same order.
pub proof fn lemma_personal_ranking_is_determined(
    first: Seq<usize>,
    second: Seq<usize>,
    recipes: Seq<Recipe>,
    profile: &HealthProfile,
)
    requires
        is_ranking_of_prefix(first, recipes, profile, recipes.len() as int),
        is_ranking_of_prefix(second, recipes, profile, recipes.len() as int),
    ensures
        first == second,
{
    let before = |a: int, b: int| ranks_before(recipes, profile, a, b);
    assert forall|x: int, y: int| !(#[trigger] before(x, y) && before(y, x)) by {
        if x != y {
            lemma_ranks_before_decides(recipes, profile, x, y);
        } else if text_lt(recipes[x].title@, recipes[x].title@) {
            lemma_text_lt_asymmetric(recipes[x].title@, recipes[x].title@);
        }
    }
    assert forall|x: usize| first.contains(x) <==> second.contains(x) by {
        if first.contains(x) {
            let k = choose|k: int| 0 <= k < first.len() && first[k] == x;
            assert(is_admitted(recipes[first[k] as int], profile));
        }
        if second.contains(x) {
            let k = choose|k: int| 0 <= k < second.len() && second[k] == x;
            assert(is_admitted(recipes[second[k] as int], profile));
        }
    }
    lemma_order_fixes_the_list(first, second, before);
}

/// A recipe under the veto is the source of no personalized recommendation,
/// whatever it would have scored.
pub proof fn lemma_vetoed_recipe_is_never_recommended(
    out: Seq<DietRecommendation>,
    order: Seq<usize>,
    recipes: Seq<Recipe>,
    profile: &HealthProfile,
    i: int,
)
    requires
        is_personal_ranking(out, order, recipes, profile),
        0 <= i < recipes.len(),
        is_vetoed(&recipes[i], profile),
    ensures
        forall|k: int| 0 <= k < order.len() ==> order[k] != i,
{
}

/// Placing a newly admitted recipe behind those that rank before it keeps
/// the ranking.
proof fn lemma_ranking_grows(
    order: Seq<usize>,
    recipes: Seq<Recipe>,
    profile: &HealthProfile,
    i: usize,
    p: int,
)
    requires
        is_ranking_of_prefix(order, recipes, profile, i as int),
        i < recipes.len(),
        is_admitted(recipes[i as int], profile),
        0 <= p <= order.len(),
        forall|k: int|
            0 <= k < p ==> ranks_before(recipes, profile, #[trigger] order[k] as int, i as int),
        forall|k: int|
            p <= k < order.len() ==> ranks_before(
                recipes,
                profile,
                i as int,
                #[trigger] order[k] as int,
            ),
    ensures
        is_ranking_of_prefix(order.insert(p, i), recipes, profile, i + 1),
{
    let grown = order.insert(p, i);
    order.insert_ensures(p, i);
    assert forall|k: int| 0 <= k < grown.len() implies (#[trigger] grown[k]) < i + 1
        && is_admitted(recipes[grown[k] as int], profile) by {
        if k > p {
            assert(grown[k] == order[k - 1]);
        }
    }
    assert forall|j: int, k: int| 0 <= j < k < grown.len() implies ranks_before(
        recipes,
        profile,
        #[trigger] grown[j] as int,
        #[trigger] grown[k] as int,
    ) by {
        if j > p {
            assert(grown[j] == order[j - 1]);
        }
        if k > p {
            assert(grown[k] == order[k - 1]);
        }
    }
    assert forall|x: int| 0 <= x < i + 1 && #[trigger] is_admitted(recipes[x], profile) implies
        grown.contains(x as usize) by {
        if x == i {
            assert(grown[p] == i);
        } else {
            let k = choose|k: int| 0 <= k < order.len() && order[k] == x as usize;
            if k < p {
                assert(grown[k] == x as usize);
            } else {
                assert(grown[k + 1] == order[k]);
            }
        }
    }
}

/// Where a new recipe, the last of the catalogue so far, does not beat the
/// one at `p - 1` on score and title, everything up to `p` ranks before it.
proof fn lemma_ranked_prefix_stays_ahead(
    order: Seq<usize>,
    recipes: Seq<Recipe>,
    profile: &HealthProfile,
    i: usize,
    p: int,
)
    requires
        is_ranking_of_prefix(order, recipes, profile, i as int),
        i < recipes.len(),
        0 <= p <= order.len(),
        p > 0 ==> !recipe_beats(recipes[i as int], recipes[order[p - 1] as int], profile),
    ensures
        forall|k: int|
            0 <= k < p ==> ranks_before(recipes, profile, #[trigger] order[k] as int, i as int),
{
    if p > 0 {
        let last = order[p - 1] as int;
        assert(last < i);
        lemma_ranks_before_decides(recipes, profile, last, i as int);
        if ranks_before(recipes, profile, i as int, last) {
            assert(false);
        }
        assert forall|k: int| 0 <= k < p implies ranks_before(
            recipes,
            profile,
            #[trigger] order[k] as int,
            i as int,
        ) by {
            if k < p - 1 {
                assert(ranks_before(recipes, profile, order[k] as int, order[p - 1] as int));
                lemma_ranks_before_transitive(recipes, profile, order[k] as int, last, i as int);
            }
        }
    }
}

/// The four meal types are four different words.
pub proof fn lemma_meal_types_differ()
    ensures
        "breakfast"@ != "lunch"@,
        "breakfast"@ != "dinner"@,
        "breakfast"@ != "snack"@,
        "lunch"@ != "dinner"@,
        "lunch"@ != "snack"@,
        "dinner"@ != "snack"@,
{
    reveal_strlit("breakfast");
    reveal_strlit("lunch");
    reveal_strlit("dinner");
    reveal_strlit("snack");
    assert("breakfast"@[0] == 'b');
    assert("lunch"@[0] == 'l');
    assert("dinner"@[0] == 'd');
    assert("snack"@[0] == 's');
}

/// How many of the first `n` recipes are of the meal type `meal`.
pub open spec fn count_meal(recipes: Seq<Recipe>, n: int, meal: Seq<char>) -> nat
    decreases n,
{
    if n <= 0 {
        0
    } else {
        count_meal(recipes, n - 1, meal) + (if recipes[n - 1].meal_type@ == meal {
            1nat
        } else {
            0nat
        })
    }
}

/// The count of a meal type never falls as the catalogue is walked.
pub proof fn lemma_count_meal_grows(recipes: Seq<Recipe>, m: int, n: int, meal: Seq<char>)
    requires
        m <= n,
    ensures
        count_meal(recipes, m, meal) <= count_meal(recipes, n, meal),
    decreases n - m,
{
    if m < n {
        lemma_count_meal_grows(recipes, m, n - 1, meal);
    }
}

/// A count, held to the three recipes that default mode admits of a meal type.
pub open spec fn at_most_three(n: nat) -> nat {
    if n > 3 {
        3
    } else {
        n
    }
}

/// Whether the walk of default mode admits recipe `i`: it is of one of the
/// four meal types, and fewer than three recipes of that type precede it.
pub open spec fn is_default_admitted(recipes: Seq<Recipe>, i: int) -> bool {
    is_meal_type(recipes[i].meal_type@) && count_meal(recipes, i, recipes[i].meal_type@) < 3
}

/// The place of a meal type in the default order.
pub open spec fn meal_rank(meal: Seq<char>) -> int {
    if meal == "breakfast"@ {
        0
    } else if meal == "lunch"@ {
        1
    } else if meal == "dinner"@ {
        2
    } else if meal == "snack"@ {
        3
    } else {
        4
    }
}

/// The place of a difficulty level in the default order.
pub open spec fn difficulty_rank(level: Seq<char>) -> int {
    if level == "easy"@ {
        0
    } else if level == "medium"@ {
        1
    } else if level == "hard"@ {
        2
    } else {
        3
    }
}

/// The default order: by meal type, then by difficulty, and among equals
/// the recipe that stands first in the catalogue.
pub open spec fn default_precedes(recipes: Seq<Recipe>, a: int, b: int) -> bool {
    let ma = meal_rank(recipes[a].meal_type@);
    let mb = meal_rank(recipes[b].meal_type@);
    let da = difficulty_rank(recipes[a].difficulty_level@);
    let db = difficulty_rank(recipes[b].difficulty_level@);
    ma < mb || (ma == mb && (da < db || (da == db && a < b)))
}

/// Whether `order` lists, in the default order, exactly the recipes that the
/// walk admits among the first `n`.
pub open spec fn is_default_order(order: Seq<usize>, recipes: Seq<Recipe>, n: int) -> bool {
    &&& forall|k: int|
        0 <= k < order.len() ==> (#[trigger] order[k]) < n && is_default_admitted(
            recipes,
            order[k] as int,
        )
    &&& forall|j: int, k: int|
        0 <= j < k < order.len() ==> default_precedes(
            recipes,
            #[trigger] order[j] as int,
            #[trigger] order[k] as int,
        )
    &&& forall|x: int|
        0 <= x < n && #[trigger] is_default_admitted(recipes, x) ==> order.contains(x as usize)
}

/// The default answer is determined: two default orders of one catalogue
/// draw on the same recipes in the same order.
pub proof fn lemma_default_order_is_determined(
    first: Seq<usize>,
    second: Seq<usize>,
    recipes: Seq<Recipe>,
)
    requires
        is_default_order(first, recipes, recipes.len() as int),
        is_default_order(second, recipes, recipes.len() as int),
    ensures
        first == second,
{
    let before = |a: int, b: int| default_precedes(recipes, a, b);
    assert forall|x: usize| first.contains(x) <==> second.contains(x) by {
        if first.contains(x) {
            let k = choose|k: int| 0 <= k < first.len() && first[k] == x;
            assert(is_default_admitted(recipes, first[k] as int));
        }
        if second.contains(x) {
            let k = choose|k: int| 0 <= k < second.len() && second[k] == x;
            assert(is_default_admitted(recipes, second[k] as int));
        }
    }
    lemma_order_fixes_the_list(first, second, before);
}

/// The heuristic score of default mode, in hundredths.
pub open spec fn default_score(recipe: Recipe) -> nat {
    let level = recipe.difficulty_level@;
    let base: nat = if level == "easy"@ {
        80
    } else if level == "medium"@ {
        60
    } else if level == "hard"@ {
        40
    } else {
        50
    };
    let n = recipe.nutritional_info_per_serving;
    let bonus: nat = if n.protein > 10_000 && n.fiber > 2_000 {
        10
    } else {
        0
    };
    if base + bonus > 100 {
        100
    } else {
        base + bonus
    }
}

/// The word for a difficulty level in the default description.
pub open spec fn difficulty_label(level: Seq<char>) -> Seq<char> {
    if level == "easy"@ {
        "简单"@
    } else if level == "medium"@ {
        "中等"@
    } else if level == "hard"@ {
        "较高"@
    } else {
        "适中"@
    }
}

/// The word for a meal type in the default description.
pub open spec fn meal_label(meal: Seq<char>) -> Seq<char> {
    if meal == "breakfast"@ {
        "早餐"@
    } else if meal == "lunch"@ {
        "午餐"@
    } else if meal == "dinner"@ {
        "晚餐"@
    } else if meal == "snack"@ {
        "小食"@
    } else {
        "菜品"@
    }
}

/// The description that default mode gives a recipe.
pub open spec fn default_description(recipe: Recipe) -> Seq<char> {
    "推荐理由：这是一道"@ + difficulty_label(recipe.difficulty_level@) + "难度的"@ + meal_label(
        recipe.meal_type@,
    ) + "，营养均衡，适合日常制作。"@
}

/// Whether `rec` is the default recommendation of `recipe` to `user_id`.
pub open spec fn is_default_pick(rec: DietRecommendation, recipe: Recipe, user_id: Seq<char>) -> bool {
    &&& carries(rec, recipe)
    &&& rec.description@ == default_description(recipe)
    &&& rec.user_id@ == user_id
    &&& !rec.is_personalized
    &&& rec.relevance_score == default_score(recipe)
}

/// Whether `out` is the default answer for `user_id`, `order` naming the
/// recipe that each recommendation was made from.
pub open spec fn is_default_ranking(
    out: Seq<DietRecommendation>,
    order: Seq<usize>,
    recipes: Seq<Recipe>,
    user_id: Seq<char>,
) -> bool {
    &&& order.len() == out.len()
    &&& is_default_order(order, recipes, recipes.len() as int)
    &&& forall|k: int|
        0 <= k < out.len() ==> is_default_pick(#[trigger] out[k], recipes[order[k] as int], user_id)
}

/// Placing a newly admitted recipe behind those that precede it keeps the
/// default order.
proof fn lemma_default_order_grows(order: Seq<usize>, recipes: Seq<Recipe>, i: usize, p: int)
    requires
        is_default_order(order, recipes, i as int),
        i < recipes.len(),
        is_default_admitted(recipes, i as int),
        0 <= p <= order.len(),
        forall|k: int| 0 <= k < p ==> default_precedes(recipes, #[trigger] order[k] as int, i as int),
        forall|k: int|
            p <= k < order.len() ==> default_precedes(recipes, i as int, #[trigger] order[k] as int),
    ensures
        is_default_order(order.insert(p, i), recipes, i + 1),
{
    let grown = order.insert(p, i);
    order.insert_ensures(p, i);
    assert forall|k: int| 0 <= k < grown.len() implies (#[trigger] grown[k]) < i + 1
        && is_default_admitted(recipes, grown[k] as int) by {
        if k > p {
            assert(grown[k] == order[k - 1]);
        }
    }
    assert forall|j: int, k: int| 0 <= j < k < grown.len() implies default_precedes(
        recipes,
        #[trigger] grown[j] as int,
        #[trigger] grown[k] as int,
    ) by {
        if j > p {
            assert(grown[j] == order[j - 1]);
        }
        if k > p {
            assert(grown[k] == order[k - 1]);
        }
    }
    assert forall|x: int| 0 <= x < i + 1 && #[trigger] is_default_admitted(recipes, x) implies
        grown.contains(x as usize) by {
        if x == i {
            assert(grown[p] == i);
        } else {
            let k = choose|k: int| 0 <= k < order.len() && order[k] == x as usize;
            if k < p {
                assert(grown[k] == x as usize);
            } else {
                assert(grown[k + 1] == order[k]);
            }
        }
    }
}

/// The place of a meal type in the default order.
pub fn meal_rank_of(meal: &str) -> (r: u8)
    ensures
        r == meal_rank(meal@),
{
    if same_text(meal, "breakfast") {
        0
    } else if same_text(meal, "lunch") {
        1
    } else if same_text(meal, "dinner") {
        2
    } else if same_text(meal, "snack") {
        3
    } else {
        4
    }
}

/// The place of a difficulty level in the default order.
pub fn difficulty_rank_of(level: &str) -> (r: u8)
    ensures
        r == difficulty_rank(level@),
{
    if same_text(level, "easy") {
        0
    } else if same_text(level, "medium") {
        1
    } else if same_text(level, "hard") {
        2
    } else {
        3
    }
}

/// Copies a recipe's ingredients into the form that a recommendation holds.
fn copy_ingredients(from: &Vec<Ingredient>) -> (copy: Vec<models::Ingredient>)
    ensures
        same_ingredients(copy@, from@),
{
    let mut copy: Vec<models::Ingredient> = Vec::new();
    let mut j: usize = 0;
    while j < from.len()
        invariant
            j <= from.len(),
            copy@.len() == j,
            forall|k: int|
                0 <= k < j ==> (#[trigger] copy@[k]).name@ == from@[k].name@ && copy@[k].amount
                    == from@[k].amount && copy@[k].unit@ == from@[k].unit@,
        decreases from.len() - j,
    {
        copy.push(
            models::Ingredient {
                name: from[j].name.clone(),
                amount: from[j].amount,
                unit: from[j].unit.clone(),
            },
        );
        j += 1;
    }
    copy
}

/// Copies a recipe's nutritional totals.
fn copy_nutrition(from: &NutritionalInfo) -> (copy: models::NutritionalInfo)
    ensures
        same_nutrition(copy, *from),
{
    models::NutritionalInfo {
        calories: from.calories,
        protein: from.protein,
        carbs: from.carbs,
        fat: from.fat,
        fiber: from.fiber,
    }
}

/// The catalogue, filled before recommendations are asked for.
pub struct RecommendationEngine {
    pub recipes: Vec<Recipe>,
}

impl RecommendationEngine {
    /// An engine with an empty catalogue.
    pub fn new() -> (engine: RecommendationEngine)
        ensures
            engine.recipes@.len() == 0,
    {
        RecommendationEngine { recipes: Vec::new() }
    }

    /// Adds a recipe at the end of the catalogue.
    pub fn add_recipe(&mut self, recipe: Recipe)
        ensures
            final(self).recipes@ == old(self).recipes@.push(recipe),
    {
        self.recipes.push(recipe);
    }

    /// The answer for a user: personalized where a profile is at hand, the
    /// default one where none is.
    pub fn recommend(&self, profile: Option<&HealthProfile>, user_id: &str) -> (out: Vec<
        DietRecommendation,
    >)
        ensures
            match profile {
                Some(p) => exists|order: Seq<usize>|
                    is_personal_ranking(out@, order, self.recipes@, p),
                None => exists|order: Seq<usize>|
                    is_default_ranking(out@, order, self.recipes@, user_id@),
            },
            forall|k: int|
                0 <= k < out@.len() ==> (#[trigger] out@[k]).is_personalized == (profile is Some),
    {
        match profile {
            Some(p) => self.get_recommendations(p),
            None => self.get_default_recommendations(user_id),
        }
    }

    /// The personalized answer: every recipe that escapes the veto and
    /// scores above ten hundredths, once, the higher score first, among
    /// equal scores the title that comes first, and among equal titles as
    /// the recipes stand in the catalogue.
    pub fn get_recommendations(&self, profile: &HealthProfile) -> (out: Vec<DietRecommendation>)
        ensures
            exists|order: Seq<usize>| is_personal_ranking(out@, order, self.recipes@, profile),
            forall|k: int|
                0 <= k < out@.len() ==> 10 < (#[trigger] out@[k]).relevance_score <= 100
                    && out@[k].is_personalized,
            forall|j: int, k: int|
                0 <= j < k < out@.len() ==> !outranks(#[trigger] out@[k], #[trigger] out@[j]),
    {
        let mut ranked: Vec<usize> = Vec::new();
        let mut points: Vec<u32> = Vec::new();
        let mut i: usize = 0;
        while i < self.recipes.len()
            invariant
                i <= self.recipes@.len(),
                ranked@.len() == points@.len(),
                is_ranking_of_prefix(ranked@, self.recipes@, profile, i as int),
                forall|k: int|
                    0 <= k < ranked@.len() ==> #[trigger] points@[k] == rule_score(
                        &self.recipes@[ranked@[k] as int],
                        profile,
                    ),
            decreases self.recipes.len() - i,
        {
            let recipe = &self.recipes[i];
            let mut admitted = false;
            if self.recipe_satisfies_restrictions(recipe, profile) {
                let score = self.calculate_relevance_score(recipe, profile);
                if score > 10 {
                    admitted = true;
                    let mut p: usize = ranked.len();
                    let mut placed = false;
                    while p > 0 && !placed
                        invariant
                            p <= ranked@.len(),
                            ranked@.len() == points@.len(),
                            i < self.recipes@.len(),
                            recipe == &self.recipes@[i as int],
                            score == rule_score(recipe, profile),
                            is_ranking_of_prefix(ranked@, self.recipes@, profile, i as int),
                            forall|k: int|
                                0 <= k < ranked@.len() ==> #[trigger] points@[k] == rule_score(
                                    &self.recipes@[ranked@[k] as int],
                                    profile,
                                ),
                            placed ==> p > 0 && !recipe_beats(
                                *recipe,
                                self.recipes@[ranked@[p - 1] as int],
                                profile,
                            ),
                            forall|k: int|
                                p <= k < ranked@.len() ==> ranks_before(
                                    self.recipes@,
                                    profile,
                                    i as int,
                                    #[trigger] ranked@[k] as int,
                                ),
                        decreases p + (if placed { 0int } else { 1int }),
                    {
                        let q = ranked[p - 1];
                        let other = &self.recipes[q];
                        let ahead = score > points[p - 1] || (score == points[p - 1] && comes_before(
                            recipe.title.as_str(),
                            other.title.as_str(),
                        ));
                        if ahead {
                            p -= 1;
                        } else {
                            placed = true;
                        }
                    }
                    proof {
                        lemma_ranked_prefix_stays_ahead(
                            ranked@,
                            self.recipes@,
                            profile,
                            i,
                            p as int,
                        );
                        lemma_ranking_grows(ranked@, self.recipes@, profile, i, p as int);
                        ranked@.insert_ensures(p as int, i);
                        points@.insert_ensures(p as int, score);
                    }
                    let ghost before = ranked@;
                    let ghost points_before = points@;
                    ranked.insert(p, i);
                    points.insert(p, score);
                    assert forall|k: int| 0 <= k < ranked@.len() implies #[trigger] points@[k]
                        == rule_score(&self.recipes@[ranked@[k] as int], profile) by {
                        if k > p {
                            assert(ranked@[k] == before[k - 1]);
                            assert(points@[k] == points_before[k - 1]);
                        }
                    }
                }
            }
            proof {
                if !admitted {
                    assert(!is_admitted(self.recipes@[i as int], profile));
                }
            }
            i += 1;
        }
        let mut out: Vec<DietRecommendation> = Vec::new();
        let mut k: usize = 0;
        while k < ranked.len()
            invariant
                k <= ranked@.len(),
                out@.len() == k,
                ranked@.len() == points@.len(),
                is_ranking_of_prefix(ranked@, self.recipes@, profile, self.recipes@.len() as int),
                forall|j: int|
                    0 <= j < ranked@.len() ==> #[trigger] points@[j] == rule_score(
                        &self.recipes@[ranked@[j] as int],
                        profile,
                    ),
                forall|j: int|
                    0 <= j < k ==> is_personal_pick(
                        #[trigger] out@[j],
                        self.recipes@[ranked@[j] as int],
                        profile,
                    ),
            decreases ranked.len() - k,
        {
            let rec = self.create_recommendation_from_recipe(
                &self.recipes[ranked[k]],
                profile,
                points[k],
            );
            out.push(rec);
            k += 1;
        }
        proof {
            assert(is_personal_ranking(out@, ranked@, self.recipes@, profile));
            assert forall|j: int, k: int| 0 <= j < k < out@.len() implies !outranks(
                #[trigger] out@[k],
                #[trigger] out@[j],
            ) by {
                assert(is_personal_pick(out@[k], self.recipes@[ranked@[k] as int], profile));
                assert(is_personal_pick(out@[j], self.recipes@[ranked@[j] as int], profile));
                lemma_ranked_is_not_beaten(
                    self.recipes@,
                    profile,
                    ranked@[j] as int,
                    ranked@[k] as int,
                );
            }
            assert forall|k: int| 0 <= k < out@.len() implies 10 < (#[trigger] out@[k]).relevance_score
                <= 100 && out@[k].is_personalized by {
                assert(is_personal_pick(out@[k], self.recipes@[ranked@[k] as int], profile));
                assert(is_admitted(self.recipes@[ranked@[k] as int], profile));
            }
        }
        out
    }

    /// The default answer, for a user without a profile: the catalogue is
    /// walked once and of each of the four meal types the first three
    /// recipes are taken, twelve at most; they come out ordered by meal type,
    /// then by difficulty, then as they stand in the catalogue.
    pub fn get_default_recommendations(&self, user_id: &str) -> (out: Vec<DietRecommendation>)
        ensures
            exists|order: Seq<usize>| is_default_ranking(out@, order, self.recipes@, user_id@),
            out@.len() <= 12,
            forall|k: int|
                0 <= k < out@.len() ==> !(#[trigger] out@[k]).is_personalized
                    && out@[k].relevance_score <= 100,
    {
        let mut ranked: Vec<usize> = Vec::new();
        let mut breakfasts: usize = 0;
        let mut lunches: usize = 0;
        let mut dinners: usize = 0;
        let mut snacks: usize = 0;
        let mut i: usize = 0;
        let mut full = false;
        while i < self.recipes.len() && !full
            invariant
                i <= self.recipes@.len(),
                is_default_order(ranked@, self.recipes@, i as int),
                breakfasts == at_most_three(count_meal(self.recipes@, i as int, "breakfast"@)),
                lunches == at_most_three(count_meal(self.recipes@, i as int, "lunch"@)),
                dinners == at_most_three(count_meal(self.recipes@, i as int, "dinner"@)),
                snacks == at_most_three(count_meal(self.recipes@, i as int, "snack"@)),
                ranked@.len() == breakfasts + lunches + dinners + snacks,
                full ==> ranked@.len() >= 12,
            decreases self.recipes.len() - i + (if full { 0int } else { 1int }),
        {
            proof {
                lemma_meal_types_differ();
            }
            let recipe = &self.recipes[i];
            let meal = recipe.meal_type.as_str();
            let mut taken = false;
            if same_text(meal, "breakfast") {
                if breakfasts < 3 {
                    breakfasts += 1;
                    taken = true;
                }
            } else if same_text(meal, "lunch") {
                if lunches < 3 {
                    lunches += 1;
                    taken = true;
                }
            } else if same_text(meal, "dinner") {
                if dinners < 3 {
                    dinners += 1;
                    taken = true;
                }
            } else if same_text(meal, "snack") {
                if snacks < 3 {
                    snacks += 1;
                    taken = true;
                }
            }
            assert(taken == is_default_admitted(self.recipes@, i as int));
            if taken {
                let m = meal_rank_of(meal);
                let d = difficulty_rank_of(recipe.difficulty_level.as_str());
                let mut p: usize = ranked.len();
                let mut placed = false;
                while p > 0 && !placed
                    invariant
                        p <= ranked@.len(),
                        i < self.recipes@.len(),
                        m == meal_rank(self.recipes@[i as int].meal_type@),
                        d == difficulty_rank(self.recipes@[i as int].difficulty_level@),
                        is_default_order(ranked@, self.recipes@, i as int),
                        forall|k: int|
                            p <= k < ranked@.len() ==> default_precedes(
                                self.recipes@,
                                i as int,
                                #[trigger] ranked@[k] as int,
                            ),
                        placed ==> p > 0 && !default_precedes(
                            self.recipes@,
                            i as int,
                            ranked@[p - 1] as int,
                        ),
                    decreases p + (if placed { 0int } else { 1int }),
                {
                    let other = &self.recipes[ranked[p - 1]];
                    let om = meal_rank_of(other.meal_type.as_str());
                    let od = difficulty_rank_of(other.difficulty_level.as_str());
                    if m < om || (m == om && d < od) {
                        p -= 1;
                    } else {
                        placed = true;
                    }
                }
                proof {
                    assert forall|k: int| 0 <= k < p implies default_precedes(
                        self.recipes@,
                        #[trigger] ranked@[k] as int,
                        i as int,
                    ) by {
                        assert(ranked@[p - 1] < i);
                        assert(ranked@[k] < i);
                        if k < p - 1 {
                            assert(default_precedes(
                                self.recipes@,
                                ranked@[k] as int,
                                ranked@[p - 1] as int,
                            ));
                        }
                    }
                    lemma_default_order_grows(ranked@, self.recipes@, i, p as int);
                    ranked@.insert_ensures(p as int, i);
                }
                ranked.insert(p, i);
            }
            i += 1;
            if ranked.len() >= 12 {
                full = true;
            }
        }
        proof {
            lemma_meal_types_differ();
            assert forall|x: int|
                i <= x < self.recipes@.len() implies !#[trigger] is_default_admitted(
                self.recipes@,
                x,
            ) by {
                lemma_count_meal_grows(self.recipes@, i as int, x, self.recipes@[x].meal_type@);
            }
            assert(is_default_order(ranked@, self.recipes@, self.recipes@.len() as int));
        }
        let mut out: Vec<DietRecommendation> = Vec::new();
        let mut k: usize = 0;
        while k < ranked.len()
            invariant
                k <= ranked@.len(),
                out@.len() == k,
                is_default_order(ranked@, self.recipes@, self.recipes@.len() as int),
                forall|j: int|
                    0 <= j < k ==> is_default_pick(
                        #[trigger] out@[j],
                        self.recipes@[ranked@[j] as int],
                        user_id@,
                    ),
            decreases ranked.len() - k,
        {
            let rec = self.create_default_recommendation_from_recipe(
                &self.recipes[ranked[k]],
                user_id,
            );
            out.push(rec);
            k += 1;
        }
        proof {
            assert(is_default_ranking(out@, ranked@, self.recipes@, user_id@));
            assert forall|k: int| 0 <= k < out@.len() implies !(#[trigger] out@[k]).is_personalized
                && out@[k].relevance_score <= 100 by {
                assert(is_default_pick(out@[k], self.recipes@[ranked@[k] as int], user_id@));
            }
        }
        out
    }

    /// A default recommendation of `recipe`: its heuristic score and a
    /// description made from its difficulty and meal type, under a fresh
    /// identifier and the current time.
    pub fn create_default_recommendation_from_recipe(&self, recipe: &Recipe, user_id: &str) -> (rec:
        DietRecommendation)
        ensures
            is_default_pick(rec, *recipe, user_id@),
    {
        let level = recipe.difficulty_level.as_str();
        let meal = recipe.meal_type.as_str();
        let mut score: u32 = if same_text(level, "easy") {
            80
        } else if same_text(level, "medium") {
            60
        } else if same_text(level, "hard") {
            40
        } else {
            50
        };
        if recipe.nutritional_info_per_serving.protein > 10_000
            && recipe.nutritional_info_per_serving.fiber > 2_000 {
            score += 10;
        }
        if score > 100 {
            score = 100;
        }
        let level_word = if same_text(level, "easy") {
            "简单"
        } else if same_text(level, "medium") {
            "中等"
        } else if same_text(level, "hard") {
            "较高"
        } else {
            "适中"
        };
        let meal_word = if same_text(meal, "breakfast") {
            "早餐"
        } else if same_text(meal, "lunch") {
            "午餐"
        } else if same_text(meal, "dinner") {
            "晚餐"
        } else if same_text(meal, "snack") {
            "小食"
        } else {
            "菜品"
        };
        let description = "推荐理由：这是一道".to_owned().concat(level_word).concat("难度的").concat(
            meal_word,
        ).concat("，营养均衡，适合日常制作。");
        DietRecommendation {
            id: fresh_id(),
            user_id: user_id.to_owned(),
            title: recipe.title.clone(),
            description,
            ingredients: copy_ingredients(&recipe.ingredients),
            nutritional_info: copy_nutrition(&recipe.nutritional_info_per_serving),
            preparation_time: recipe.preparation_time,
            difficulty_level: recipe.difficulty_level.clone(),
            meal_type: recipe.meal_type.clone(),
            recipe_instructions: recipe.recipe_instructions.clone(),
            created_at: now(),
            is_personalized: false,
            relevance_score: score,
        }
    }

    /// Tells whether the recipe escapes the veto.
    pub fn recipe_satisfies_restrictions(&self, recipe: &Recipe, profile: &HealthProfile) -> (r:
        bool)
        ensures
            r == !is_vetoed(recipe, profile),
    {
        if any_tag_mentioned(&profile.dietary_restrictions, &recipe.ingredients) {
            return false;
        }
        !any_tag_mentioned(&profile.allergies, &recipe.ingredients)
    }

    /// The recipe's score under the rules.
    pub fn calculate_relevance_score(&self, recipe: &Recipe, profile: &HealthProfile) -> (score:
        u32)
        ensures
            score == rule_score(recipe, profile),
            score <= 100,
    {
        RecommendationRules::apply_rules(recipe, profile)
    }

    /// A personalized recommendation of `recipe` with the given score, under
    /// a fresh identifier and the current time.
    pub fn create_recommendation_from_recipe(
        &self,
        recipe: &Recipe,
        profile: &HealthProfile,
        relevance_score: u32,
    ) -> (rec: DietRecommendation)
        ensures
            carries(rec, *recipe),
            rec.description@ == recipe.description@,
            rec.user_id@ == profile.user_id@,
            rec.is_personalized,
            rec.relevance_score == relevance_score,
    {
        DietRecommendation {
            id: fresh_id(),
            user_id: profile.user_id.clone(),
            title: recipe.title.clone(),
            description: recipe.description.clone(),
            ingredients: copy_ingredients(&recipe.ingredients),
            nutritional_info: copy_nutrition(&recipe.nutritional_info_per_serving),
            preparation_time: recipe.preparation_time,
            difficulty_level: recipe.difficulty_level.clone(),
            meal_type: recipe.meal_type.clone(),
            recipe_instructions: recipe.recipe_instructions.clone(),
            created_at: now(),
            is_personalized: true,
            relevance_score,
        }
    }
}

} // verus!
