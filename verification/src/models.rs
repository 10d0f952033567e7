//! The stored entities and the rules that each must meet before it is saved.

use vstd::prelude::*;
use vstd::string::*;
use crate::AppError;
use crate::AppResult;
use crate::outside::{fresh_id, now, today, CalendarDate};
use crate::text::{has_tag, same_text, texts};

verus! {

/// A user's health and dietary attributes. `weight` is in grams and `height`
/// in thousandths of a centimetre; the two timestamps are milliseconds since
/// the Unix epoch.
#[derive(Debug, Clone)]
pub struct HealthProfile {
    pub id: uuid::Uuid,
    pub user_id: String,
    pub age: u32,
    pub gender: String,
    pub weight: u64,
    pub height: u64,
    pub activity_level: String,
    pub health_goals: Vec<String>,
    pub dietary_preferences: Vec<String>,
    pub dietary_restrictions: Vec<String>,
    pub allergies: Vec<String>,
    pub created_at: i64,
    pub updated_at: i64,
}

/// Whether `tags[i]` is the first tag of `tags` that `prefs` holds too.
pub open spec fn is_first_shared(tags: Seq<String>, prefs: Seq<String>, i: int) -> bool {
    &&& 0 <= i < tags.len()
    &&& texts(prefs).contains(tags[i]@)
    &&& forall|k: int| 0 <= k < i ==> !texts(prefs).contains(#[trigger] tags[k]@)
}

/// Whether some tag of `tags` is also held by `prefs`.
pub open spec fn shares_tag(tags: Seq<String>, prefs: Seq<String>) -> bool {
    exists|i: int| 0 <= i < tags.len() && texts(prefs).contains(#[trigger] tags[i]@)
}

/// Finds the first tag of `tags` that `prefs` holds too.
pub fn find_shared(tags: &Vec<String>, prefs: &Vec<String>) -> (found: Option<usize>)
    ensures
        found is Some <==> shares_tag(tags@, prefs@),
        found matches Some(i) ==> is_first_shared(tags@, prefs@, i as int),
{
    let mut i: usize = 0;
    while i < tags.len()
        invariant
            i <= tags.len(),
            forall|k: int| 0 <= k < i ==> !texts(prefs@).contains(#[trigger] tags@[k]@),
        decreases tags.len() - i,
    {
        if has_tag(prefs, tags[i].as_str()) {
            return Some(i);
        }
        i += 1;
    }
    None
}

impl HealthProfile {
    /// A profile for `user_id` with nothing filled in yet: a fresh identifier,
    /// the current time in both timestamps, no tags, and an age, weight and
    /// height of zero, which `validate` rejects until they are set.
    pub fn new(user_id: String) -> (p: HealthProfile)
        ensures
            p.user_id == user_id,
            p.age == 0 && p.weight == 0 && p.height == 0,
            p.gender@ == "prefer_not_to_say"@,
            p.activity_level@ == "moderate"@,
            p.health_goals@.len() == 0,
            p.dietary_preferences@.len() == 0,
            p.dietary_restrictions@.len() == 0,
            p.allergies@.len() == 0,
            p.created_at == p.updated_at,
            !p.is_valid(),
    {
        let at = now();
        HealthProfile {
            id: fresh_id(),
            user_id,
            age: 0,
            gender: "prefer_not_to_say".to_owned(),
            weight: 0,
            height: 0,
            activity_level: "moderate".to_owned(),
            health_goals: Vec::new(),
            dietary_preferences: Vec::new(),
            dietary_restrictions: Vec::new(),
            allergies: Vec::new(),
            created_at: at,
            updated_at: at,
        }
    }

    pub open spec fn age_in_range(&self) -> bool {
        18 <= self.age <= 120
    }

    /// The profile's invariant: an adult age, a positive weight and height,
    /// and no preferred tag that is also a restriction or an allergy.
    pub open spec fn is_valid(&self) -> bool {
        &&& self.age_in_range()
        &&& self.weight > 0
        &&& self.height > 0
        &&& !shares_tag(self.dietary_restrictions@, self.dietary_preferences@)
        &&& !shares_tag(self.allergies@, self.dietary_preferences@)
    }

    /// Whether `msg` reports the first rule that the profile breaks, the
    /// rules taken in the order of `is_valid`.
    pub open spec fn is_complaint(&self, msg: Seq<char>) -> bool {
        if !self.age_in_range() {
            msg == "Age must be between 18 and 120"@
        } else if self.weight == 0 {
            msg == "Weight must be positive"@
        } else if self.height == 0 {
            msg == "Height must be positive"@
        } else if shares_tag(self.dietary_restrictions@, self.dietary_preferences@) {
            exists|i: int| #[trigger]
                is_first_shared(self.dietary_restrictions@, self.dietary_preferences@, i) && msg
                    == "Dietary restriction '"@ + self.dietary_restrictions@[i]@
                    + "' cannot be in preferences"@
        } else if shares_tag(self.allergies@, self.dietary_preferences@) {
            exists|i: int| #[trigger]
                is_first_shared(self.allergies@, self.dietary_preferences@, i) && msg == "Allergy '"@
                    + self.allergies@[i]@ + "' cannot be in preferences"@
        } else {
            false
        }
    }

    /// Accepts the profile exactly when it meets its invariant; otherwise the
    /// error is a validation failure that names the first broken rule.
    pub fn validate(&self) -> (r: AppResult<()>)
        ensures
            r is Ok <==> self.is_valid(),
            r matches Err(e) ==> e is Validation && self.is_complaint(e.detail()),
    {
        if self.age < 18 || self.age > 120 {
            return Err(AppError::validation("Age must be between 18 and 120"));
        }
        if self.weight == 0 {
            return Err(AppError::validation("Weight must be positive"));
        }
        if self.height == 0 {
            return Err(AppError::validation("Height must be positive"));
        }
        match find_shared(&self.dietary_restrictions, &self.dietary_preferences) {
            Some(i) => {
                let msg = "Dietary restriction '".to_owned().concat(
                    self.dietary_restrictions[i].as_str(),
                ).concat("' cannot be in preferences");
                assert(is_first_shared(
                    self.dietary_restrictions@,
                    self.dietary_preferences@,
                    i as int,
                ));
                return Err(AppError::validation(msg.as_str()));
            },
            None => {},
        }
        match find_shared(&self.allergies, &self.dietary_preferences) {
            Some(i) => {
                let msg = "Allergy '".to_owned().concat(self.allergies[i].as_str()).concat(
                    "' cannot be in preferences",
                );
                assert(is_first_shared(self.allergies@, self.dietary_preferences@, i as int));
                return Err(AppError::validation(msg.as_str()));
            },
            None => {},
        }
        Ok(())
    }
}

/// An ingredient of a recommendation; `amount` is in thousandths of `unit`.
#[derive(Debug, Clone)]
pub struct Ingredient {
    pub name: String,
    pub amount: u64,
    pub unit: String,
}

/// Nutritional totals of one serving: `calories` in thousandths of a
/// kilocalorie, the others in milligrams.
#[derive(Debug, Clone, Copy, PartialEq, Eq, Structural)]
pub struct NutritionalInfo {
    pub calories: u64,
    pub protein: u64,
    pub carbs: u64,
    pub fat: u64,
    pub fiber: u64,
}

/// A scored recipe as it is handed to a user. `relevance_score` is in
/// hundredths, from 0 to 100; `preparation_time` in minutes.
#[derive(Debug, Clone)]
pub struct DietRecommendation {
    pub id: uuid::Uuid,
    pub user_id: String,
    pub title: String,
    pub description: String,
    pub ingredients: Vec<Ingredient>,
    pub nutritional_info: NutritionalInfo,
    pub preparation_time: u32,
    pub difficulty_level: String,
    pub meal_type: String,
    pub recipe_instructions: String,
    pub created_at: i64,
    pub is_personalized: bool,
    pub relevance_score: u32,
}

/// One attempt at a meal, logged by a user.
#[derive(Debug, Clone)]
pub struct DietHistory {
    pub id: uuid::Uuid,
    pub user_id: String,
    pub diet_item_id: uuid::Uuid,
    pub date_attempted: CalendarDate,
    pub rating: Option<u8>,
    pub notes: Option<String>,
    pub was_prepared: bool,
    pub meal_type: String,
    pub created_at: i64,
    pub updated_at: i64,
}

impl DietHistory {
    /// Whether the rating, if there is one, is a number of stars from 1 to 5.
    pub open spec fn rating_in_range(&self) -> bool {
        self.rating matches Some(stars) ==> 1 <= stars <= 5
    }

    /// The entry's invariant on the day `today`: a rating in range and a date
    /// that is not in the future.
    pub open spec fn is_valid_on(&self, today: CalendarDate) -> bool {
        self.rating_in_range() && !self.date_attempted.is_after(today)
    }

    /// Whether `msg` reports the first rule that the entry breaks on `today`.
    pub open spec fn is_complaint_on(&self, today: CalendarDate, msg: Seq<char>) -> bool {
        if !self.rating_in_range() {
            msg == "Rating must be between 1 and 5"@
        } else if self.date_attempted.is_after(today) {
            msg == "Date must not be in the future"@
        } else {
            false
        }
    }

    /// Accepts the entry exactly when it meets its invariant on `today`.
    pub fn validate_on(&self, today: &CalendarDate) -> (r: AppResult<()>)
        ensures
            r is Ok <==> self.is_valid_on(*today),
            r matches Err(e) ==> e is Validation && self.is_complaint_on(*today, e.detail()),
    {
        match self.rating {
            Some(stars) => {
                if stars < 1 || stars > 5 {
                    return Err(AppError::validation("Rating must be between 1 and 5"));
                }
            },
            None => {},
        }
        if self.date_attempted.later_than(today) {
            return Err(AppError::validation("Date must not be in the future"));
        }
        Ok(())
    }

    /// Validates the entry against the local calendar's current day: there
    /// is a day of the calendar on which the entry is accepted exactly when
    /// it meets its invariant, and is otherwise rejected with the complaint
    /// of that day. So an entry whose rating is out of range is rejected
    /// whatever the day is, and one that is accepted has a rating in range.
    pub fn validate(&self) -> (r: AppResult<()>)
        ensures
            exists|day: CalendarDate| #[trigger]
                day.in_calendar_range() && (r is Ok <==> self.is_valid_on(day)) && (r matches Err(
                    e,
                ) ==> e is Validation && self.is_complaint_on(day, e.detail())),
            !self.rating_in_range() ==> (r matches Err(e) && e is Validation && e.detail()
                == "Rating must be between 1 and 5"@),
            r is Ok ==> self.rating_in_range(),
            r matches Err(e) ==> e is Validation,
    {
        let day = today();
        let r = self.validate_on(&day);
        assert(day.in_calendar_range() && (r is Ok <==> self.is_valid_on(day)) && (r matches Err(
            e,
        ) ==> e is Validation && self.is_complaint_on(day, e.detail())));
        r
    }
}

/// An ingredient of a stored recipe; `amount` is in thousandths of `unit`.
#[derive(Debug, Clone)]
pub struct RecipeIngredient {
    pub name: String,
    pub amount: u64,
    pub unit: String,
    pub optional: bool,
}

/// A recipe of the stored catalogue.
#[derive(Debug, Clone)]
pub struct Recipe {
    pub id: uuid::Uuid,
    pub title: String,
    pub description: String,
    pub ingredients: Vec<RecipeIngredient>,
    pub nutritional_info_per_serving: NutritionalInfo,
    pub preparation_time: u32,
    pub difficulty_level: String,
    pub meal_type: String,
    pub recipe_instructions: String,
    pub cuisine_type: Option<String>,
    pub seasonal: bool,
    pub tags: Vec<String>,
    pub created_at: i64,
    pub updated_at: i64,
}

/// Whether `level` is one of the three difficulty levels.
pub open spec fn is_difficulty(level: Seq<char>) -> bool {
    level == "easy"@ || level == "medium"@ || level == "hard"@
}

/// Whether `meal` is one of the four meal types.
pub open spec fn is_meal_type(meal: Seq<char>) -> bool {
    meal == "breakfast"@ || meal == "lunch"@ || meal == "dinner"@ || meal == "snack"@
}

impl Recipe {
    /// The recipe's invariant: positive calories and preparation time, a
    /// known difficulty level and a known meal type.
    pub open spec fn is_valid(&self) -> bool {
        &&& self.nutritional_info_per_serving.calories > 0
        &&& self.preparation_time > 0
        &&& is_difficulty(self.difficulty_level@)
        &&& is_meal_type(self.meal_type@)
    }

    /// Whether `msg` reports the first rule that the recipe breaks.
    pub open spec fn is_complaint(&self, msg: Seq<char>) -> bool {
        if self.nutritional_info_per_serving.calories == 0 {
            msg == "Calories must be positive"@
        } else if self.preparation_time == 0 {
            msg == "Preparation time must be positive"@
        } else if !is_difficulty(self.difficulty_level@) {
            msg == "Invalid difficulty level"@
        } else if !is_meal_type(self.meal_type@) {
            msg == "Invalid meal type"@
        } else {
            false
        }
    }

    /// Accepts the recipe exactly when it meets its invariant; otherwise the
    /// error is a validation failure that names the first broken rule.
    pub fn validate(&self) -> (r: AppResult<()>)
        ensures
            r is Ok <==> self.is_valid(),
            r matches Err(e) ==> e is Validation && self.is_complaint(e.detail()),
    {
        if self.nutritional_info_per_serving.calories == 0 {
            return Err(AppError::validation("Calories must be positive"));
        }
        if self.preparation_time == 0 {
            return Err(AppError::validation("Preparation time must be positive"));
        }
        let level = self.difficulty_level.as_str();
        if !(same_text(level, "easy") || same_text(level, "medium") || same_text(level, "hard")) {
            return Err(AppError::validation("Invalid difficulty level"));
        }
        let meal = self.meal_type.as_str();
        if !(same_text(meal, "breakfast") || same_text(meal, "lunch") || same_text(meal, "dinner")
            || same_text(meal, "snack")) {
            return Err(AppError::validation("Invalid meal type"));
        }
        Ok(())
    }
}

/// The price band of a restaurant.
#[derive(Debug, Clone, Copy, PartialEq, Eq, Structural)]
pub enum PriceRange {
    Budget,
    Moderate,
    Upscale,
    Luxury,
}

/// The kind of shop that sells ingredients.
#[derive(Debug, Clone, Copy, PartialEq, Eq, Structural)]
pub enum StoreType {
    Supermarket,
    Market,
    SpecialtyStore,
    OnlineGrocery,
}

/// The price level of a shop.
#[derive(Debug, Clone, Copy, PartialEq, Eq, Structural)]
pub enum PriceLevel {
    Low,
    Medium,
    High,
}

/// What a location-based recommendation proposes.
#[derive(Debug, Clone, Copy, PartialEq, Eq, Structural)]
pub enum LbsRecommendationType {
    DineOut,
    OrderDelivery,
    BuyIngredients,
    Mixed,
}

} // verus!
