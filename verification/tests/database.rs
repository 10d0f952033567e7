use scx_recipes::database::{
    entry_outcome, history_filter, history_table_statements, plan_history_table, render_condition,
    render_page, render_where, Comparison, Condition, Database, HistoryTableAction,
    HistoryTableState, SqlValue, Statement,
};
use scx_recipes::AppError;

const LIST_HEAD: &str = "SELECT id, user_id, diet_item_id, date_attempted, rating, notes, was_prepared, meal_type, created_at, updated_at FROM diet_history WHERE user_id = ?1";
const COUNT_HEAD: &str = "SELECT COUNT(*) FROM diet_history WHERE user_id = ?1";
const RECIPE_HEAD: &str = "SELECT id, title, description, ingredients, nutritional_info_per_serving, preparation_time, difficulty_level, meal_type, recipe_instructions, cuisine_type, seasonal, tags, created_at, updated_at FROM recipes WHERE 1=1";

fn db() -> Database {
    Database::at("data.db")
}

fn text(s: &str) -> SqlValue {
    SqlValue::Text(s.to_string())
}

/// The highest placeholder number that a statement refers to.
fn highest_placeholder(sql: &str) -> usize {
    let mut highest = 0;
    let bytes = sql.as_bytes();
    let mut i = 0;
    while i < bytes.len() {
        if bytes[i] == b'?' {
            let mut j = i + 1;
            let mut n = 0;
            while j < bytes.len() && bytes[j].is_ascii_digit() {
                n = n * 10 + (bytes[j] - b'0') as usize;
                j += 1;
            }
            assert!(j > i + 1, "a placeholder without a number in {}", sql);
            highest = highest.max(n);
            i = j;
        } else {
            i += 1;
        }
    }
    highest
}

#[test]
fn history_list_with_every_filter() {
    let q = db().get_diet_history(
        "u1",
        Some("2024-01-01"),
        Some("2024-01-31"),
        Some(10),
        Some(20),
        Some("lunch"),
    );
    assert_eq!(
        q.sql,
        format!(
            "{} AND date_attempted >= ?2 AND date_attempted <= ?3 AND meal_type = ?4 ORDER BY date_attempted DESC LIMIT 10 OFFSET 20",
            LIST_HEAD
        )
    );
    assert_eq!(q.params, vec![text("u1"), text("2024-01-01"), text("2024-01-31"), text("lunch")]);
}

#[test]
fn history_list_without_filters() {
    let q = db().get_diet_history("u1", None, None, None, None, None);
    assert_eq!(q.sql, format!("{} ORDER BY date_attempted DESC", LIST_HEAD));
    assert_eq!(q.params, vec![text("u1")]);
}

#[test]
fn history_placeholders_follow_the_filters_that_are_present() {
    let q = db().get_diet_history("u1", None, Some("2024-01-31"), None, None, Some("snack"));
    assert_eq!(
        q.sql,
        format!(
            "{} AND date_attempted <= ?2 AND meal_type = ?3 ORDER BY date_attempted DESC",
            LIST_HEAD
        )
    );
    assert_eq!(q.params, vec![text("u1"), text("2024-01-31"), text("snack")]);

    let q = db().get_diet_history("u1", None, None, None, None, Some("snack"));
    assert_eq!(q.sql, format!("{} AND meal_type = ?2 ORDER BY date_attempted DESC", LIST_HEAD));
    assert_eq!(q.params, vec![text("u1"), text("snack")]);

    let q = db().get_diet_history("u1", Some("2024-01-01"), None, None, None, Some("snack"));
    assert_eq!(
        q.sql,
        format!(
            "{} AND date_attempted >= ?2 AND meal_type = ?3 ORDER BY date_attempted DESC",
            LIST_HEAD
        )
    );
    assert_eq!(q.params, vec![text("u1"), text("2024-01-01"), text("snack")]);
}

#[test]
fn history_page_clause() {
    assert_eq!(render_page(None, None), "");
    assert_eq!(render_page(Some(5), None), " LIMIT 5");
    assert_eq!(render_page(None, Some(7)), " LIMIT -1 OFFSET 7");
    assert_eq!(render_page(Some(0), Some(0)), " LIMIT 0 OFFSET 0");
    assert_eq!(
        render_page(Some(u32::MAX), Some(1234567890)),
        " LIMIT 4294967295 OFFSET 1234567890"
    );
    let q = db().get_diet_history("u1", None, None, None, Some(3), None);
    assert_eq!(q.sql, format!("{} ORDER BY date_attempted DESC LIMIT -1 OFFSET 3", LIST_HEAD));
}

#[test]
fn count_and_list_share_filter_and_values_for_every_combination() {
    for mask in 0..8 {
        let start = if mask & 1 != 0 { Some("2024-01-01") } else { None };
        let end = if mask & 2 != 0 { Some("2024-12-31") } else { None };
        let meal = if mask & 4 != 0 { Some("dinner") } else { None };
        let list = db().get_diet_history("u9", start, end, None, None, meal);
        let count = db().get_diet_history_count("u9", start, end, meal);
        assert_eq!(list.params, count.params);
        let filter = list
            .sql
            .strip_prefix(LIST_HEAD)
            .unwrap()
            .strip_suffix(" ORDER BY date_attempted DESC")
            .unwrap();
        assert_eq!(count.sql, format!("{}{}", COUNT_HEAD, filter));
        let present = [start, end, meal].iter().filter(|f| f.is_some()).count();
        assert_eq!(list.params.len(), 1 + present);
        assert_eq!(highest_placeholder(&list.sql), list.params.len());
        assert_eq!(highest_placeholder(&count.sql), count.params.len());
        assert_eq!(history_filter(start, end, meal).len(), present);
    }
}

#[test]
fn conditions_are_written_with_their_placeholder() {
    let one = Condition {
        column: "age".to_string(),
        also: None,
        op: Comparison::AtLeast,
        value: SqlValue::Integer(3),
    };
    assert_eq!(render_condition(&one, 12), "age >= ?12");
    let either = Condition {
        column: "a".to_string(),
        also: Some("b".to_string()),
        op: Comparison::NotLike,
        value: text("%x%"),
    };
    assert_eq!(render_condition(&either, 1), "(a NOT LIKE ?1 OR b NOT LIKE ?1)");
    let mut c = one.clone();
    c.op = Comparison::AtMost;
    assert_eq!(render_condition(&c, 0), "age <= ?0");
    c.op = Comparison::Equals;
    assert_eq!(render_condition(&c, 105), "age = ?105");
    c.op = Comparison::Like;
    assert_eq!(render_condition(&c, 9), "age LIKE ?9");
    assert_eq!(render_where(&vec![one, either], 9), " AND age >= ?9 AND (a NOT LIKE ?10 OR b NOT LIKE ?10)");
    assert_eq!(render_where(&vec![], 1), "");
}

#[test]
fn search_with_every_criterion() {
    let q = db().search_recipes(
        Some("soup"),
        Some(vec!["quick", "vegan"]),
        Some(vec!["nuts", "milk", "egg"]),
        Some(30),
        Some("easy"),
        Some("dinner"),
        Some(10),
        Some(5),
    );
    assert_eq!(
        q.sql,
        format!(
            "{} AND (title LIKE ?1 OR description LIKE ?1) AND tags LIKE ?2 AND tags LIKE ?3 AND ingredients NOT LIKE ?4 AND ingredients NOT LIKE ?5 AND ingredients NOT LIKE ?6 AND preparation_time <= ?7 AND difficulty_level = ?8 AND meal_type = ?9 ORDER BY title LIMIT 10 OFFSET 5",
            RECIPE_HEAD
        )
    );
    assert_eq!(
        q.params,
        vec![
            text("%soup%"),
            text("%quick%"),
            text("%vegan%"),
            text("%nuts%"),
            text("%milk%"),
            text("%egg%"),
            SqlValue::Integer(30),
            text("easy"),
            text("dinner"),
        ]
    );
    assert_eq!(highest_placeholder(&q.sql), q.params.len());
}

#[test]
fn search_without_criteria() {
    let q = db().search_recipes(None, None, None, None, None, None, None, None);
    assert_eq!(q.sql, format!("{} ORDER BY title", RECIPE_HEAD));
    assert!(q.params.is_empty());
    let q = db().search_recipes(None, Some(vec![]), Some(vec![]), None, None, None, None, Some(2));
    assert_eq!(q.sql, format!("{} ORDER BY title LIMIT -1 OFFSET 2", RECIPE_HEAD));
    assert!(q.params.is_empty());
}

#[test]
fn search_placeholders_follow_the_criteria_that_are_present() {
    for mask in 0..64 {
        let query = if mask & 1 != 0 { Some("a") } else { None };
        let tags = if mask & 2 != 0 { Some(vec!["t1", "t2"]) } else { None };
        let excluded = if mask & 4 != 0 { Some(vec!["x"]) } else { None };
        let minutes = if mask & 8 != 0 { Some(15) } else { None };
        let level = if mask & 16 != 0 { Some("hard") } else { None };
        let meal = if mask & 32 != 0 { Some("snack") } else { None };
        let mut want = Vec::new();
        if query.is_some() {
            want.push(text("%a%"));
        }
        if tags.is_some() {
            want.push(text("%t1%"));
            want.push(text("%t2%"));
        }
        if excluded.is_some() {
            want.push(text("%x%"));
        }
        if minutes.is_some() {
            want.push(SqlValue::Integer(15));
        }
        if level.is_some() {
            want.push(text("hard"));
        }
        if meal.is_some() {
            want.push(text("snack"));
        }
        let q = db().search_recipes(query, tags, excluded, minutes, level, meal, None, None);
        assert_eq!(q.params, want);
        assert_eq!(highest_placeholder(&q.sql), want.len());
        assert_eq!(q.sql.matches(" AND ").count(), want.len());
    }
}

#[test]
fn update_writes_only_what_is_given() {
    let q = db().update_diet_entry_at("e1", None, None, None, 1_700_000_000_000);
    assert_eq!(q.sql, "UPDATE diet_history SET updated_at = ?1 WHERE id = ?2");
    assert_eq!(q.params, vec![SqlValue::Timestamp(1_700_000_000_000), text("e1")]);

    let q = db().update_diet_entry_at("e1", Some(4), Some("fine".to_string()), Some(false), 5);
    assert_eq!(
        q.sql,
        "UPDATE diet_history SET updated_at = ?1, rating = ?2, notes = ?3, was_prepared = ?4 WHERE id = ?5"
    );
    assert_eq!(
        q.params,
        vec![
            SqlValue::Timestamp(5),
            SqlValue::Integer(4),
            text("fine"),
            SqlValue::Flag(false),
            text("e1")
        ]
    );

    let q = db().update_diet_entry_at("e1", None, Some("".to_string()), Some(true), 5);
    assert_eq!(
        q.sql,
        "UPDATE diet_history SET updated_at = ?1, notes = ?2, was_prepared = ?3 WHERE id = ?4"
    );
    assert_eq!(q.params, vec![SqlValue::Timestamp(5), text(""), SqlValue::Flag(true), text("e1")]);
}

#[test]
fn update_is_stamped_with_the_clock() {
    let before = chrono::Utc::now().timestamp_millis();
    let q = db().update_diet_entry("e1", Some(2), None, None);
    let after = chrono::Utc::now().timestamp_millis();
    assert_eq!(q.sql, "UPDATE diet_history SET updated_at = ?1, rating = ?2 WHERE id = ?3");
    assert_eq!(q.params.len(), 3);
    match q.params[0] {
        SqlValue::Timestamp(at) => assert!(before <= at && at <= after),
        _ => panic!("the first value is the time of the change"),
    }
    assert_eq!(q.params[1], SqlValue::Integer(2));
    assert_eq!(q.params[2], text("e1"));
}

#[test]
fn missing_entry_is_reported_as_not_found() {
    assert!(entry_outcome(1, "e1").is_ok());
    assert!(entry_outcome(2, "e1").is_ok());
    match entry_outcome(0, "e1") {
        Err(AppError::NotFound(msg)) => assert_eq!(msg, "Diet entry with id e1 not found"),
        other => panic!("expected not found, got {:?}", other),
    }
}

#[test]
fn single_row_statements() {
    let one = |q: Statement, sql: &str, value: &str| {
        assert_eq!(q.sql, sql);
        assert_eq!(q.params, vec![text(value)]);
    };
    one(db().delete_diet_entry("e1"), "DELETE FROM diet_history WHERE id = ?1", "e1");
    one(
        db().get_health_profile("u1"),
        "SELECT id, user_id, age, gender, weight, height, activity_level, health_goals, dietary_preferences, dietary_restrictions, allergies, created_at, updated_at FROM health_profiles WHERE user_id = ?1",
        "u1",
    );
    one(
        db().get_recommendations("u1"),
        "SELECT id, user_id, title, description, ingredients, nutritional_info, preparation_time, difficulty_level, meal_type, recipe_instructions, created_at, is_personalized, relevance_score FROM diet_recommendations WHERE user_id = ?1",
        "u1",
    );
    one(
        db().get_recommendation_by_id("r1"),
        "SELECT id, user_id, title, description, ingredients, nutritional_info, preparation_time, difficulty_level, meal_type, recipe_instructions, created_at, is_personalized, relevance_score FROM diet_recommendations WHERE id = ?1",
        "r1",
    );
    one(
        db().get_recipe_by_id("r1"),
        "SELECT id, title, description, ingredients, nutritional_info_per_serving, preparation_time, difficulty_level, meal_type, recipe_instructions, cuisine_type, seasonal, tags, created_at, updated_at FROM recipes WHERE id = ?1",
        "r1",
    );
    assert_eq!(db().path, "data.db");
}

#[test]
fn deleting_a_profile_deletes_what_depends_on_it_first() {
    let steps = db().delete_health_profile("u1");
    let sql: Vec<&str> = steps.iter().map(|s| s.sql.as_str()).collect();
    assert_eq!(
        sql,
        vec![
            "DELETE FROM diet_history WHERE user_id = ?1",
            "DELETE FROM diet_recommendations WHERE user_id = ?1",
            "DELETE FROM health_profiles WHERE user_id = ?1",
        ]
    );
    assert!(steps.iter().all(|s| s.params == vec![text("u1")]));
}

#[test]
fn history_table_is_created_rebuilt_or_kept() {
    let plan = |exists, has_foreign_key| plan_history_table(HistoryTableState { exists, has_foreign_key });
    assert_eq!(plan(false, false), HistoryTableAction::Create);
    assert_eq!(plan(false, true), HistoryTableAction::Create);
    assert_eq!(plan(true, true), HistoryTableAction::Rebuild);
    assert_eq!(plan(true, false), HistoryTableAction::Keep);

    let columns = "(id TEXT PRIMARY KEY, user_id TEXT NOT NULL, diet_item_id TEXT NOT NULL, date_attempted TEXT NOT NULL, rating INTEGER, notes TEXT, was_prepared BOOLEAN NOT NULL, meal_type TEXT NOT NULL, created_at TEXT NOT NULL, updated_at TEXT NOT NULL)";
    assert!(history_table_statements(HistoryTableAction::Keep).is_empty());
    assert_eq!(
        history_table_statements(HistoryTableAction::Create),
        vec![format!("CREATE TABLE diet_history {}", columns)]
    );
    assert_eq!(
        history_table_statements(HistoryTableAction::Rebuild),
        vec![
            format!("CREATE TABLE diet_history_new {}", columns),
            "INSERT INTO diet_history_new SELECT * FROM diet_history".to_string(),
            "DROP TABLE diet_history".to_string(),
            "ALTER TABLE diet_history_new RENAME TO diet_history".to_string(),
        ]
    );
    assert!(!columns.contains("FOREIGN KEY") && !columns.contains("REFERENCES"));
}

#[test]
fn opening_the_store_twice_needs_nothing_the_second_time() {
    for exists in [false, true] {
        for has_foreign_key in [false, true] {
            let first = plan_history_table(HistoryTableState { exists, has_foreign_key });
            let after = match first {
                HistoryTableAction::Keep => HistoryTableState { exists, has_foreign_key },
                _ => HistoryTableState { exists: true, has_foreign_key: false },
            };
            assert_eq!(plan_history_table(after), HistoryTableAction::Keep);
        }
    }
}

#[test]
fn saving_a_profile_binds_every_field_in_column_order() {
    let profile = scx_recipes::models::HealthProfile {
        id: uuid::Uuid::new_v4(),
        user_id: "u1".to_string(),
        age: 33,
        gender: "female".to_string(),
        weight: 61_500,
        height: 168_000,
        activity_level: "active".to_string(),
        health_goals: vec!["maintain".to_string(), "muscle_gain".to_string()],
        dietary_preferences: vec![],
        dietary_restrictions: vec!["pork \"belly\"".to_string()],
        allergies: vec!["nuts".to_string()],
        created_at: 1_000,
        updated_at: 2_000,
    };
    let q = db().save_health_profile(&profile).unwrap();
    assert!(q.sql.starts_with("INSERT INTO health_profiles (id, user_id, age, gender, weight, height, activity_level, health_goals, dietary_preferences, dietary_restrictions, allergies, created_at, updated_at) VALUES (?1, ?2, ?3, ?4, ?5, ?6, ?7, ?8, ?9, ?10, ?11, ?12, ?13) ON CONFLICT(user_id) DO UPDATE SET age=excluded.age,"));
    assert!(q.sql.ends_with("allergies=excluded.allergies, updated_at=excluded.updated_at"));
    assert!(!q.sql.contains("created_at=excluded") && !q.sql.contains(" id=excluded"));
    assert_eq!(
        q.params,
        vec![
            SqlValue::Id(profile.id),
            text("u1"),
            SqlValue::Integer(33),
            text("female"),
            SqlValue::Thousandths(61_500),
            SqlValue::Thousandths(168_000),
            text("active"),
            text("[\"maintain\",\"muscle_gain\"]"),
            text("[]"),
            text("[\"pork \\\"belly\\\"\"]"),
            text("[\"nuts\"]"),
            SqlValue::Timestamp(1_000),
            SqlValue::Timestamp(2_000),
        ]
    );
    assert_eq!(highest_placeholder(&q.sql), q.params.len());
}

#[test]
fn logging_an_entry_binds_absent_values_as_null() {
    let mut entry = scx_recipes::models::DietHistory {
        id: uuid::Uuid::new_v4(),
        user_id: "u1".to_string(),
        diet_item_id: uuid::Uuid::new_v4(),
        date_attempted: scx_recipes::outside::CalendarDate { year: 2024, month: 2, day: 9 },
        rating: None,
        notes: None,
        was_prepared: true,
        meal_type: "dinner".to_string(),
        created_at: 7,
        updated_at: 8,
    };
    let q = db().log_diet_entry(&entry);
    assert_eq!(q.sql, "INSERT INTO diet_history (id, user_id, diet_item_id, date_attempted, rating, notes, was_prepared, meal_type, created_at, updated_at) VALUES (?1, ?2, ?3, ?4, ?5, ?6, ?7, ?8, ?9, ?10)");
    assert_eq!(
        q.params,
        vec![
            SqlValue::Id(entry.id),
            text("u1"),
            SqlValue::Id(entry.diet_item_id),
            SqlValue::Day(entry.date_attempted),
            SqlValue::Null,
            SqlValue::Null,
            SqlValue::Flag(true),
            text("dinner"),
            SqlValue::Timestamp(7),
            SqlValue::Timestamp(8),
        ]
    );
    entry.rating = Some(5);
    entry.notes = Some("good".to_string());
    let q = db().log_diet_entry(&entry);
    assert_eq!(q.params[4], SqlValue::Integer(5));
    assert_eq!(q.params[5], text("good"));
    assert_eq!(highest_placeholder(&q.sql), q.params.len());
}

#[test]
fn saving_a_recipe_binds_every_field_in_column_order() {
    let recipe = scx_recipes::models::Recipe {
        id: uuid::Uuid::new_v4(),
        title: "Soup".to_string(),
        description: "Warm".to_string(),
        ingredients: vec![],
        nutritional_info_per_serving: scx_recipes::models::NutritionalInfo {
            calories: 100_000,
            protein: 0,
            carbs: 0,
            fat: 0,
            fiber: 0,
        },
        preparation_time: 20,
        difficulty_level: "easy".to_string(),
        meal_type: "dinner".to_string(),
        recipe_instructions: "Boil.".to_string(),
        cuisine_type: None,
        seasonal: true,
        tags: vec!["quick".to_string()],
        created_at: 1,
        updated_at: 2,
    };
    let q = db().save_recipe(&recipe, "[]", "{\"calories\":100.0}").unwrap();
    assert_eq!(q.sql, "INSERT INTO recipes (id, title, description, ingredients, nutritional_info_per_serving, preparation_time, difficulty_level, meal_type, recipe_instructions, cuisine_type, seasonal, tags, created_at, updated_at) VALUES (?1, ?2, ?3, ?4, ?5, ?6, ?7, ?8, ?9, ?10, ?11, ?12, ?13, ?14)");
    assert_eq!(
        q.params,
        vec![
            SqlValue::Id(recipe.id),
            text("Soup"),
            text("Warm"),
            text("[]"),
            text("{\"calories\":100.0}"),
            SqlValue::Integer(20),
            text("easy"),
            text("dinner"),
            text("Boil."),
            SqlValue::Null,
            SqlValue::Flag(true),
            text("[\"quick\"]"),
            SqlValue::Timestamp(1),
            SqlValue::Timestamp(2),
        ]
    );
}

#[test]
fn schema_declares_no_key_on_the_history() {
    let steps = scx_recipes::database::schema_statements();
    assert_eq!(steps.len(), 4);
    assert_eq!(steps[0], "PRAGMA foreign_keys = ON");
    assert!(steps[1].starts_with("CREATE TABLE IF NOT EXISTS health_profiles (id TEXT PRIMARY KEY, user_id TEXT NOT NULL UNIQUE,"));
    assert!(steps[2].starts_with("CREATE TABLE IF NOT EXISTS diet_recommendations ("));
    assert!(steps[3].starts_with("CREATE TABLE IF NOT EXISTS recipes ("));
    assert!(steps.iter().all(|s| !s.contains("diet_history")));
}

#[test]
fn profile_row_is_read_when_its_lists_are_json() {
    let id = uuid::Uuid::new_v4();
    let row = |goals: &str, allergies: &str| scx_recipes::database::ProfileRow {
        id,
        user_id: "u1".to_string(),
        age: 41,
        gender: "male".to_string(),
        weight: 80_250,
        height: 181_000,
        activity_level: "light".to_string(),
        health_goals: goals.to_string(),
        dietary_preferences: "[]".to_string(),
        dietary_restrictions: " [ \"a b\" , \"\\u00e9\" ] ".to_string(),
        allergies: allergies.to_string(),
        created_at: 10,
        updated_at: 20,
    };
    let p = scx_recipes::database::profile_from_row(row("[\"maintain\"]", "[\"nuts\",\"soy\"]"))
        .unwrap();
    assert_eq!(p.id, id);
    assert_eq!(p.user_id, "u1");
    assert_eq!(p.age, 41);
    assert_eq!(p.gender, "male");
    assert_eq!(p.weight, 80_250);
    assert_eq!(p.height, 181_000);
    assert_eq!(p.activity_level, "light");
    assert_eq!(p.health_goals, vec!["maintain"]);
    assert!(p.dietary_preferences.is_empty());
    assert_eq!(p.dietary_restrictions, vec!["a b", "é"]);
    assert_eq!(p.allergies, vec!["nuts", "soy"]);
    assert_eq!((p.created_at, p.updated_at), (10, 20));

    for (goals, allergies) in [("maintain", "[]"), ("[]", "[1]"), ("[\"a\"", "[]"), ("", "[]"), ("{}", "[]")] {
        match scx_recipes::database::profile_from_row(row(goals, allergies)) {
            Err(AppError::Database(msg)) => assert!(!msg.is_empty()),
            other => panic!("expected a failure of the store, got {:?}", other),
        }
    }
}

#[test]
fn saving_succeeds_for_every_list_of_tags() {
    let mut profile = scx_recipes::models::HealthProfile::new("u1".to_string());
    assert!(db().save_health_profile(&profile).is_ok());
    profile.health_goals = vec!["".to_string(), "\u{0}\u{1f}\"\\\n".to_string(), "汤 é".to_string()];
    profile.allergies = (0..2000).map(|i| format!("tag {}", i)).collect();
    let q = db().save_health_profile(&profile).unwrap();
    assert_eq!(q.params[7], text("[\"\",\"\\u0000\\u001f\\\"\\\\\\n\",\"汤 é\"]"));
    let back: Vec<String> = match &q.params[10] {
        SqlValue::Text(json) => serde_json::from_str(json).unwrap(),
        other => panic!("expected text, got {:?}", other),
    };
    assert_eq!(back, profile.allergies);
}
