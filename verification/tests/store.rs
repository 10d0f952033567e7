use chrono::{DateTime, NaiveDate, Utc};
use rusqlite::types::Value;
use rusqlite::{params_from_iter, Connection};
use scx_recipes::database::{
    entry_outcome, history_table_statements, plan_history_table, profile_from_row,
    schema_statements, Database, HistoryTableAction, HistoryTableState, ProfileRow, SqlValue,
    Statement,
};
use scx_recipes::models::{DietHistory, HealthProfile, NutritionalInfo, Recipe};
use scx_recipes::outside::CalendarDate;
use uuid::Uuid;

fn bound(value: &SqlValue) -> Value {
    match value {
        SqlValue::Null => Value::Null,
        SqlValue::Text(text) => Value::Text(text.clone()),
        SqlValue::Integer(n) => Value::Integer(*n),
        SqlValue::Flag(flag) => Value::Integer(i64::from(*flag)),
        SqlValue::Timestamp(millis) => {
            Value::Text(DateTime::<Utc>::from_timestamp_millis(*millis).unwrap().to_rfc3339())
        }
        SqlValue::Id(id) => Value::Text(id.to_string()),
        SqlValue::Day(day) => Value::Text(
            NaiveDate::from_ymd_opt(day.year, day.month, day.day)
                .unwrap()
                .format("%Y-%m-%d")
                .to_string(),
        ),
        SqlValue::Thousandths(n) => Value::Real(*n as f64 / 1000.0),
    }
}

fn run(conn: &Connection, statement: &Statement) -> usize {
    conn.execute(&statement.sql, params_from_iter(statement.params.iter().map(bound))).unwrap()
}

fn first_column(conn: &Connection, statement: &Statement) -> Vec<String> {
    let mut prepared = conn.prepare(&statement.sql).unwrap();
    let rows = prepared
        .query_map(params_from_iter(statement.params.iter().map(bound)), |row| {
            row.get::<_, String>(0)
        })
        .unwrap();
    rows.map(|r| r.unwrap()).collect()
}

fn number(conn: &Connection, sql: &str) -> i64 {
    conn.query_row(sql, [], |row| row.get(0)).unwrap()
}

fn table_state(conn: &Connection) -> HistoryTableState {
    let exists =
        number(conn, "SELECT COUNT(*) FROM sqlite_master WHERE type='table' AND name='diet_history'")
            > 0;
    let has_foreign_key =
        exists && number(conn, "SELECT COUNT(*) FROM pragma_foreign_key_list('diet_history')") > 0;
    HistoryTableState { exists, has_foreign_key }
}

fn bring_up_to_date(conn: &Connection) -> HistoryTableAction {
    let action = plan_history_table(table_state(conn));
    let tx = conn.unchecked_transaction().unwrap();
    for sql in history_table_statements(action) {
        tx.execute(&sql, []).unwrap();
    }
    tx.commit().unwrap();
    action
}

fn open() -> Connection {
    let conn = Connection::open_in_memory().unwrap();
    for sql in schema_statements() {
        conn.execute(&sql, []).unwrap();
    }
    bring_up_to_date(&conn);
    conn
}

fn db() -> Database {
    Database::at(":memory:")
}

fn profile(user_id: &str) -> HealthProfile {
    HealthProfile {
        id: Uuid::new_v4(),
        user_id: user_id.to_string(),
        age: 33,
        gender: "female".to_string(),
        weight: 61_500,
        height: 168_000,
        activity_level: "active".to_string(),
        health_goals: vec!["maintain".to_string()],
        dietary_preferences: vec!["vegetarian".to_string(), "low_carb".to_string()],
        dietary_restrictions: vec![],
        allergies: vec!["nuts".to_string()],
        created_at: 1_700_000_000_000,
        updated_at: 1_700_000_000_123,
    }
}

fn entry(user_id: &str, day: u32, meal: &str) -> DietHistory {
    DietHistory {
        id: Uuid::new_v4(),
        user_id: user_id.to_string(),
        diet_item_id: Uuid::new_v4(),
        date_attempted: CalendarDate { year: 2024, month: 3, day },
        rating: Some(3),
        notes: None,
        was_prepared: false,
        meal_type: meal.to_string(),
        created_at: 1_700_000_000_000,
        updated_at: 1_700_000_000_000,
    }
}

fn add_recommendation(conn: &Connection, user_id: &str) {
    conn.execute(
        "INSERT INTO diet_recommendations (id, user_id, title, description, ingredients, nutritional_info, preparation_time, difficulty_level, meal_type, recipe_instructions, created_at, is_personalized, relevance_score) VALUES (?1, ?2, 't', 'd', '[]', '{}', 10, 'easy', 'lunch', 'i', '2024-01-01T00:00:00+00:00', 1, 0.5)",
        [Uuid::new_v4().to_string(), user_id.to_string()],
    )
    .unwrap();
}

fn rows_of(conn: &Connection, user_id: &str) -> (i64, i64, i64) {
    let count = |table: &str| {
        conn.query_row(
            &format!("SELECT COUNT(*) FROM {} WHERE user_id = ?1", table),
            [user_id],
            |row| row.get::<_, i64>(0),
        )
        .unwrap()
    };
    (count("health_profiles"), count("diet_history"), count("diet_recommendations"))
}

#[test]
fn count_equals_length_of_list_for_every_filter() {
    let conn = open();
    let meals = ["breakfast", "lunch", "dinner", "snack"];
    for day in 1..=20 {
        run(&conn, &db().log_diet_entry(&entry("u1", day, meals[(day % 4) as usize])));
    }
    run(&conn, &db().log_diet_entry(&entry("u2", 5, "lunch")));
    for mask in 0..8 {
        let start = if mask & 1 != 0 { Some("2024-03-05") } else { None };
        let end = if mask & 2 != 0 { Some("2024-03-12") } else { None };
        let meal = if mask & 4 != 0 { Some("lunch") } else { None };
        let list = first_column(&conn, &db().get_diet_history("u1", start, end, None, None, meal));
        let count_statement = db().get_diet_history_count("u1", start, end, meal);
        let count: i64 = conn
            .query_row(
                &count_statement.sql,
                params_from_iter(count_statement.params.iter().map(bound)),
                |row| row.get(0),
            )
            .unwrap();
        assert_eq!(count as usize, list.len());
        let expected = (1..=20u32)
            .filter(|d| start.is_none() || *d >= 5)
            .filter(|d| end.is_none() || *d <= 12)
            .filter(|d| meal.is_none() || d % 4 == 1)
            .count();
        assert_eq!(list.len(), expected);
    }
}

#[test]
fn history_comes_latest_first_and_in_pages() {
    let conn = open();
    for day in [3, 9, 1, 7, 5] {
        run(&conn, &db().log_diet_entry(&entry("u1", day, "lunch")));
    }
    let days = |limit, offset| {
        let q = db().get_diet_history("u1", None, None, limit, offset, None);
        let mut prepared = conn.prepare(&q.sql).unwrap();
        let rows = prepared
            .query_map(params_from_iter(q.params.iter().map(bound)), |row| {
                row.get::<_, String>(3)
            })
            .unwrap();
        rows.map(|r| r.unwrap()).collect::<Vec<String>>()
    };
    assert_eq!(
        days(None, None),
        vec!["2024-03-09", "2024-03-07", "2024-03-05", "2024-03-03", "2024-03-01"]
    );
    assert_eq!(days(Some(2), None), vec!["2024-03-09", "2024-03-07"]);
    assert_eq!(days(Some(2), Some(1)), vec!["2024-03-07", "2024-03-05"]);
    assert_eq!(days(None, Some(3)), vec!["2024-03-03", "2024-03-01"]);
    assert!(days(Some(0), None).is_empty());
}

#[test]
fn saved_profile_is_read_back_field_for_field() {
    let conn = open();
    let p = profile("u1");
    assert_eq!(run(&conn, &db().save_health_profile(&p).unwrap()), 1);
    let q = db().get_health_profile("u1");
    let read = |conn: &Connection| {
        conn.query_row(&q.sql, params_from_iter(q.params.iter().map(bound)), |row| {
            Ok((
                row.get::<_, String>(0)?,
                row.get::<_, String>(1)?,
                row.get::<_, u32>(2)?,
                row.get::<_, String>(3)?,
                row.get::<_, f64>(4)?,
                row.get::<_, f64>(5)?,
                row.get::<_, String>(6)?,
                [
                    row.get::<_, String>(7)?,
                    row.get::<_, String>(8)?,
                    row.get::<_, String>(9)?,
                    row.get::<_, String>(10)?,
                ],
                row.get::<_, String>(11)?,
                row.get::<_, String>(12)?,
            ))
        })
        .unwrap()
    };
    let lists = |row: &[String; 4]| -> Vec<Vec<String>> {
        row.iter().map(|text| serde_json::from_str(text).unwrap()).collect()
    };
    let millis = |text: &str| DateTime::parse_from_rfc3339(text).unwrap().timestamp_millis();

    let row = read(&conn);
    let back = profile_from_row(ProfileRow {
        id: Uuid::parse_str(&row.0).unwrap(),
        user_id: row.1.clone(),
        age: row.2,
        gender: row.3.clone(),
        weight: (row.4 * 1000.0).round() as u64,
        height: (row.5 * 1000.0).round() as u64,
        activity_level: row.6.clone(),
        health_goals: row.7[0].clone(),
        dietary_preferences: row.7[1].clone(),
        dietary_restrictions: row.7[2].clone(),
        allergies: row.7[3].clone(),
        created_at: millis(&row.8),
        updated_at: millis(&row.9),
    })
    .unwrap();
    assert_eq!(back.id, p.id);
    assert_eq!(back.user_id, p.user_id);
    assert_eq!(back.age, p.age);
    assert_eq!(back.gender, p.gender);
    assert_eq!(back.weight, p.weight);
    assert_eq!(back.height, p.height);
    assert_eq!(back.activity_level, p.activity_level);
    assert_eq!(back.health_goals, p.health_goals);
    assert_eq!(back.dietary_preferences, p.dietary_preferences);
    assert_eq!(back.dietary_restrictions, p.dietary_restrictions);
    assert_eq!(back.allergies, p.allergies);
    assert_eq!(back.created_at, p.created_at);
    assert_eq!(back.updated_at, p.updated_at);
    assert_eq!(row.0, p.id.to_string());
    assert_eq!(row.1, "u1");
    assert_eq!(row.2, 33);
    assert_eq!(row.3, "female");
    assert_eq!((row.4 * 1000.0).round() as u64, p.weight);
    assert_eq!((row.5 * 1000.0).round() as u64, p.height);
    assert_eq!(row.6, "active");
    assert_eq!(
        lists(&row.7),
        vec![
            p.health_goals.clone(),
            p.dietary_preferences.clone(),
            p.dietary_restrictions.clone(),
            p.allergies.clone()
        ]
    );
    assert_eq!(millis(&row.8), p.created_at);
    assert_eq!(millis(&row.9), p.updated_at);

    let mut changed = profile("u1");
    changed.age = 34;
    changed.weight = 60_000;
    changed.health_goals = vec!["weight_loss".to_string()];
    changed.created_at = 1_800_000_000_000;
    changed.updated_at = 1_800_000_000_000;
    run(&conn, &db().save_health_profile(&changed).unwrap());
    assert_eq!(rows_of(&conn, "u1").0, 1);
    let row = read(&conn);
    assert_eq!(row.0, p.id.to_string());
    assert_eq!(row.2, 34);
    assert_eq!((row.4 * 1000.0).round() as u64, 60_000);
    assert_eq!(lists(&row.7)[0], vec!["weight_loss".to_string()]);
    assert_eq!(millis(&row.8), p.created_at);
    assert_eq!(millis(&row.9), 1_800_000_000_000);

    let absent = db().get_health_profile("nobody");
    assert!(first_column(&conn, &absent).is_empty());
}

#[test]
fn migration_keeps_rows_and_settles() {
    let conn = Connection::open_in_memory().unwrap();
    for sql in schema_statements() {
        conn.execute(&sql, []).unwrap();
    }
    conn.execute(
        "CREATE TABLE diet_history (id TEXT PRIMARY KEY, user_id TEXT NOT NULL, diet_item_id TEXT NOT NULL, date_attempted TEXT NOT NULL, rating INTEGER, notes TEXT, was_prepared BOOLEAN NOT NULL, meal_type TEXT NOT NULL, created_at TEXT NOT NULL, updated_at TEXT NOT NULL, FOREIGN KEY (user_id) REFERENCES health_profiles (user_id))",
        [],
    )
    .unwrap();
    run(&conn, &db().save_health_profile(&profile("u1")).unwrap());
    for day in 1..=4 {
        run(&conn, &db().log_diet_entry(&entry("u1", day, "lunch")));
    }
    assert_eq!(table_state(&conn), HistoryTableState { exists: true, has_foreign_key: true });

    assert_eq!(bring_up_to_date(&conn), HistoryTableAction::Rebuild);
    let schema = |conn: &Connection| -> String {
        conn.query_row(
            "SELECT sql FROM sqlite_master WHERE type='table' AND name='diet_history'",
            [],
            |row| row.get(0),
        )
        .unwrap()
    };
    let once = schema(&conn);
    assert_eq!(table_state(&conn), HistoryTableState { exists: true, has_foreign_key: false });
    assert_eq!(number(&conn, "SELECT COUNT(*) FROM diet_history"), 4);
    assert_eq!(
        number(&conn, "SELECT COUNT(*) FROM sqlite_master WHERE name='diet_history_new'"),
        0
    );

    assert_eq!(bring_up_to_date(&conn), HistoryTableAction::Keep);
    assert_eq!(schema(&conn), once);
    assert_eq!(number(&conn, "SELECT COUNT(*) FROM diet_history"), 4);

    run(&conn, &db().log_diet_entry(&entry("not yet a user", 9, "snack")));
    assert_eq!(number(&conn, "SELECT COUNT(*) FROM diet_history"), 5);
}

fn dump(conn: &Connection, table: &str) -> Vec<Vec<Value>> {
    let mut prepared = conn.prepare(&format!("SELECT * FROM {} ORDER BY id", table)).unwrap();
    let n = prepared.column_count();
    let rows = prepared
        .query_map([], |row| (0..n).map(|i| row.get::<_, Value>(i)).collect::<Result<Vec<_>, _>>())
        .unwrap();
    rows.map(|r| r.unwrap()).collect()
}

fn columns(conn: &Connection, table: &str) -> Vec<String> {
    let mut prepared =
        conn.prepare(&format!("SELECT name FROM pragma_table_info('{}')", table)).unwrap();
    let rows = prepared.query_map([], |row| row.get::<_, String>(0)).unwrap();
    rows.map(|r| r.unwrap()).collect()
}

fn open_again(conn: &Connection) -> HistoryTableAction {
    for sql in schema_statements() {
        conn.execute(&sql, []).unwrap();
    }
    bring_up_to_date(conn)
}

#[test]
fn opening_twice_leaves_every_table_as_the_first_opening_left_it() {
    for legacy in [true, false] {
        let conn = Connection::open_in_memory().unwrap();
        for sql in schema_statements() {
            conn.execute(&sql, []).unwrap();
        }
        let key = if legacy {
            ", FOREIGN KEY (user_id) REFERENCES health_profiles (user_id)"
        } else {
            ""
        };
        conn.execute(
            &format!("CREATE TABLE diet_history (id TEXT PRIMARY KEY, user_id TEXT NOT NULL, diet_item_id TEXT NOT NULL, date_attempted TEXT NOT NULL, rating INTEGER, notes TEXT, was_prepared BOOLEAN NOT NULL, meal_type TEXT NOT NULL, created_at TEXT NOT NULL, updated_at TEXT NOT NULL{})", key),
            [],
        )
        .unwrap();
        run(&conn, &db().save_health_profile(&profile("u1")).unwrap());
        add_recommendation(&conn, "u1");
        let recipe = Recipe {
            id: Uuid::new_v4(),
            title: "Soup".to_string(),
            description: "Warm".to_string(),
            ingredients: vec![],
            nutritional_info_per_serving: NutritionalInfo {
                calories: 100_000,
                protein: 0,
                carbs: 0,
                fat: 0,
                fiber: 0,
            },
            preparation_time: 20,
            difficulty_level: "easy".to_string(),
            meal_type: "dinner".to_string(),
            recipe_instructions: "Boil.".to_string(),
            cuisine_type: None,
            seasonal: false,
            tags: vec!["quick".to_string()],
            created_at: 1,
            updated_at: 2,
        };
        run(&conn, &db().save_recipe(&recipe, "[]", "{}").unwrap());
        for day in 1..=7 {
            let mut e = entry("u1", day, "dinner");
            e.notes = if day % 2 == 0 { Some(format!("note {}", day)) } else { None };
            e.rating = if day % 3 == 0 { None } else { Some((day % 5 + 1) as u8) };
            run(&conn, &db().log_diet_entry(&e));
        }
        let tables = ["health_profiles", "diet_recommendations", "recipes", "diet_history"];
        let before: Vec<_> = tables.iter().map(|t| dump(&conn, t)).collect();
        let shape = columns(&conn, "diet_history");
        assert_eq!(before[3].len(), 7);

        let first = open_again(&conn);
        assert_eq!(first, if legacy { HistoryTableAction::Rebuild } else { HistoryTableAction::Keep });
        let once: Vec<_> = tables.iter().map(|t| dump(&conn, t)).collect();
        assert_eq!(once, before);
        assert_eq!(columns(&conn, "diet_history"), shape);
        assert_eq!(table_state(&conn), HistoryTableState { exists: true, has_foreign_key: false });

        assert_eq!(open_again(&conn), HistoryTableAction::Keep);
        let twice: Vec<_> = tables.iter().map(|t| dump(&conn, t)).collect();
        assert_eq!(twice, once);
        assert_eq!(columns(&conn, "diet_history"), shape);
        assert_eq!(table_state(&conn), HistoryTableState { exists: true, has_foreign_key: false });
        assert_eq!(
            shape,
            vec![
                "id", "user_id", "diet_item_id", "date_attempted", "rating", "notes",
                "was_prepared", "meal_type", "created_at", "updated_at"
            ]
        );
    }
}

#[test]
fn fresh_store_gets_a_history_table_without_key() {
    let conn = Connection::open_in_memory().unwrap();
    for sql in schema_statements() {
        conn.execute(&sql, []).unwrap();
    }
    assert_eq!(table_state(&conn), HistoryTableState { exists: false, has_foreign_key: false });
    assert_eq!(bring_up_to_date(&conn), HistoryTableAction::Create);
    assert_eq!(table_state(&conn), HistoryTableState { exists: true, has_foreign_key: false });
    assert_eq!(bring_up_to_date(&conn), HistoryTableAction::Keep);
}

#[test]
fn deleting_a_profile_leaves_nothing_of_the_user() {
    let conn = open();
    for user in ["u1", "u2"] {
        run(&conn, &db().save_health_profile(&profile(user)).unwrap());
        for day in 1..=10 {
            run(&conn, &db().log_diet_entry(&entry(user, day, "dinner")));
        }
        for _ in 0..3 {
            add_recommendation(&conn, user);
        }
    }
    assert_eq!(rows_of(&conn, "u1"), (1, 10, 3));

    {
        let tx = conn.unchecked_transaction().unwrap();
        let steps = db().delete_health_profile("u1");
        tx.execute(&steps[0].sql, params_from_iter(steps[0].params.iter().map(bound))).unwrap();
        tx.execute(&steps[1].sql, params_from_iter(steps[1].params.iter().map(bound))).unwrap();
    }
    assert_eq!(rows_of(&conn, "u1"), (1, 10, 3));

    let tx = conn.unchecked_transaction().unwrap();
    for step in db().delete_health_profile("u1") {
        tx.execute(&step.sql, params_from_iter(step.params.iter().map(bound))).unwrap();
    }
    tx.commit().unwrap();
    assert_eq!(rows_of(&conn, "u1"), (0, 0, 0));
    assert_eq!(rows_of(&conn, "u2"), (1, 10, 3));
}

#[test]
fn update_writes_only_the_given_fields_and_reports_a_missing_entry() {
    let conn = open();
    let e = entry("u1", 2, "lunch");
    run(&conn, &db().log_diet_entry(&e));
    let id = e.id.to_string();
    let stored = |conn: &Connection| {
        conn.query_row(
            "SELECT rating, notes, was_prepared, updated_at, created_at FROM diet_history WHERE id = ?1",
            [&id],
            |row| {
                Ok((
                    row.get::<_, Option<u8>>(0)?,
                    row.get::<_, Option<String>>(1)?,
                    row.get::<_, bool>(2)?,
                    row.get::<_, String>(3)?,
                    row.get::<_, String>(4)?,
                ))
            },
        )
        .unwrap()
    };
    let before = stored(&conn);
    assert_eq!((before.0, before.1.clone(), before.2), (Some(3), None, false));

    let touched =
        run(&conn, &db().update_diet_entry_at(&id, None, Some("again".to_string()), None, 1_800_000_000_000));
    assert!(entry_outcome(touched, &id).is_ok());
    let after = stored(&conn);
    assert_eq!((after.0, after.1.clone(), after.2), (Some(3), Some("again".to_string()), false));
    assert_ne!(after.3, before.3);
    assert_eq!(after.4, before.4);

    let touched = run(&conn, &db().update_diet_entry_at(&id, Some(5), None, Some(true), 1_800_000_000_001));
    assert_eq!(touched, 1);
    let after = stored(&conn);
    assert_eq!((after.0, after.1, after.2), (Some(5), Some("again".to_string()), true));

    let touched = run(&conn, &db().update_diet_entry_at("no such id", Some(1), None, None, 1));
    assert_eq!(touched, 0);
    assert!(entry_outcome(touched, "no such id").is_err());

    assert_eq!(run(&conn, &db().delete_diet_entry(&id)), 1);
    let touched = run(&conn, &db().delete_diet_entry(&id));
    assert!(entry_outcome(touched, &id).is_err());
}

#[test]
fn search_applies_every_criterion() {
    let conn = open();
    let add = |title: &str, tags: &[&str], ingredients: &str, minutes: u32, level: &str, meal: &str| {
        let recipe = Recipe {
            id: Uuid::new_v4(),
            title: title.to_string(),
            description: format!("{} for everyone", title),
            ingredients: vec![],
            nutritional_info_per_serving: NutritionalInfo {
                calories: 100_000,
                protein: 0,
                carbs: 0,
                fat: 0,
                fiber: 0,
            },
            preparation_time: minutes,
            difficulty_level: level.to_string(),
            meal_type: meal.to_string(),
            recipe_instructions: "Cook.".to_string(),
            cuisine_type: None,
            seasonal: false,
            tags: tags.iter().map(|t| t.to_string()).collect(),
            created_at: 0,
            updated_at: 0,
        };
        run(&conn, &db().save_recipe(&recipe, ingredients, "{}").unwrap());
    };
    add("Tomato soup", &["quick", "vegan"], "[{\"name\":\"tomato\"}]", 20, "easy", "dinner");
    add("Nut cake", &["sweet"], "[{\"name\":\"walnut\"},{\"name\":\"flour\"}]", 60, "hard", "snack");
    add("Bean soup", &["vegan"], "[{\"name\":\"beans\"}]", 45, "medium", "dinner");
    add("Apple pie", &["sweet", "quick"], "[{\"name\":\"apple\"},{\"name\":\"flour\"}]", 30, "medium", "snack");

    let titles = |q: Statement| {
        let mut prepared = conn.prepare(&q.sql).unwrap();
        let rows = prepared
            .query_map(params_from_iter(q.params.iter().map(bound)), |row| {
                row.get::<_, String>(1)
            })
            .unwrap();
        rows.map(|r| r.unwrap()).collect::<Vec<String>>()
    };
    let all = || db().search_recipes(None, None, None, None, None, None, None, None);
    assert_eq!(titles(all()), vec!["Apple pie", "Bean soup", "Nut cake", "Tomato soup"]);
    assert_eq!(
        titles(db().search_recipes(Some("soup"), None, None, None, None, None, None, None)),
        vec!["Bean soup", "Tomato soup"]
    );
    assert_eq!(
        titles(db().search_recipes(Some("everyone"), None, None, None, None, None, Some(1), Some(1))),
        vec!["Bean soup"]
    );
    assert_eq!(
        titles(db().search_recipes(None, Some(vec!["quick", "vegan"]), None, None, None, None, None, None)),
        vec!["Tomato soup"]
    );
    assert_eq!(
        titles(db().search_recipes(None, Some(vec!["quick"]), None, None, None, None, None, None)),
        vec!["Apple pie", "Tomato soup"]
    );
    assert_eq!(
        titles(db().search_recipes(None, None, Some(vec!["walnut", "beans"]), None, None, None, None, None)),
        vec!["Apple pie", "Tomato soup"]
    );
    assert_eq!(
        titles(db().search_recipes(None, None, None, Some(30), None, None, None, None)),
        vec!["Apple pie", "Tomato soup"]
    );
    assert_eq!(
        titles(db().search_recipes(None, None, None, None, Some("medium"), Some("dinner"), None, None)),
        vec!["Bean soup"]
    );
    assert_eq!(
        titles(db().search_recipes(Some("pie"), Some(vec!["sweet"]), Some(vec!["walnut"]), Some(30), Some("medium"), Some("snack"), Some(5), Some(0))),
        vec!["Apple pie"]
    );
    assert!(first_column(&conn, &db().get_recipe_by_id("none")).is_empty());
}
