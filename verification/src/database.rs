//! The statements that the store runs: each is built as a text with numbered
//! placeholders together with the values bound to them, so that a clause and
//! its value are always added as one unit.

use vstd::prelude::*;
use vstd::string::*;
use crate::AppError;
use crate::AppResult;
use crate::models::{DietHistory, HealthProfile, Recipe};
use crate::outside::{
    json_error_text, json_list, json_list_parsed, json_list_text, now, parse_json_list,
    CalendarDate,
};
use crate::text::texts;
use crate::text::{decimal, decimal_text};

verus! {

/// A value bound to a placeholder. The store keeps an identifier as its
/// hyphenated text, a day as `YYYY-MM-DD`, a timestamp, which is held in
/// milliseconds since the Unix epoch, as date-time text, and a quantity in
/// thousandths as a real number of whole units.
#[derive(Debug, Clone, PartialEq)]
pub enum SqlValue {
    Null,
    Text(String),
    Integer(i64),
    Flag(bool),
    Timestamp(i64),
    Id(uuid::Uuid),
    Day(CalendarDate),
    Thousandths(u64),
}

/// What a bound value holds.
pub enum SqlValueView {
    Null,
    Text(Seq<char>),
    Integer(int),
    Flag(bool),
    Timestamp(int),
    Id(uuid::Uuid),
    Day(CalendarDate),
    Thousandths(nat),
}

impl View for SqlValue {
    type V = SqlValueView;

    open spec fn view(&self) -> SqlValueView {
        match self {
            SqlValue::Text(s) => SqlValueView::Text(s@),
            SqlValue::Integer(n) => SqlValueView::Integer(*n as int),
            SqlValue::Flag(b) => SqlValueView::Flag(*b),
            SqlValue::Timestamp(t) => SqlValueView::Timestamp(*t as int),
            SqlValue::Null => SqlValueView::Null,
            SqlValue::Id(id) => SqlValueView::Id(*id),
            SqlValue::Day(d) => SqlValueView::Day(*d),
            SqlValue::Thousandths(n) => SqlValueView::Thousandths(*n as nat),
        }
    }
}

/// What a list of bound values holds.
pub open spec fn values_of(params: Seq<SqlValue>) -> Seq<SqlValueView> {
    Seq::new(params.len(), |i: int| params[i]@)
}

/// How a column is compared with a bound value.
#[derive(Debug, Clone, Copy, PartialEq, Eq, Structural)]
pub enum Comparison {
    AtLeast,
    AtMost,
    Equals,
    Like,
    NotLike,
}

/// One clause of a filter with the value bound to it. With `also`, the
/// clause holds when either column meets the comparison.
#[derive(Debug, Clone, PartialEq)]
pub struct Condition {
    pub column: String,
    pub also: Option<String>,
    pub op: Comparison,
    pub value: SqlValue,
}

/// What a condition holds.
pub struct ConditionView {
    pub column: Seq<char>,
    pub also: Option<Seq<char>>,
    pub op: Comparison,
    pub value: SqlValueView,
}

impl View for Condition {
    type V = ConditionView;

    open spec fn view(&self) -> ConditionView {
        ConditionView {
            column: self.column@,
            also: match self.also {
                Some(c) => Some(c@),
                None => None,
            },
            op: self.op,
            value: self.value@,
        }
    }
}

/// What a list of conditions holds.
pub open spec fn conditions_of(conds: Seq<Condition>) -> Seq<ConditionView> {
    Seq::new(conds.len(), |i: int| conds[i]@)
}

/// The values of a list of conditions, in the order of the conditions.
pub open spec fn bound_values(conds: Seq<ConditionView>) -> Seq<SqlValueView> {
    Seq::new(conds.len(), |i: int| conds[i].value)
}

/// A condition on one column.
pub open spec fn on_column(column: Seq<char>, op: Comparison, value: SqlValueView) -> ConditionView {
    ConditionView { column, also: None, op, value }
}

/// The operator of a comparison, with the spaces around it.
pub open spec fn comparison_text(op: Comparison) -> Seq<char> {
    match op {
        Comparison::AtLeast => " >= "@,
        Comparison::AtMost => " <= "@,
        Comparison::Equals => " = "@,
        Comparison::Like => " LIKE "@,
        Comparison::NotLike => " NOT LIKE "@,
    }
}

/// The placeholder with the number `n`.
pub open spec fn placeholder_text(n: nat) -> Seq<char> {
    "?"@ + decimal_text(n)
}

/// A condition as text, its value standing behind placeholder `n`.
pub open spec fn condition_text(c: ConditionView, n: nat) -> Seq<char> {
    let one = c.column + comparison_text(c.op) + placeholder_text(n);
    match c.also {
        None => one,
        Some(other) => "("@ + one + " OR "@ + other + comparison_text(c.op) + placeholder_text(n)
            + ")"@,
    }
}

/// The conditions as text, each behind `joiner`; the condition at position
/// `k` refers to placeholder `first + k`.
pub open spec fn clauses_text(conds: Seq<ConditionView>, first: nat, joiner: Seq<char>) -> Seq<
    char,
>
    decreases conds.len(),
{
    if conds.len() == 0 {
        Seq::<char>::empty()
    } else {
        clauses_text(conds.drop_last(), first, joiner) + joiner + condition_text(
            conds.last(),
            (first + conds.len() - 1) as nat,
        )
    }
}

/// The conditions as the further clauses of a `WHERE`, each joined by `AND`
/// to what stands before it.
pub open spec fn where_text(conds: Seq<ConditionView>, first: nat) -> Seq<char> {
    clauses_text(conds, first, " AND "@)
}

/// Adding a condition adds its clause, under the next free placeholder
/// number, and its value, at the end of the bound values: the two lists
/// stay aligned, and what was there before is untouched.
pub proof fn lemma_condition_and_value_are_added_together(
    conds: Seq<ConditionView>,
    c: ConditionView,
    first: nat,
)
    ensures
        where_text(conds.push(c), first) == where_text(conds, first) + " AND "@ + condition_text(
            c,
            first + conds.len(),
        ),
        bound_values(conds.push(c)) == bound_values(conds).push(c.value),
        bound_values(conds.push(c)).len() == conds.len() + 1,
{
    assert(conds.push(c).drop_last() == conds);
    assert(bound_values(conds.push(c)) =~= bound_values(conds).push(c.value));
}

/// The text of a comparison's operator.
fn comparison_word(op: Comparison) -> (r: &'static str)
    ensures
        r@ == comparison_text(op),
{
    match op {
        Comparison::AtLeast => " >= ",
        Comparison::AtMost => " <= ",
        Comparison::Equals => " = ",
        Comparison::Like => " LIKE ",
        Comparison::NotLike => " NOT LIKE ",
    }
}

/// Writes a condition as text, its value standing behind placeholder `n`.
pub fn render_condition(c: &Condition, n: u128) -> (r: String)
    ensures
        r@ == condition_text(c@, n as nat),
{
    let number = decimal(n);
    let word = comparison_word(c.op);
    let one = c.column.clone().concat(word).concat("?").concat(number.as_str());
    assert(one@ == c.column@ + comparison_text(c.op) + placeholder_text(n as nat)) by {
        assert(c.column@ + comparison_text(c.op) + "?"@ + decimal_text(n as nat) =~= c.column@
            + comparison_text(c.op) + ("?"@ + decimal_text(n as nat)));
    }
    match &c.also {
        None => one,
        Some(other) => {
            let r = "(".to_owned().concat(one.as_str()).concat(" OR ").concat(other.as_str()).concat(
                word,
            ).concat("?").concat(number.as_str()).concat(")");
            assert(r@ =~= "("@ + one@ + " OR "@ + other@ + comparison_text(c.op) + placeholder_text(
                n as nat,
            ) + ")"@);
            r
        },
    }
}

/// Writes the conditions as the further clauses of a `WHERE`, numbering
/// their placeholders from `first`.
pub fn render_where(conds: &Vec<Condition>, first: u32) -> (r: String)
    ensures
        r@ == where_text(conditions_of(conds@), first as nat),
{
    render_clauses(conds, first, " AND ")
}

/// Writes the conditions as text, each behind `joiner`, numbering their
/// placeholders from `first`.
pub fn render_clauses(conds: &Vec<Condition>, first: u32, joiner: &str) -> (r: String)
    ensures
        r@ == clauses_text(conditions_of(conds@), first as nat, joiner@),
{
    let mut r = String::new();
    let mut k: usize = 0;
    while k < conds.len()
        invariant
            k <= conds@.len(),
            r@ == clauses_text(conditions_of(conds@).take(k as int), first as nat, joiner@),
        decreases conds.len() - k,
    {
        let clause = render_condition(&conds[k], first as u128 + k as u128);
        proof {
            let all = conditions_of(conds@);
            assert(all.take(k + 1).drop_last() == all.take(k as int));
            assert(all.take(k + 1).last() == conds@[k as int]@);
        }
        r = r.concat(joiner).concat(clause.as_str());
        k += 1;
    }
    proof {
        assert(conditions_of(conds@).take(k as int) == conditions_of(conds@));
    }
    r
}

/// A statement for the store: its text, and the values for its placeholders,
/// the value at position `k` for placeholder `k + 1`.
#[derive(Debug, Clone, PartialEq)]
pub struct Statement {
    pub sql: String,
    pub params: Vec<SqlValue>,
}

/// The values of the conditions, added behind `params` in their order.
pub fn bind_conditions(params: &mut Vec<SqlValue>, conds: Vec<Condition>)
    ensures
        values_of(final(params)@) == values_of(old(params)@) + bound_values(conditions_of(conds@)),
{
    let ghost before = values_of(params@);
    let ghost all = bound_values(conditions_of(conds@));
    let mut rest = conds;
    let mut taken: usize = 0;
    let n = rest.len();
    while rest.len() > 0
        invariant
            taken + rest@.len() == n,
            n == all.len(),
            forall|j: int| 0 <= j < rest@.len() ==> (#[trigger] rest@[j])@.value == all[taken + j],
            values_of(params@) == before + all.take(taken as int),
        decreases rest.len(),
    {
        let c = rest.remove(0);
        proof {
            assert(all.take(taken + 1) =~= all.take(taken as int).push(c@.value));
        }
        let ghost was = values_of(params@);
        params.push(c.value);
        proof {
            assert(values_of(params@) =~= was.push(c@.value));
            assert(before + all.take(taken + 1) =~= (before + all.take(taken as int)).push(
                c@.value,
            ));
        }
        taken += 1;
    }
    proof {
        assert(all.take(taken as int) == all);
    }
}

/// The clause that limits and skips rows: `LIMIT` with the limit, if there
/// is one, and `OFFSET` with the offset, if there is one, behind a limit of
/// -1, which stands for none, where an offset comes without a limit.
pub open spec fn page_text(limit: Option<u32>, offset: Option<u32>) -> Seq<char> {
    let l = match limit {
        Some(n) => " LIMIT "@ + decimal_text(n as nat),
        None => Seq::<char>::empty(),
    };
    let o = match offset {
        Some(n) => (if limit is None {
            " LIMIT -1"@
        } else {
            Seq::<char>::empty()
        }) + " OFFSET "@ + decimal_text(n as nat),
        None => Seq::<char>::empty(),
    };
    l + o
}

/// Writes the clause that limits and skips rows.
pub fn render_page(limit: Option<u32>, offset: Option<u32>) -> (r: String)
    ensures
        r@ == page_text(limit, offset),
{
    let mut r = String::new();
    if let Some(n) = limit {
        r = r.concat(" LIMIT ").concat(decimal(n as u128).as_str());
    }
    if let Some(n) = offset {
        if limit.is_none() {
            r = r.concat(" LIMIT -1");
        }
        r = r.concat(" OFFSET ").concat(decimal(n as u128).as_str());
    }
    assert(r@ =~= page_text(limit, offset));
    r
}

/// The conditions of a search in a user's diet history: a first day, a last
/// day and a meal type, each only if it is given, in this order.
pub open spec fn history_conditions(
    start_date: Option<Seq<char>>,
    end_date: Option<Seq<char>>,
    meal_type: Option<Seq<char>>,
) -> Seq<ConditionView> {
    (match start_date {
        Some(day) => seq![
            on_column("date_attempted"@, Comparison::AtLeast, SqlValueView::Text(day)),
        ],
        None => Seq::<ConditionView>::empty(),
    }) + (match end_date {
        Some(day) => seq![on_column("date_attempted"@, Comparison::AtMost, SqlValueView::Text(day))],
        None => Seq::<ConditionView>::empty(),
    }) + (match meal_type {
        Some(meal) => seq![on_column("meal_type"@, Comparison::Equals, SqlValueView::Text(meal))],
        None => Seq::<ConditionView>::empty(),
    })
}

/// What an optional text holds.
pub open spec fn text_of(s: Option<&str>) -> Option<Seq<char>> {
    match s {
        Some(t) => Some(t@),
        None => None,
    }
}

/// A condition on one column with a text value.
pub fn text_condition(column: &str, op: Comparison, value: &str) -> (c: Condition)
    ensures
        c@ == on_column(column@, op, SqlValueView::Text(value@)),
{
    Condition { column: column.to_owned(), also: None, op, value: SqlValue::Text(value.to_owned()) }
}

/// Builds the conditions of a search in a user's diet history.
pub fn history_filter(
    start_date: Option<&str>,
    end_date: Option<&str>,
    meal_type: Option<&str>,
) -> (conds: Vec<Condition>)
    ensures
        conditions_of(conds@) == history_conditions(
            text_of(start_date),
            text_of(end_date),
            text_of(meal_type),
        ),
        conds@.len() <= 3,
{
    let mut conds: Vec<Condition> = Vec::new();
    if let Some(day) = start_date {
        conds.push(text_condition("date_attempted", Comparison::AtLeast, day));
    }
    if let Some(day) = end_date {
        conds.push(text_condition("date_attempted", Comparison::AtMost, day));
    }
    if let Some(meal) = meal_type {
        conds.push(text_condition("meal_type", Comparison::Equals, meal));
    }
    assert(conditions_of(conds@) =~= history_conditions(
        text_of(start_date),
        text_of(end_date),
        text_of(meal_type),
    ));
    conds
}

/// The values bound by a search in a user's diet history: the user, then the
/// values of the conditions.
pub open spec fn history_params(
    user_id: Seq<char>,
    start_date: Option<Seq<char>>,
    end_date: Option<Seq<char>>,
    meal_type: Option<Seq<char>>,
) -> Seq<SqlValueView> {
    seq![SqlValueView::Text(user_id)] + bound_values(
        history_conditions(start_date, end_date, meal_type),
    )
}

/// The text of the statement that lists a user's diet history, the latest
/// day first.
pub open spec fn history_list_sql(
    start_date: Option<Seq<char>>,
    end_date: Option<Seq<char>>,
    meal_type: Option<Seq<char>>,
    limit: Option<u32>,
    offset: Option<u32>,
) -> Seq<char> {
    "SELECT id, user_id, diet_item_id, date_attempted, rating, notes, was_prepared, meal_type, created_at, updated_at FROM diet_history WHERE user_id = ?1"@
        + where_text(history_conditions(start_date, end_date, meal_type), 2)
        + " ORDER BY date_attempted DESC"@ + page_text(limit, offset)
}

/// The text of the statement that counts the entries of a user's diet
/// history.
pub open spec fn history_count_sql(
    start_date: Option<Seq<char>>,
    end_date: Option<Seq<char>>,
    meal_type: Option<Seq<char>>,
) -> Seq<char> {
    "SELECT COUNT(*) FROM diet_history WHERE user_id = ?1"@ + where_text(
        history_conditions(start_date, end_date, meal_type),
        2,
    )
}

/// The count and the list of a diet history are asked for under one filter:
/// with the same criteria, and no limit or offset on the list, the two
/// statements differ only in what they select and in the list's order, and
/// they bind the same values.
pub proof fn lemma_count_and_list_share_their_filter(
    start_date: Option<Seq<char>>,
    end_date: Option<Seq<char>>,
    meal_type: Option<Seq<char>>,
)
    ensures
        ({
            let filter = where_text(history_conditions(start_date, end_date, meal_type), 2);
            &&& history_count_sql(start_date, end_date, meal_type)
                == "SELECT COUNT(*) FROM diet_history WHERE user_id = ?1"@ + filter
            &&& history_list_sql(start_date, end_date, meal_type, None, None)
                == "SELECT id, user_id, diet_item_id, date_attempted, rating, notes, was_prepared, meal_type, created_at, updated_at FROM diet_history WHERE user_id = ?1"@
                + filter + " ORDER BY date_attempted DESC"@
        }),
        forall|user_id: Seq<char>|
            (#[trigger] history_params(user_id, start_date, end_date, meal_type)).len() == 1
                + history_conditions(start_date, end_date, meal_type).len(),
{
    let conds = history_conditions(start_date, end_date, meal_type);
    let filter = where_text(conds, 2);
    assert(page_text(None, None) =~= Seq::<char>::empty());
    assert(history_list_sql(start_date, end_date, meal_type, None, None)
        =~= "SELECT id, user_id, diet_item_id, date_attempted, rating, notes, was_prepared, meal_type, created_at, updated_at FROM diet_history WHERE user_id = ?1"@
        + filter + " ORDER BY date_attempted DESC"@);
}

/// The store's handle: the path of the file that holds it.
#[derive(Debug, Clone)]
pub struct Database {
    pub path: String,
}

impl Database {
    /// A handle on the store in the file at `path`.
    pub fn at(path: &str) -> (db: Database)
        ensures
            db.path@ == path@,
    {
        Database { path: path.to_owned() }
    }

    /// The statement that lists a user's diet history under the given
    /// criteria, the latest day first, then limited and skipped as asked.
    pub fn get_diet_history(
        &self,
        user_id: &str,
        start_date: Option<&str>,
        end_date: Option<&str>,
        limit: Option<u32>,
        offset: Option<u32>,
        meal_type: Option<&str>,
    ) -> (q: Statement)
        ensures
            q.sql@ == history_list_sql(
                text_of(start_date),
                text_of(end_date),
                text_of(meal_type),
                limit,
                offset,
            ),
            values_of(q.params@) == history_params(
                user_id@,
                text_of(start_date),
                text_of(end_date),
                text_of(meal_type),
            ),
    {
        let conds = history_filter(start_date, end_date, meal_type);
        let filter = render_where(&conds, 2);
        let page = render_page(limit, offset);
        let sql =
            "SELECT id, user_id, diet_item_id, date_attempted, rating, notes, was_prepared, meal_type, created_at, updated_at FROM diet_history WHERE user_id = ?1".to_owned().concat(
            filter.as_str(),
        ).concat(" ORDER BY date_attempted DESC").concat(page.as_str());
        let mut params: Vec<SqlValue> = Vec::new();
        params.push(SqlValue::Text(user_id.to_owned()));
        assert(values_of(params@) =~= seq![SqlValueView::Text(user_id@)]);
        bind_conditions(&mut params, conds);
        Statement { sql, params }
    }

    /// The statement that counts the entries of a user's diet history under
    /// the given criteria.
    pub fn get_diet_history_count(
        &self,
        user_id: &str,
        start_date: Option<&str>,
        end_date: Option<&str>,
        meal_type: Option<&str>,
    ) -> (q: Statement)
        ensures
            q.sql@ == history_count_sql(text_of(start_date), text_of(end_date), text_of(meal_type)),
            values_of(q.params@) == history_params(
                user_id@,
                text_of(start_date),
                text_of(end_date),
                text_of(meal_type),
            ),
    {
        let conds = history_filter(start_date, end_date, meal_type);
        let filter = render_where(&conds, 2);
        let sql = "SELECT COUNT(*) FROM diet_history WHERE user_id = ?1".to_owned().concat(
            filter.as_str(),
        );
        let mut params: Vec<SqlValue> = Vec::new();
        params.push(SqlValue::Text(user_id.to_owned()));
        assert(values_of(params@) =~= seq![SqlValueView::Text(user_id@)]);
        bind_conditions(&mut params, conds);
        Statement { sql, params }
    }

    /// The statement that searches the recipes: every criterion that is given
    /// must hold. The words of `query` must occur in the title or in the
    /// description, each tag in the stored tags, no excluded ingredient in the
    /// stored ingredients, the preparation time must not exceed the maximum,
    /// and difficulty and meal type must be the given ones. The rows come
    /// ordered by title, then limited and skipped as asked.
    pub fn search_recipes(
        &self,
        query: Option<&str>,
        tags: Option<Vec<&str>>,
        exclude_ingredients: Option<Vec<&str>>,
        max_preparation_time: Option<u32>,
        difficulty_level: Option<&str>,
        meal_type: Option<&str>,
        limit: Option<u32>,
        offset: Option<u32>,
    ) -> (q: Statement)
        ensures
            q.sql@ == search_sql(
                search_conditions(
                    text_of(query),
                    words_in(tags),
                    words_in(exclude_ingredients),
                    max_preparation_time,
                    text_of(difficulty_level),
                    text_of(meal_type),
                ),
                limit,
                offset,
            ),
            values_of(q.params@) == bound_values(
                search_conditions(
                    text_of(query),
                    words_in(tags),
                    words_in(exclude_ingredients),
                    max_preparation_time,
                    text_of(difficulty_level),
                    text_of(meal_type),
                ),
            ),
    {
        let conds = search_filter(
            query,
            &tags,
            &exclude_ingredients,
            max_preparation_time,
            difficulty_level,
            meal_type,
        );
        let filter = render_where(&conds, 1);
        let page = render_page(limit, offset);
        let sql =
            "SELECT id, title, description, ingredients, nutritional_info_per_serving, preparation_time, difficulty_level, meal_type, recipe_instructions, cuisine_type, seasonal, tags, created_at, updated_at FROM recipes WHERE 1=1".to_owned().concat(
            filter.as_str(),
        ).concat(" ORDER BY title").concat(page.as_str());
        let params = values_to_bind(conds);
        Statement { sql, params }
    }

    /// The statement that changes an entry of the diet history at the time
    /// `at`: the time of the change is always written, and of rating, notes
    /// and the prepared flag those that are given.
    pub fn update_diet_entry_at(
        &self,
        id: &str,
        rating: Option<u8>,
        notes: Option<String>,
        was_prepared: Option<bool>,
        at: i64,
    ) -> (q: Statement)
        ensures
            q.sql@ == update_sql(update_assignments(rating, notes, was_prepared)),
            values_of(q.params@) == update_params(
                at,
                update_assignments(rating, notes, was_prepared),
                id@,
            ),
    {
        let mut sets: Vec<Condition> = Vec::new();
        if let Some(stars) = rating {
            sets.push(
                Condition {
                    column: "rating".to_owned(),
                    also: None,
                    op: Comparison::Equals,
                    value: SqlValue::Integer(stars as i64),
                },
            );
        }
        if let Some(words) = notes {
            sets.push(
                Condition {
                    column: "notes".to_owned(),
                    also: None,
                    op: Comparison::Equals,
                    value: SqlValue::Text(words),
                },
            );
        }
        if let Some(done) = was_prepared {
            sets.push(
                Condition {
                    column: "was_prepared".to_owned(),
                    also: None,
                    op: Comparison::Equals,
                    value: SqlValue::Flag(done),
                },
            );
        }
        assert(conditions_of(sets@) =~= update_assignments(rating, notes, was_prepared));
        let changes = render_clauses(&sets, 2, ", ");
        let last = decimal(2 + sets.len() as u128);
        let sql = "UPDATE diet_history SET updated_at = ?1".to_owned().concat(
            changes.as_str(),
        ).concat(" WHERE id = ?").concat(last.as_str());
        assert(sql@ =~= update_sql(update_assignments(rating, notes, was_prepared)));
        let mut params: Vec<SqlValue> = Vec::new();
        params.push(SqlValue::Timestamp(at));
        assert(values_of(params@) =~= seq![SqlValueView::Timestamp(at as int)]);
        bind_conditions(&mut params, sets);
        let ghost was = values_of(params@);
        params.push(SqlValue::Text(id.to_owned()));
        assert(values_of(params@) =~= was.push(SqlValueView::Text(id@)));
        Statement { sql, params }
    }

    /// The statement that changes an entry of the diet history now. The time
    /// of the change is the clock's; everything else is as `update_diet_entry_at`
    /// states it.
    pub fn update_diet_entry(
        &self,
        id: &str,
        rating: Option<u8>,
        notes: Option<String>,
        was_prepared: Option<bool>,
    ) -> (q: Statement)
        ensures
            q.sql@ == update_sql(update_assignments(rating, notes, was_prepared)),
            exists|at: i64|
                values_of(q.params@) == #[trigger] update_params(
                    at,
                    update_assignments(rating, notes, was_prepared),
                    id@,
                ),
    {
        let at = now();
        self.update_diet_entry_at(id, rating, notes, was_prepared, at)
    }

    /// The statement that deletes one entry of the diet history.
    pub fn delete_diet_entry(&self, id: &str) -> (q: Statement)
        ensures
            q.sql@ == "DELETE FROM diet_history WHERE id = ?1"@,
            values_of(q.params@) == seq![SqlValueView::Text(id@)],
    {
        one_text_statement("DELETE FROM diet_history WHERE id = ?1", id)
    }

    /// The statements that delete a user's profile together with everything
    /// that depends on it, to be run in this order inside one transaction:
    /// the diet history, the recommendations, then the profile itself.
    pub fn delete_health_profile(&self, user_id: &str) -> (steps: Vec<Statement>)
        ensures
            steps@.len() == 3,
            steps@[0].sql@ == "DELETE FROM diet_history WHERE user_id = ?1"@,
            steps@[1].sql@ == "DELETE FROM diet_recommendations WHERE user_id = ?1"@,
            steps@[2].sql@ == "DELETE FROM health_profiles WHERE user_id = ?1"@,
            forall|k: int|
                0 <= k < 3 ==> values_of((#[trigger] steps@[k]).params@) == seq![
                    SqlValueView::Text(user_id@),
                ],
    {
        let mut steps: Vec<Statement> = Vec::new();
        steps.push(one_text_statement("DELETE FROM diet_history WHERE user_id = ?1", user_id));
        steps.push(
            one_text_statement("DELETE FROM diet_recommendations WHERE user_id = ?1", user_id),
        );
        steps.push(one_text_statement("DELETE FROM health_profiles WHERE user_id = ?1", user_id));
        steps
    }

    /// The statement that saves a profile: a new row for a new user; for a
    /// known user every field but the identifier and the time of creation
    /// is overwritten. The four lists of tags are written as JSON. The
    /// statement is there for every profile.
    pub fn save_health_profile(&self, profile: &HealthProfile) -> (r: AppResult<Statement>)
        ensures
            r is Ok,
            r matches Ok(q) ==> q.sql@ == profile_upsert_sql() && values_of(q.params@)
                == profile_values(
                *profile,
                json_list_text(texts(profile.health_goals@)),
                json_list_text(texts(profile.dietary_preferences@)),
                json_list_text(texts(profile.dietary_restrictions@)),
                json_list_text(texts(profile.allergies@)),
            ),
    {
        let goals = match list_as_json(&profile.health_goals, "Failed to serialize health goals: ") {
            Ok(text) => text,
            Err(e) => {
                return Err(e);
            },
        };
        let preferences = match list_as_json(
            &profile.dietary_preferences,
            "Failed to serialize dietary preferences: ",
        ) {
            Ok(text) => text,
            Err(e) => {
                return Err(e);
            },
        };
        let restrictions = match list_as_json(
            &profile.dietary_restrictions,
            "Failed to serialize dietary restrictions: ",
        ) {
            Ok(text) => text,
            Err(e) => {
                return Err(e);
            },
        };
        let allergies = match list_as_json(&profile.allergies, "Failed to serialize allergies: ") {
            Ok(text) => text,
            Err(e) => {
                return Err(e);
            },
        };
        Ok(profile_upsert(profile, goals, preferences, restrictions, allergies))
    }

    /// The statement that adds a recipe to the catalogue. Its ingredients
    /// and its nutrition come written as JSON; its tags are written here.
    /// The statement is there for every recipe.
    pub fn save_recipe(&self, recipe: &Recipe, ingredients: &str, nutrition: &str) -> (r: AppResult<
        Statement,
    >)
        ensures
            r is Ok,
            r matches Ok(q) ==> q.sql@ == recipe_insert_sql() && values_of(q.params@)
                == recipe_values(
                *recipe,
                ingredients@,
                nutrition@,
                json_list_text(texts(recipe.tags@)),
            ),
    {
        match list_as_json(&recipe.tags, "") {
            Ok(tags) => Ok(recipe_insert(recipe, ingredients, nutrition, tags)),
            Err(e) => Err(e),
        }
    }

    /// The statement that logs an attempt at a meal.
    pub fn log_diet_entry(&self, entry: &DietHistory) -> (q: Statement)
        ensures
            q.sql@ == history_insert_sql(),
            values_of(q.params@) == history_values(*entry),
    {
        let mut params: Vec<SqlValue> = Vec::new();
        params.push(SqlValue::Id(entry.id));
        params.push(SqlValue::Text(entry.user_id.clone()));
        params.push(SqlValue::Id(entry.diet_item_id));
        params.push(SqlValue::Day(entry.date_attempted));
        params.push(
            match entry.rating {
                Some(stars) => SqlValue::Integer(stars as i64),
                None => SqlValue::Null,
            },
        );
        params.push(
            match &entry.notes {
                Some(words) => SqlValue::Text(words.clone()),
                None => SqlValue::Null,
            },
        );
        params.push(SqlValue::Flag(entry.was_prepared));
        params.push(SqlValue::Text(entry.meal_type.clone()));
        params.push(SqlValue::Timestamp(entry.created_at));
        params.push(SqlValue::Timestamp(entry.updated_at));
        assert(values_of(params@) =~= history_values(*entry));
        Statement {
            sql:
                "INSERT INTO diet_history (id, user_id, diet_item_id, date_attempted, rating, notes, was_prepared, meal_type, created_at, updated_at) VALUES (?1, ?2, ?3, ?4, ?5, ?6, ?7, ?8, ?9, ?10)".to_owned(),
            params,
        }
    }

    /// The statement that reads a user's profile.
    pub fn get_health_profile(&self, user_id: &str) -> (q: Statement)
        ensures
            q.sql@
                == "SELECT id, user_id, age, gender, weight, height, activity_level, health_goals, dietary_preferences, dietary_restrictions, allergies, created_at, updated_at FROM health_profiles WHERE user_id = ?1"@,
            values_of(q.params@) == seq![SqlValueView::Text(user_id@)],
    {
        one_text_statement(
            "SELECT id, user_id, age, gender, weight, height, activity_level, health_goals, dietary_preferences, dietary_restrictions, allergies, created_at, updated_at FROM health_profiles WHERE user_id = ?1",
            user_id,
        )
    }

    /// The statement that reads the recommendations stored for a user.
    pub fn get_recommendations(&self, user_id: &str) -> (q: Statement)
        ensures
            q.sql@
                == "SELECT id, user_id, title, description, ingredients, nutritional_info, preparation_time, difficulty_level, meal_type, recipe_instructions, created_at, is_personalized, relevance_score FROM diet_recommendations WHERE user_id = ?1"@,
            values_of(q.params@) == seq![SqlValueView::Text(user_id@)],
    {
        one_text_statement(
            "SELECT id, user_id, title, description, ingredients, nutritional_info, preparation_time, difficulty_level, meal_type, recipe_instructions, created_at, is_personalized, relevance_score FROM diet_recommendations WHERE user_id = ?1",
            user_id,
        )
    }

    /// The statement that reads one stored recommendation.
    pub fn get_recommendation_by_id(&self, id: &str) -> (q: Statement)
        ensures
            q.sql@
                == "SELECT id, user_id, title, description, ingredients, nutritional_info, preparation_time, difficulty_level, meal_type, recipe_instructions, created_at, is_personalized, relevance_score FROM diet_recommendations WHERE id = ?1"@,
            values_of(q.params@) == seq![SqlValueView::Text(id@)],
    {
        one_text_statement(
            "SELECT id, user_id, title, description, ingredients, nutritional_info, preparation_time, difficulty_level, meal_type, recipe_instructions, created_at, is_personalized, relevance_score FROM diet_recommendations WHERE id = ?1",
            id,
        )
    }

    /// The statement that reads one recipe.
    pub fn get_recipe_by_id(&self, id: &str) -> (q: Statement)
        ensures
            q.sql@
                == "SELECT id, title, description, ingredients, nutritional_info_per_serving, preparation_time, difficulty_level, meal_type, recipe_instructions, cuisine_type, seasonal, tags, created_at, updated_at FROM recipes WHERE id = ?1"@,
            values_of(q.params@) == seq![SqlValueView::Text(id@)],
    {
        one_text_statement(
            "SELECT id, title, description, ingredients, nutritional_info_per_serving, preparation_time, difficulty_level, meal_type, recipe_instructions, cuisine_type, seasonal, tags, created_at, updated_at FROM recipes WHERE id = ?1",
            id,
        )
    }
}

/// The text of the statement that saves a profile: a new row for a new
/// user; for a known user every field but the identifier and the time of
/// creation is overwritten.
pub open spec fn profile_upsert_sql() -> Seq<char> {
    "INSERT INTO health_profiles (id, user_id, age, gender, weight, height, activity_level, health_goals, dietary_preferences, dietary_restrictions, allergies, created_at, updated_at) VALUES (?1, ?2, ?3, ?4, ?5, ?6, ?7, ?8, ?9, ?10, ?11, ?12, ?13) ON CONFLICT(user_id) DO UPDATE SET age=excluded.age, gender=excluded.gender, weight=excluded.weight, height=excluded.height, activity_level=excluded.activity_level, health_goals=excluded.health_goals, dietary_preferences=excluded.dietary_preferences, dietary_restrictions=excluded.dietary_restrictions, allergies=excluded.allergies, updated_at=excluded.updated_at"@
}

/// The values that saving a profile binds, the four lists given as written.
pub open spec fn profile_values(
    p: HealthProfile,
    goals: Seq<char>,
    preferences: Seq<char>,
    restrictions: Seq<char>,
    allergies: Seq<char>,
) -> Seq<SqlValueView> {
    seq![
        SqlValueView::Id(p.id),
        SqlValueView::Text(p.user_id@),
        SqlValueView::Integer(p.age as int),
        SqlValueView::Text(p.gender@),
        SqlValueView::Thousandths(p.weight as nat),
        SqlValueView::Thousandths(p.height as nat),
        SqlValueView::Text(p.activity_level@),
        SqlValueView::Text(goals),
        SqlValueView::Text(preferences),
        SqlValueView::Text(restrictions),
        SqlValueView::Text(allergies),
        SqlValueView::Timestamp(p.created_at as int),
        SqlValueView::Timestamp(p.updated_at as int),
    ]
}

/// The statement that saves a profile whose four lists are already written
/// as JSON.
pub fn profile_upsert(
    profile: &HealthProfile,
    goals: String,
    preferences: String,
    restrictions: String,
    allergies: String,
) -> (q: Statement)
    ensures
        q.sql@ == profile_upsert_sql(),
        values_of(q.params@) == profile_values(
            *profile,
            goals@,
            preferences@,
            restrictions@,
            allergies@,
        ),
{
    let mut params: Vec<SqlValue> = Vec::new();
    params.push(SqlValue::Id(profile.id));
    params.push(SqlValue::Text(profile.user_id.clone()));
    params.push(SqlValue::Integer(profile.age as i64));
    params.push(SqlValue::Text(profile.gender.clone()));
    params.push(SqlValue::Thousandths(profile.weight));
    params.push(SqlValue::Thousandths(profile.height));
    params.push(SqlValue::Text(profile.activity_level.clone()));
    params.push(SqlValue::Text(goals));
    params.push(SqlValue::Text(preferences));
    params.push(SqlValue::Text(restrictions));
    params.push(SqlValue::Text(allergies));
    params.push(SqlValue::Timestamp(profile.created_at));
    params.push(SqlValue::Timestamp(profile.updated_at));
    assert(values_of(params@) =~= profile_values(
        *profile,
        goals@,
        preferences@,
        restrictions@,
        allergies@,
    ));
    Statement {
        sql:
            "INSERT INTO health_profiles (id, user_id, age, gender, weight, height, activity_level, health_goals, dietary_preferences, dietary_restrictions, allergies, created_at, updated_at) VALUES (?1, ?2, ?3, ?4, ?5, ?6, ?7, ?8, ?9, ?10, ?11, ?12, ?13) ON CONFLICT(user_id) DO UPDATE SET age=excluded.age, gender=excluded.gender, weight=excluded.weight, height=excluded.height, activity_level=excluded.activity_level, health_goals=excluded.health_goals, dietary_preferences=excluded.dietary_preferences, dietary_restrictions=excluded.dietary_restrictions, allergies=excluded.allergies, updated_at=excluded.updated_at".to_owned(),
        params,
    }
}

/// A list of strings as JSON. The writer does not fail on such a list; were
/// it to, the failure would be one of the store whose message starts with
/// `context`.
fn list_as_json(list: &Vec<String>, context: &str) -> (r: AppResult<String>)
    ensures
        r is Ok,
        r matches Ok(text) ==> text@ == json_list_text(texts(list@)),
{
    match json_list(list) {
        Ok(text) => Ok(text),
        Err(e) => {
            let words = json_error_text(&e);
            Err(AppError::Database(context.to_owned().concat(words.as_str())))
        },
    }
}

/// A row of the profiles table as the store hands it over: identifier,
/// quantities and timestamps as values, the four lists of tags still written
/// as JSON.
#[derive(Debug, Clone)]
pub struct ProfileRow {
    pub id: uuid::Uuid,
    pub user_id: String,
    pub age: u32,
    pub gender: String,
    pub weight: u64,
    pub height: u64,
    pub activity_level: String,
    pub health_goals: String,
    pub dietary_preferences: String,
    pub dietary_restrictions: String,
    pub allergies: String,
    pub created_at: i64,
    pub updated_at: i64,
}

/// Whether the four lists of a row can be read.
pub open spec fn is_readable(row: ProfileRow) -> bool {
    &&& json_list_parsed(row.health_goals@) is Some
    &&& json_list_parsed(row.dietary_preferences@) is Some
    &&& json_list_parsed(row.dietary_restrictions@) is Some
    &&& json_list_parsed(row.allergies@) is Some
}

/// Whether `p` is the profile that a readable row holds.
pub open spec fn is_profile_of(p: HealthProfile, row: ProfileRow) -> bool {
    &&& p.id == row.id
    &&& p.user_id@ == row.user_id@
    &&& p.age == row.age
    &&& p.gender@ == row.gender@
    &&& p.weight == row.weight
    &&& p.height == row.height
    &&& p.activity_level@ == row.activity_level@
    &&& json_list_parsed(row.health_goals@) == Some(texts(p.health_goals@))
    &&& json_list_parsed(row.dietary_preferences@) == Some(texts(p.dietary_preferences@))
    &&& json_list_parsed(row.dietary_restrictions@) == Some(texts(p.dietary_restrictions@))
    &&& json_list_parsed(row.allergies@) == Some(texts(p.allergies@))
    &&& p.created_at == row.created_at
    &&& p.updated_at == row.updated_at
}

/// A list of strings read from JSON; a text that holds none becomes a
/// failure of the store.
fn list_from_json(text: &str) -> (r: AppResult<Vec<String>>)
    ensures
        match r {
            Ok(list) => json_list_parsed(text@) == Some(texts(list@)),
            Err(e) => json_list_parsed(text@) is None && e is Database,
        },
{
    match parse_json_list(text) {
        Ok(list) => Ok(list),
        Err(e) => Err(AppError::Database(json_error_text(&e))),
    }
}

/// The profile that a row of the profiles table holds. It is there exactly
/// when the row's four lists can be read; otherwise the failure is one of
/// the store.
pub fn profile_from_row(row: ProfileRow) -> (r: AppResult<HealthProfile>)
    ensures
        r is Ok <==> is_readable(row),
        r matches Ok(p) ==> is_profile_of(p, row),
        r matches Err(e) ==> e is Database,
{
    let health_goals = match list_from_json(row.health_goals.as_str()) {
        Ok(list) => list,
        Err(e) => {
            return Err(e);
        },
    };
    let dietary_preferences = match list_from_json(row.dietary_preferences.as_str()) {
        Ok(list) => list,
        Err(e) => {
            return Err(e);
        },
    };
    let dietary_restrictions = match list_from_json(row.dietary_restrictions.as_str()) {
        Ok(list) => list,
        Err(e) => {
            return Err(e);
        },
    };
    let allergies = match list_from_json(row.allergies.as_str()) {
        Ok(list) => list,
        Err(e) => {
            return Err(e);
        },
    };
    Ok(
        HealthProfile {
            id: row.id,
            user_id: row.user_id,
            age: row.age,
            gender: row.gender,
            weight: row.weight,
            height: row.height,
            activity_level: row.activity_level,
            health_goals,
            dietary_preferences,
            dietary_restrictions,
            allergies,
            created_at: row.created_at,
            updated_at: row.updated_at,
        },
    )
}

/// The text of the statement that logs an attempt at a meal.
pub open spec fn history_insert_sql() -> Seq<char> {
    "INSERT INTO diet_history (id, user_id, diet_item_id, date_attempted, rating, notes, was_prepared, meal_type, created_at, updated_at) VALUES (?1, ?2, ?3, ?4, ?5, ?6, ?7, ?8, ?9, ?10)"@
}

/// The values that logging an attempt binds; a rating or notes that are
/// absent are bound as null.
pub open spec fn history_values(e: DietHistory) -> Seq<SqlValueView> {
    seq![
        SqlValueView::Id(e.id),
        SqlValueView::Text(e.user_id@),
        SqlValueView::Id(e.diet_item_id),
        SqlValueView::Day(e.date_attempted),
        (match e.rating {
            Some(stars) => SqlValueView::Integer(stars as int),
            None => SqlValueView::Null,
        }),
        (match e.notes {
            Some(words) => SqlValueView::Text(words@),
            None => SqlValueView::Null,
        }),
        SqlValueView::Flag(e.was_prepared),
        SqlValueView::Text(e.meal_type@),
        SqlValueView::Timestamp(e.created_at as int),
        SqlValueView::Timestamp(e.updated_at as int),
    ]
}

/// The text of the statement that adds a recipe to the catalogue.
pub open spec fn recipe_insert_sql() -> Seq<char> {
    "INSERT INTO recipes (id, title, description, ingredients, nutritional_info_per_serving, preparation_time, difficulty_level, meal_type, recipe_instructions, cuisine_type, seasonal, tags, created_at, updated_at) VALUES (?1, ?2, ?3, ?4, ?5, ?6, ?7, ?8, ?9, ?10, ?11, ?12, ?13, ?14)"@
}

/// The values that adding a recipe binds, its ingredients, nutrition and
/// tags given as written.
pub open spec fn recipe_values(
    r: Recipe,
    ingredients: Seq<char>,
    nutrition: Seq<char>,
    tags: Seq<char>,
) -> Seq<SqlValueView> {
    seq![
        SqlValueView::Id(r.id),
        SqlValueView::Text(r.title@),
        SqlValueView::Text(r.description@),
        SqlValueView::Text(ingredients),
        SqlValueView::Text(nutrition),
        SqlValueView::Integer(r.preparation_time as int),
        SqlValueView::Text(r.difficulty_level@),
        SqlValueView::Text(r.meal_type@),
        SqlValueView::Text(r.recipe_instructions@),
        (match r.cuisine_type {
            Some(cuisine) => SqlValueView::Text(cuisine@),
            None => SqlValueView::Null,
        }),
        SqlValueView::Flag(r.seasonal),
        SqlValueView::Text(tags),
        SqlValueView::Timestamp(r.created_at as int),
        SqlValueView::Timestamp(r.updated_at as int),
    ]
}

/// The statement that adds a recipe whose ingredients, nutrition and tags
/// are already written as JSON.
pub fn recipe_insert(recipe: &Recipe, ingredients: &str, nutrition: &str, tags: String) -> (q:
    Statement)
    ensures
        q.sql@ == recipe_insert_sql(),
        values_of(q.params@) == recipe_values(*recipe, ingredients@, nutrition@, tags@),
{
    let mut params: Vec<SqlValue> = Vec::new();
    params.push(SqlValue::Id(recipe.id));
    params.push(SqlValue::Text(recipe.title.clone()));
    params.push(SqlValue::Text(recipe.description.clone()));
    params.push(SqlValue::Text(ingredients.to_owned()));
    params.push(SqlValue::Text(nutrition.to_owned()));
    params.push(SqlValue::Integer(recipe.preparation_time as i64));
    params.push(SqlValue::Text(recipe.difficulty_level.clone()));
    params.push(SqlValue::Text(recipe.meal_type.clone()));
    params.push(SqlValue::Text(recipe.recipe_instructions.clone()));
    params.push(
        match &recipe.cuisine_type {
            Some(cuisine) => SqlValue::Text(cuisine.clone()),
            None => SqlValue::Null,
        },
    );
    params.push(SqlValue::Flag(recipe.seasonal));
    params.push(SqlValue::Text(tags));
    params.push(SqlValue::Timestamp(recipe.created_at));
    params.push(SqlValue::Timestamp(recipe.updated_at));
    assert(values_of(params@) =~= recipe_values(*recipe, ingredients@, nutrition@, tags@));
    Statement {
        sql:
            "INSERT INTO recipes (id, title, description, ingredients, nutritional_info_per_serving, preparation_time, difficulty_level, meal_type, recipe_instructions, cuisine_type, seasonal, tags, created_at, updated_at) VALUES (?1, ?2, ?3, ?4, ?5, ?6, ?7, ?8, ?9, ?10, ?11, ?12, ?13, ?14)".to_owned(),
        params,
    }
}

/// The statements that prepare the store when it is opened, but for the
/// diet-history table: keys are enforced where they are declared, and the
/// tables of profiles, recommendations and recipes are created where they
/// are missing.
pub open spec fn schema_sql() -> Seq<Seq<char>> {
    seq![
        "PRAGMA foreign_keys = ON"@,
        "CREATE TABLE IF NOT EXISTS health_profiles (id TEXT PRIMARY KEY, user_id TEXT NOT NULL UNIQUE, age INTEGER NOT NULL, gender TEXT NOT NULL, weight REAL NOT NULL, height REAL NOT NULL, activity_level TEXT NOT NULL, health_goals TEXT NOT NULL, dietary_preferences TEXT NOT NULL, dietary_restrictions TEXT NOT NULL, allergies TEXT NOT NULL, created_at TEXT NOT NULL, updated_at TEXT NOT NULL)"@,
        "CREATE TABLE IF NOT EXISTS diet_recommendations (id TEXT PRIMARY KEY, user_id TEXT NOT NULL, title TEXT NOT NULL, description TEXT, ingredients TEXT NOT NULL, nutritional_info TEXT NOT NULL, preparation_time INTEGER NOT NULL, difficulty_level TEXT NOT NULL, meal_type TEXT NOT NULL, recipe_instructions TEXT NOT NULL, created_at TEXT NOT NULL, is_personalized BOOLEAN NOT NULL, relevance_score REAL NOT NULL, FOREIGN KEY (user_id) REFERENCES health_profiles (user_id))"@,
        "CREATE TABLE IF NOT EXISTS recipes (id TEXT PRIMARY KEY, title TEXT NOT NULL, description TEXT, ingredients TEXT NOT NULL, nutritional_info_per_serving TEXT NOT NULL, preparation_time INTEGER NOT NULL, difficulty_level TEXT NOT NULL, meal_type TEXT NOT NULL, recipe_instructions TEXT NOT NULL, cuisine_type TEXT, seasonal BOOLEAN NOT NULL, tags TEXT NOT NULL, created_at TEXT NOT NULL, updated_at TEXT NOT NULL)"@,
    ]
}

/// The statements that prepare the store when it is opened, but for the
/// diet-history table.
pub fn schema_statements() -> (steps: Vec<String>)
    ensures
        texts(steps@) == schema_sql(),
{
    let mut steps: Vec<String> = Vec::new();
    steps.push("PRAGMA foreign_keys = ON".to_owned());
    steps.push(
        "CREATE TABLE IF NOT EXISTS health_profiles (id TEXT PRIMARY KEY, user_id TEXT NOT NULL UNIQUE, age INTEGER NOT NULL, gender TEXT NOT NULL, weight REAL NOT NULL, height REAL NOT NULL, activity_level TEXT NOT NULL, health_goals TEXT NOT NULL, dietary_preferences TEXT NOT NULL, dietary_restrictions TEXT NOT NULL, allergies TEXT NOT NULL, created_at TEXT NOT NULL, updated_at TEXT NOT NULL)".to_owned(),
    );
    steps.push(
        "CREATE TABLE IF NOT EXISTS diet_recommendations (id TEXT PRIMARY KEY, user_id TEXT NOT NULL, title TEXT NOT NULL, description TEXT, ingredients TEXT NOT NULL, nutritional_info TEXT NOT NULL, preparation_time INTEGER NOT NULL, difficulty_level TEXT NOT NULL, meal_type TEXT NOT NULL, recipe_instructions TEXT NOT NULL, created_at TEXT NOT NULL, is_personalized BOOLEAN NOT NULL, relevance_score REAL NOT NULL, FOREIGN KEY (user_id) REFERENCES health_profiles (user_id))".to_owned(),
    );
    steps.push(
        "CREATE TABLE IF NOT EXISTS recipes (id TEXT PRIMARY KEY, title TEXT NOT NULL, description TEXT, ingredients TEXT NOT NULL, nutritional_info_per_serving TEXT NOT NULL, preparation_time INTEGER NOT NULL, difficulty_level TEXT NOT NULL, meal_type TEXT NOT NULL, recipe_instructions TEXT NOT NULL, cuisine_type TEXT, seasonal BOOLEAN NOT NULL, tags TEXT NOT NULL, created_at TEXT NOT NULL, updated_at TEXT NOT NULL)".to_owned(),
    );
    assert(texts(steps@) =~= schema_sql());
    steps
}

/// A statement with one placeholder, bound to a text.
fn one_text_statement(sql: &str, value: &str) -> (q: Statement)
    ensures
        q.sql@ == sql@,
        values_of(q.params@) == seq![SqlValueView::Text(value@)],
{
    let mut params: Vec<SqlValue> = Vec::new();
    params.push(SqlValue::Text(value.to_owned()));
    assert(values_of(params@) =~= seq![SqlValueView::Text(value@)]);
    Statement { sql: sql.to_owned(), params }
}

/// The pattern that matches every text in which `word` occurs.
pub open spec fn like_pattern(word: Seq<char>) -> Seq<char> {
    "%"@ + word + "%"@
}

/// Writes the pattern that matches every text in which `word` occurs.
pub fn pattern_for(word: &str) -> (r: String)
    ensures
        r@ == like_pattern(word@),
{
    "%".to_owned().concat(word).concat("%")
}

/// What an optional list of words holds; no list counts as an empty one.
pub open spec fn words_in(list: Option<Vec<&str>>) -> Seq<Seq<char>> {
    match list {
        Some(words) => Seq::new(words@.len(), |i: int| words@[i]@),
        None => Seq::<Seq<char>>::empty(),
    }
}

/// The condition of a text search: the words occur in the title or in the
/// description.
pub open spec fn query_conditions(query: Option<Seq<char>>) -> Seq<ConditionView> {
    match query {
        Some(words) => seq![
            (ConditionView {
                column: "title"@,
                also: Some("description"@),
                op: Comparison::Like,
                value: SqlValueView::Text(like_pattern(words)),
            }),
        ],
        None => Seq::<ConditionView>::empty(),
    }
}

/// One condition for each word: `column` is compared by `op` with the
/// pattern for the word.
pub open spec fn list_conditions(column: Seq<char>, op: Comparison, words: Seq<Seq<char>>) -> Seq<
    ConditionView,
> {
    Seq::new(words.len(), |i: int| on_column(column, op, SqlValueView::Text(like_pattern(words[i]))))
}

/// The condition of a longest preparation time, if one is given.
pub open spec fn time_conditions(minutes: Option<u32>) -> Seq<ConditionView> {
    match minutes {
        Some(m) => seq![
            on_column("preparation_time"@, Comparison::AtMost, SqlValueView::Integer(m as int)),
        ],
        None => Seq::<ConditionView>::empty(),
    }
}

/// The condition that `column` equals a text, if one is given.
pub open spec fn equal_conditions(column: Seq<char>, value: Option<Seq<char>>) -> Seq<ConditionView> {
    match value {
        Some(v) => seq![on_column(column, Comparison::Equals, SqlValueView::Text(v))],
        None => Seq::<ConditionView>::empty(),
    }
}

/// The conditions of a recipe search, in the order of their placeholders.
pub open spec fn search_conditions(
    query: Option<Seq<char>>,
    tags: Seq<Seq<char>>,
    excluded: Seq<Seq<char>>,
    max_preparation_time: Option<u32>,
    difficulty_level: Option<Seq<char>>,
    meal_type: Option<Seq<char>>,
) -> Seq<ConditionView> {
    query_conditions(query) + list_conditions("tags"@, Comparison::Like, tags) + list_conditions(
        "ingredients"@,
        Comparison::NotLike,
        excluded,
    ) + time_conditions(max_preparation_time) + equal_conditions(
        "difficulty_level"@,
        difficulty_level,
    ) + equal_conditions("meal_type"@, meal_type)
}

/// The text of the statement that searches the recipes under `conds`.
pub open spec fn search_sql(conds: Seq<ConditionView>, limit: Option<u32>, offset: Option<u32>) -> Seq<
    char,
> {
    "SELECT id, title, description, ingredients, nutritional_info_per_serving, preparation_time, difficulty_level, meal_type, recipe_instructions, cuisine_type, seasonal, tags, created_at, updated_at FROM recipes WHERE 1=1"@
        + where_text(conds, 1) + " ORDER BY title"@ + page_text(limit, offset)
}

/// The values of the conditions, in their order.
fn values_to_bind(conds: Vec<Condition>) -> (params: Vec<SqlValue>)
    ensures
        values_of(params@) == bound_values(conditions_of(conds@)),
{
    let mut params: Vec<SqlValue> = Vec::new();
    assert(values_of(params@) =~= Seq::<SqlValueView>::empty());
    let ghost all = bound_values(conditions_of(conds@));
    bind_conditions(&mut params, conds);
    assert(values_of(params@) =~= all);
    params
}

/// Adds one condition at the end.
fn push_condition(conds: &mut Vec<Condition>, c: Condition)
    ensures
        conditions_of(final(conds)@) == conditions_of(old(conds)@) + seq![c@],
{
    let ghost was = conditions_of(conds@);
    conds.push(c);
    assert(conditions_of(conds@) =~= was + seq![c@]);
}

/// Adds the condition of a text search, if words are given.
fn push_query_condition(conds: &mut Vec<Condition>, query: Option<&str>)
    ensures
        conditions_of(final(conds)@) == conditions_of(old(conds)@) + query_conditions(
            text_of(query),
        ),
{
    let ghost was = conditions_of(conds@);
    match query {
        Some(words) => {
            push_condition(
                conds,
                Condition {
                    column: "title".to_owned(),
                    also: Some("description".to_owned()),
                    op: Comparison::Like,
                    value: SqlValue::Text(pattern_for(words)),
                },
            );
            assert(conditions_of(conds@) =~= was + query_conditions(text_of(query)));
        },
        None => {
            assert(conditions_of(conds@) =~= was + query_conditions(text_of(query)));
        },
    }
}

/// Adds the condition of a longest preparation time, if one is given.
fn push_time_condition(conds: &mut Vec<Condition>, minutes: Option<u32>)
    ensures
        conditions_of(final(conds)@) == conditions_of(old(conds)@) + time_conditions(minutes),
{
    let ghost was = conditions_of(conds@);
    match minutes {
        Some(m) => {
            push_condition(
                conds,
                Condition {
                    column: "preparation_time".to_owned(),
                    also: None,
                    op: Comparison::AtMost,
                    value: SqlValue::Integer(m as i64),
                },
            );
            assert(conditions_of(conds@) =~= was + time_conditions(minutes));
        },
        None => {
            assert(conditions_of(conds@) =~= was + time_conditions(minutes));
        },
    }
}

/// Adds the condition that `column` equals a text, if one is given.
fn push_equal_condition(conds: &mut Vec<Condition>, column: &str, value: Option<&str>)
    ensures
        conditions_of(final(conds)@) == conditions_of(old(conds)@) + equal_conditions(
            column@,
            text_of(value),
        ),
{
    let ghost was = conditions_of(conds@);
    match value {
        Some(v) => {
            push_condition(conds, text_condition(column, Comparison::Equals, v));
            assert(conditions_of(conds@) =~= was + equal_conditions(column@, text_of(value)));
        },
        None => {
            assert(conditions_of(conds@) =~= was + equal_conditions(column@, text_of(value)));
        },
    }
}

/// Adds one condition for each word of the list, if there is one.
fn push_list_conditions(
    conds: &mut Vec<Condition>,
    column: &str,
    op: Comparison,
    list: &Option<Vec<&str>>,
)
    ensures
        conditions_of(final(conds)@) == conditions_of(old(conds)@) + list_conditions(
            column@,
            op,
            words_in(*list),
        ),
{
    let ghost was = conditions_of(conds@);
    match list {
        Some(words) => {
            push_word_conditions(conds, column, op, words);
        },
        None => {
            assert(conditions_of(conds@) =~= was + list_conditions(column@, op, words_in(*list)));
        },
    }
}

/// Builds the conditions of a recipe search.
pub fn search_filter(
    query: Option<&str>,
    tags: &Option<Vec<&str>>,
    exclude_ingredients: &Option<Vec<&str>>,
    max_preparation_time: Option<u32>,
    difficulty_level: Option<&str>,
    meal_type: Option<&str>,
) -> (conds: Vec<Condition>)
    ensures
        conditions_of(conds@) == search_conditions(
            text_of(query),
            words_in(*tags),
            words_in(*exclude_ingredients),
            max_preparation_time,
            text_of(difficulty_level),
            text_of(meal_type),
        ),
{
    let mut conds: Vec<Condition> = Vec::new();
    assert(conditions_of(conds@) =~= Seq::<ConditionView>::empty());
    push_query_condition(&mut conds, query);
    assert(conditions_of(conds@) =~= query_conditions(text_of(query)));
    push_list_conditions(&mut conds, "tags", Comparison::Like, tags);
    push_list_conditions(&mut conds, "ingredients", Comparison::NotLike, exclude_ingredients);
    push_time_condition(&mut conds, max_preparation_time);
    push_equal_condition(&mut conds, "difficulty_level", difficulty_level);
    push_equal_condition(&mut conds, "meal_type", meal_type);
    conds
}

/// Adds one condition for each word of `words`.
fn push_word_conditions(conds: &mut Vec<Condition>, column: &str, op: Comparison, words: &Vec<&str>)
    ensures
        conditions_of(final(conds)@) == conditions_of(old(conds)@) + list_conditions(
            column@,
            op,
            words_in(Some(*words)),
        ),
{
    let ghost before = conditions_of(conds@);
    let ghost all = list_conditions(column@, op, words_in(Some(*words)));
    let mut i: usize = 0;
    while i < words.len()
        invariant
            i <= words@.len(),
            all.len() == words@.len(),
            all == list_conditions(column@, op, words_in(Some(*words))),
            conditions_of(conds@) == before + all.take(i as int),
        decreases words.len() - i,
    {
        let ghost was = conditions_of(conds@);
        let c = Condition {
            column: column.to_owned(),
            also: None,
            op,
            value: SqlValue::Text(pattern_for(words[i])),
        };
        assert(c@ == all[i as int]);
        conds.push(c);
        proof {
            assert(conditions_of(conds@) =~= was.push(all[i as int]));
            assert(before + all.take(i + 1) =~= (before + all.take(i as int)).push(all[i as int]));
        }
        i += 1;
    }
    proof {
        assert(all.take(i as int) == all);
    }
}

/// The columns that a change of a diet entry writes besides the time of the
/// change: rating, notes and the prepared flag, each only if it is given.
pub open spec fn update_assignments(
    rating: Option<u8>,
    notes: Option<String>,
    was_prepared: Option<bool>,
) -> Seq<ConditionView> {
    (match rating {
        Some(stars) => seq![
            on_column("rating"@, Comparison::Equals, SqlValueView::Integer(stars as int)),
        ],
        None => Seq::<ConditionView>::empty(),
    }) + (match notes {
        Some(words) => seq![on_column("notes"@, Comparison::Equals, SqlValueView::Text(words@))],
        None => Seq::<ConditionView>::empty(),
    }) + (match was_prepared {
        Some(done) => seq![on_column("was_prepared"@, Comparison::Equals, SqlValueView::Flag(done))],
        None => Seq::<ConditionView>::empty(),
    })
}

/// The text of the statement that changes a diet entry: the time of the
/// change behind placeholder 1, the other columns behind the next ones, and
/// the entry's identifier behind the last.
pub open spec fn update_sql(sets: Seq<ConditionView>) -> Seq<char> {
    "UPDATE diet_history SET updated_at = ?1"@ + clauses_text(sets, 2, ", "@) + " WHERE id = ?"@
        + decimal_text(2 + sets.len())
}

/// The values that the change of a diet entry binds.
pub open spec fn update_params(at: i64, sets: Seq<ConditionView>, id: Seq<char>) -> Seq<
    SqlValueView,
> {
    (seq![SqlValueView::Timestamp(at as int)] + bound_values(sets)).push(SqlValueView::Text(id))
}

/// What a change or a deletion of one diet entry came to, given the number
/// of rows that the statement touched: an entry that is not there is
/// reported as not found, which is different from a change that writes
/// nothing new.
pub fn entry_outcome(rows_affected: usize, id: &str) -> (r: AppResult<()>)
    ensures
        r is Err <==> rows_affected == 0,
        r matches Err(e) ==> e is NotFound && e.detail() == "Diet entry with id "@ + id@
            + " not found"@,
{
    if rows_affected == 0 {
        let msg = "Diet entry with id ".to_owned().concat(id).concat(" not found");
        return Err(AppError::NotFound(msg));
    }
    Ok(())
}

/// What the diet-history table needs when the store is opened.
#[derive(Debug, Clone, Copy, PartialEq, Eq, Structural)]
pub enum HistoryTableAction {
    /// There is no table: create it.
    Create,
    /// The table refers to the profiles by a declared key: rebuild it
    /// without that key, keeping every row.
    Rebuild,
    /// The table is as it should be.
    Keep,
}

/// What the store finds of the diet-history table when it is opened.
#[derive(Debug, Clone, Copy, PartialEq, Eq, Structural)]
pub struct HistoryTableState {
    pub exists: bool,
    pub has_foreign_key: bool,
}

/// Decides what the diet-history table needs.
pub open spec fn needed_action(state: HistoryTableState) -> HistoryTableAction {
    if !state.exists {
        HistoryTableAction::Create
    } else if state.has_foreign_key {
        HistoryTableAction::Rebuild
    } else {
        HistoryTableAction::Keep
    }
}

/// The state that the table is in once an action has been carried out: a
/// created or rebuilt table exists and declares no key.
pub open spec fn state_after(state: HistoryTableState, action: HistoryTableAction) -> HistoryTableState {
    match action {
        HistoryTableAction::Keep => state,
        _ => HistoryTableState { exists: true, has_foreign_key: false },
    }
}

/// The diet-history table as a store holds it: what the store finds of it
/// when it is opened, and its rows, each a list of values. The rows of a
/// table that is not there are of no account.
pub struct HistoryTable {
    pub state: HistoryTableState,
    pub rows: Seq<Seq<SqlValueView>>,
}

/// The table once the statements of an action have been carried out: a
/// created table is empty, a rebuilt one holds every row that it held, and
/// neither declares a key.
pub open spec fn table_after(table: HistoryTable, action: HistoryTableAction) -> HistoryTable {
    match action {
        HistoryTableAction::Keep => table,
        HistoryTableAction::Create => HistoryTable {
            state: state_after(table.state, action),
            rows: Seq::<Seq<SqlValueView>>::empty(),
        },
        HistoryTableAction::Rebuild => HistoryTable {
            state: state_after(table.state, action),
            rows: table.rows,
        },
    }
}

/// The table once the store has been opened: the needed action has been
/// carried out.
pub open spec fn opened(table: HistoryTable) -> HistoryTable {
    table_after(table, needed_action(table.state))
}

/// Opening the store twice leaves the table as opening it once does: after
/// the first opening the table is there without a key, with every row that
/// it held before if it was there before; the second opening needs no
/// action and changes neither the table's state nor a row.
pub proof fn lemma_opening_twice_is_opening_once(table: HistoryTable)
    ensures
        opened(table).state == (HistoryTableState { exists: true, has_foreign_key: false }),
        table.state.exists ==> opened(table).rows == table.rows,
        needed_action(opened(table).state) == HistoryTableAction::Keep,
        action_statements(needed_action(opened(table).state)).len() == 0,
        opened(opened(table)) == opened(table),
{
}

/// Opening the store a second time changes nothing: whatever the table's
/// state was, once the needed action has been carried out no action is
/// needed, and the state stays as it is.
pub proof fn lemma_migration_settles(state: HistoryTableState)
    ensures
        ({
            let once = state_after(state, needed_action(state));
            needed_action(once) == HistoryTableAction::Keep && state_after(once, needed_action(once))
                == once
        }),
{
}

/// Decides what the diet-history table needs when the store is opened.
pub fn plan_history_table(state: HistoryTableState) -> (action: HistoryTableAction)
    ensures
        action == needed_action(state),
{
    if !state.exists {
        HistoryTableAction::Create
    } else if state.has_foreign_key {
        HistoryTableAction::Rebuild
    } else {
        HistoryTableAction::Keep
    }
}

/// The definition of the diet-history table under the name `name`, without
/// any declared key to the profiles.
pub open spec fn history_table_sql(name: Seq<char>) -> Seq<char> {
    "CREATE TABLE "@ + name
        + " (id TEXT PRIMARY KEY, user_id TEXT NOT NULL, diet_item_id TEXT NOT NULL, date_attempted TEXT NOT NULL, rating INTEGER, notes TEXT, was_prepared BOOLEAN NOT NULL, meal_type TEXT NOT NULL, created_at TEXT NOT NULL, updated_at TEXT NOT NULL)"@
}

/// Writes the definition of the diet-history table under the name `name`.
fn history_table_definition(name: &str) -> (r: String)
    ensures
        r@ == history_table_sql(name@),
{
    "CREATE TABLE ".to_owned().concat(name).concat(
        " (id TEXT PRIMARY KEY, user_id TEXT NOT NULL, diet_item_id TEXT NOT NULL, date_attempted TEXT NOT NULL, rating INTEGER, notes TEXT, was_prepared BOOLEAN NOT NULL, meal_type TEXT NOT NULL, created_at TEXT NOT NULL, updated_at TEXT NOT NULL)",
    )
}

/// The statements of an action on the diet-history table, in their order.
pub open spec fn action_statements(action: HistoryTableAction) -> Seq<Seq<char>> {
    match action {
        HistoryTableAction::Create => seq![history_table_sql("diet_history"@)],
        HistoryTableAction::Rebuild => seq![
            history_table_sql("diet_history_new"@),
            "INSERT INTO diet_history_new SELECT * FROM diet_history"@,
            "DROP TABLE diet_history"@,
            "ALTER TABLE diet_history_new RENAME TO diet_history"@,
        ],
        HistoryTableAction::Keep => Seq::<Seq<char>>::empty(),
    }
}

/// The statements that carry out an action on the diet-history table; those
/// of a rebuild are to be run inside one transaction.
pub fn history_table_statements(action: HistoryTableAction) -> (steps: Vec<String>)
    ensures
        crate::text::texts(steps@) == action_statements(action),
{
    let mut steps: Vec<String> = Vec::new();
    match action {
        HistoryTableAction::Create => {
            steps.push(history_table_definition("diet_history"));
        },
        HistoryTableAction::Rebuild => {
            steps.push(history_table_definition("diet_history_new"));
            steps.push("INSERT INTO diet_history_new SELECT * FROM diet_history".to_owned());
            steps.push("DROP TABLE diet_history".to_owned());
            steps.push("ALTER TABLE diet_history_new RENAME TO diet_history".to_owned());
        },
        HistoryTableAction::Keep => {},
    }
    assert(crate::text::texts(steps@) =~= action_statements(action));
    steps
}

} // verus!