//! The record store: the rows it holds and the operations on them.

use crate::sqlite;
use crate::text::occurs;
use crate::wt_types::{all_well_formed, C_Set};
use rusqlite::types::Value;
use rusqlite::Connection;
use vstd::prelude::*;
use vstd::utf8::encode_utf8;

verus! {

/// One row of the table of users.
#[derive(Debug)]
pub struct User {
    pub id: u32,
    pub username: String,
    pub password_hash: String,
}

/// One row of the table of exercises: an exercise that a user has defined.
#[derive(Debug)]
pub struct Exercise {
    pub id: u32,
    pub user_id: u32,
    pub name: String,
    pub description: Option<String>,
    pub muscle_group: Option<String>,
}

/// One row of the table of workouts.
#[derive(Debug)]
pub struct Workout {
    pub id: u32,
    pub user_id: u32,
    pub name: Option<String>,
    pub start_time: String,
    pub end_time: Option<String>,
    pub notes: Option<String>,
}

/// One row of the table that says which exercise was done in which workout.
#[derive(Debug)]
pub struct WorkoutExercise {
    pub id: u32,
    pub workout_id: u32,
    pub exercise_id: u32,
}

/// One row of the table of sets.
#[derive(Debug)]
pub struct SetRow {
    pub id: u32,
    pub workout_exercise_id: u32,
    pub set_number: u32,
    pub weight: Value,
    pub reps: u32,
}

/// Why the store did not do what was asked.
#[derive(Debug)]
pub enum StoreError {
    /// A query for one row found none.
    NoRows,
    /// The database refused the call.
    Engine(rusqlite::Error),
}

/// The text for a query that found no row.
pub open spec fn no_rows_message() -> Seq<char> {
    "Query returned no rows"@
}

impl StoreError {
    /// The text for this error, as the database library words it.
    pub fn message(&self) -> (text: String)
        ensures
            self is NoRows ==> text@ == no_rows_message(),
    {
        match self {
            StoreError::NoRows => sqlite::no_rows_text(),
            StoreError::Engine(error) => sqlite::error_text(error),
        }
    }
}

/// Whether `value` is the text `text`.
pub open spec fn is_text(value: Value, text: Seq<char>) -> bool {
    value matches Value::Text(t) && t@ == text
}

/// Whether `value` is the text `text`, or SQL's null where there is none.
pub open spec fn is_optional_text(value: Value, text: Option<Seq<char>>) -> bool {
    match text {
        Some(t) => is_text(value, t),
        None => value is Null,
    }
}

/// The characters of an optional text.
pub open spec fn optional_view(text: Option<&str>) -> Option<Seq<char>> {
    match text {
        Some(t) => Some(t@),
        None => None,
    }
}

/// The SQL value for an identifier.
pub fn integer_value(id: u32) -> (value: Value)
    ensures
        value == Value::Integer(id as i64),
{
    Value::Integer(id as i64)
}

/// The SQL value for a text.
pub fn text_value(t: &str) -> (value: Value)
    ensures
        is_text(value, t@),
{
    Value::Text(t.to_owned())
}

/// The SQL value for a text that may be missing.
pub fn optional_text_value(t: Option<&str>) -> (value: Value)
    ensures
        is_optional_text(value, optional_view(t)),
{
    match t {
        Some(t) => text_value(t),
        None => Value::Null,
    }
}

/// The values that select or name one row by its identifier.
pub fn id_values(id: u32) -> (values: Vec<Value>)
    ensures
        values@ == seq![Value::Integer(id as i64)],
{
    let mut values: Vec<Value> = Vec::new();
    values.push(integer_value(id));
    values
}

/// The values that are stored for a new user, in the order of the columns:
/// name, then password hash.
pub fn user_values(username: &str, password_hash: &str) -> (values: Vec<Value>)
    ensures
        values@.len() == 2,
        is_text(values@[0], username@),
        is_text(values@[1], password_hash@),
{
    let mut values: Vec<Value> = Vec::new();
    values.push(text_value(username));
    values.push(text_value(password_hash));
    values
}

/// The values that are stored for a new exercise, in the order of the
/// columns: user, name, description, muscle group. A text that is missing is
/// stored as null.
pub fn exercise_values(
    user_id: u32,
    name: &str,
    description: Option<&str>,
    muscle_group: Option<&str>,
) -> (values: Vec<Value>)
    ensures
        values@.len() == 4,
        values@[0] == Value::Integer(user_id as i64),
        is_text(values@[1], name@),
        is_optional_text(values@[2], optional_view(description)),
        is_optional_text(values@[3], optional_view(muscle_group)),
{
    let mut values: Vec<Value> = Vec::new();
    values.push(integer_value(user_id));
    values.push(text_value(name));
    values.push(optional_text_value(description));
    values.push(optional_text_value(muscle_group));
    values
}

/// The identifier that the store hands out for a row id: its low 32 bits,
/// which is the row id itself as long as that fits.
pub fn id_of_rowid(rowid: i64) -> (id: u32)
    ensures
        id == rowid as u32,
        0 <= rowid <= u32::MAX ==> id == rowid,
{
    #[verifier::truncate]
    (rowid as u32)
}

/// What the search for a user comes to: the user's identifier if a row was
/// found, `NoRows` if none was, or the database's error.
pub fn found_user(found: Result<bool, rusqlite::Error>, user_id: u32) -> (r: Result<
    u32,
    StoreError,
>)
    ensures
        match found {
            Ok(true) => r == Ok::<u32, StoreError>(user_id),
            Ok(false) => r == Err::<u32, StoreError>(StoreError::NoRows),
            Err(e) => r == Err::<u32, StoreError>(StoreError::Engine(e)),
        },
{
    match found {
        Ok(true) => Ok(user_id),
        Ok(false) => Err(StoreError::NoRows),
        Err(e) => Err(StoreError::Engine(e)),
    }
}

/// One row of the table of exercises as the database gives it: identifier,
/// user, name, description, muscle group.
pub type ExerciseRow = (u32, u32, String, Option<String>, Option<String>);

/// The exercise that a row holds.
pub open spec fn exercise_of(row: ExerciseRow) -> Exercise {
    Exercise { id: row.0, user_id: row.1, name: row.2, description: row.3, muscle_group: row.4 }
}

/// Whether every row before `upto` was read without error.
pub open spec fn all_read(rows: Seq<Result<ExerciseRow, rusqlite::Error>>, upto: int) -> bool {
    forall|i: int| 0 <= i < upto ==> (#[trigger] rows[i]) is Ok
}

/// The exercises of the first `upto` rows, all of which were read.
pub open spec fn exercises_of(rows: Seq<Result<ExerciseRow, rusqlite::Error>>, upto: int) -> Seq<
    Exercise,
> {
    Seq::new(upto as nat, |i: int| exercise_of(rows[i]->Ok_0))
}

/// What a listing comes to: the exercises of all rows in order, or the error
/// of the first row that could not be read.
pub fn listed(rows: Vec<Result<ExerciseRow, rusqlite::Error>>) -> (r: Result<
    Vec<Exercise>,
    StoreError,
>)
    ensures
        match r {
            Ok(exercises) => all_read(rows@, rows@.len() as int) && exercises@ == exercises_of(
                rows@,
                rows@.len() as int,
            ),
            Err(e) => exists|i: int|
                0 <= i < rows@.len() && all_read(rows@, i) && rows@[i] is Err && e
                    == StoreError::Engine(rows@[i]->Err_0),
        },
{
    let mut exercises: Vec<Exercise> = Vec::new();
    let ghost all = rows@;
    for row in it: rows
        invariant
            it.seq() == all,
            all_read(all, it.index()),
            exercises@ == exercises_of(all, it.index()),
    {
        match row {
            Ok(fields) => {
                exercises.push(
                    Exercise {
                        id: fields.0,
                        user_id: fields.1,
                        name: fields.2,
                        description: fields.3,
                        muscle_group: fields.4,
                    },
                );
            },
            Err(e) => {
                return Err(StoreError::Engine(e));
            },
        }
    }
    Ok(exercises)
}

/// The workout that has just been created under `rowid`: nothing but its
/// identifier and its user is set.
pub fn fresh_workout(rowid: i64, user_id: u32) -> (w: Workout)
    ensures
        w.id == rowid as u32,
        w.user_id == user_id,
        w.name is None,
        w.start_time@ == Seq::<char>::empty(),
        w.end_time is None,
        w.notes is None,
{
    Workout {
        id: id_of_rowid(rowid),
        user_id,
        name: None,
        start_time: String::new(),
        end_time: None,
        notes: None,
    }
}

impl SetRow {
    /// Whether the weight of this row is a real number.
    pub open spec fn well_formed(&self) -> bool {
        self.weight is Real
    }
}

/// The row that is stored for a decoded set: the set's own values, under an
/// identifier that is not yet given.
pub open spec fn row_of(record: C_Set) -> SetRow {
    SetRow {
        id: 0,
        workout_exercise_id: record.workout_exercise_id,
        set_number: record.set_number,
        weight: record.weight,
        reps: record.reps,
    }
}

/// The rows that are stored for decoded sets: one for each set, in order.
pub open spec fn rows_of(sets: Seq<C_Set>) -> Seq<SetRow> {
    Seq::new(sets.len(), |i: int| row_of(sets[i]))
}

/// Makes the row to store for a decoded set.
pub fn set_row(record: &C_Set) -> (row: SetRow)
    requires
        record.well_formed(),
    ensures
        row == row_of(*record),
        row.well_formed(),
{
    SetRow {
        id: 0,
        workout_exercise_id: record.workout_exercise_id,
        set_number: record.set_number,
        weight: record.weight.clone(),
        reps: record.reps,
    }
}

/// Makes the rows to store for decoded sets.
pub fn set_rows(sets: &Vec<C_Set>) -> (rows: Vec<SetRow>)
    requires
        all_well_formed(sets@),
    ensures
        rows@ == rows_of(sets@),
        forall|i: int| 0 <= i < rows@.len() ==> (#[trigger] rows@[i]).well_formed(),
{
    let mut rows: Vec<SetRow> = Vec::new();
    let mut i: usize = 0;
    while i < sets.len()
        invariant
            i <= sets.len(),
            all_well_formed(sets@),
            rows@ == rows_of(sets@.take(i as int)),
            forall|k: int| 0 <= k < rows@.len() ==> (#[trigger] rows@[k]).well_formed(),
        decreases sets.len() - i,
    {
        rows.push(set_row(&sets[i]));
        i += 1;
    }
    assert(sets@.take(i as int) == sets@);
    rows
}

/// The values that are stored for a set, in the order of the columns:
/// exercise, number of the set, weight, repetitions. The weight is a real
/// number.
pub fn set_values(row: &SetRow) -> (values: Vec<Value>)
    requires
        row.well_formed(),
    ensures
        values@ == seq![
            Value::Integer(row.workout_exercise_id as i64),
            Value::Integer(row.set_number as i64),
            row.weight,
            Value::Integer(row.reps as i64),
        ],
        values@[2] is Real,
{
    let mut values: Vec<Value> = Vec::new();
    values.push(integer_value(row.workout_exercise_id));
    values.push(integer_value(row.set_number));
    values.push(row.weight.clone());
    values.push(integer_value(row.reps));
    values
}

/// What saving `count` sets comes to, by how the creation of their workout
/// went: the count if the workout was created, else the error of the
/// creation.
pub open spec fn saved_as(created: Result<Workout, StoreError>, count: nat) -> Result<
    u32,
    StoreError,
> {
    match created {
        Ok(_) => Ok(count as u32),
        Err(e) => Err(e),
    }
}

/// Gives what saving `count` sets comes to.
pub fn saved(created: Result<Workout, StoreError>, count: u32) -> (r: Result<u32, StoreError>)
    ensures
        r == saved_as(created, count as nat),
{
    match created {
        Ok(_) => Ok(count),
        Err(e) => Err(e),
    }
}

/// The statements that the store runs.
#[derive(Clone, Copy, Debug, PartialEq, Eq)]
pub enum Statement {
    InsertUser,
    DeleteUser,
    InsertExercise,
    SelectExercises,
    SelectUser,
    InsertWorkout,
    InsertSet,
}

/// The SQL text of a statement. Its parameters are numbered in the order in
/// which the values are handed over.
pub open spec fn statement_text(statement: Statement) -> Seq<char> {
    match statement {
        Statement::InsertUser => "INSERT INTO users (username, password_hash) VALUES (?1, ?2)"@,
        Statement::DeleteUser => "DELETE FROM users WHERE id = ?1"@,
        Statement::InsertExercise => "INSERT INTO user_exercises (user_id, name, description, muscle_group) VALUES (?1, ?2, ?3, ?4)"@,
        Statement::SelectExercises => "SELECT id, user_id, name, description, muscle_group FROM user_exercises WHERE user_id = ?1"@,
        Statement::SelectUser => "SELECT id FROM users WHERE id = ?1"@,
        Statement::InsertWorkout => "INSERT INTO workouts (user_id) VALUES (?1)"@,
        Statement::InsertSet => "INSERT INTO sets (workout_exercise_id, set_number, weight, reps) VALUES (?1, ?2, ?3, ?4)"@,
    }
}

impl Statement {
    /// The SQL text of this statement.
    pub fn sql(&self) -> (text: &'static str)
        ensures
            text@ == statement_text(*self),
    {
        match self {
            Statement::InsertUser => "INSERT INTO users (username, password_hash) VALUES (?1, ?2)",
            Statement::DeleteUser => "DELETE FROM users WHERE id = ?1",
            Statement::InsertExercise => "INSERT INTO user_exercises (user_id, name, description, muscle_group) VALUES (?1, ?2, ?3, ?4)",
            Statement::SelectExercises => "SELECT id, user_id, name, description, muscle_group FROM user_exercises WHERE user_id = ?1",
            Statement::SelectUser => "SELECT id FROM users WHERE id = ?1",
            Statement::InsertWorkout => "INSERT INTO workouts (user_id) VALUES (?1)",
            Statement::InsertSet => "INSERT INTO sets (workout_exercise_id, set_number, weight, reps) VALUES (?1, ?2, ?3, ?4)",
        }
    }
}

/// The record store: one open database.
pub struct DatabaseHandler {
    pub conn: Connection,
}

impl DatabaseHandler {
    /// Opens the store at `db_path`. A path that holds a zero byte names no
    /// store and is refused; any other path is for the database to open.
    pub fn new(db_path: &str) -> (r: Result<Self, StoreError>)
        ensures
            occurs(encode_utf8(db_path@), 0u8) ==> r is Err,
            r matches Err(e) ==> e is Engine,
    {
        match sqlite::open(db_path) {
            Ok(conn) => Ok(DatabaseHandler { conn }),
            Err(e) => Err(StoreError::Engine(e)),
        }
    }

    /// Stores a new user and gives the identifier of its row.
    pub fn register_user(&self, username: &str, password_hash: &str) -> (r: Result<
        u32,
        StoreError,
    >)
        ensures
            r matches Err(e) ==> e is Engine,
    {
        match sqlite::execute(
            &self.conn,
            Statement::InsertUser.sql(),
            &user_values(username, password_hash),
        ) {
            Ok(_) => Ok(id_of_rowid(sqlite::last_insert_rowid(&self.conn))),
            Err(e) => Err(StoreError::Engine(e)),
        }
    }

    /// Removes the user with this identifier, if there is one.
    pub fn delete_user(&self, user_id: u32) -> (r: Result<(), StoreError>)
        ensures
            r matches Err(e) ==> e is Engine,
    {
        match sqlite::execute(&self.conn, Statement::DeleteUser.sql(), &id_values(user_id)) {
            Ok(_) => Ok(()),
            Err(e) => Err(StoreError::Engine(e)),
        }
    }

    /// Stores a new exercise for a user and gives the identifier of its row.
    pub fn add_exercise_to_user(
        &self,
        user_id: u32,
        name: &str,
        description: Option<&str>,
        muscle_group: Option<&str>,
    ) -> (r: Result<u32, StoreError>)
        ensures
            r matches Err(e) ==> e is Engine,
    {
        match sqlite::execute(
            &self.conn,
            Statement::InsertExercise.sql(),
            &exercise_values(user_id, name, description, muscle_group),
        ) {
            Ok(_) => Ok(id_of_rowid(sqlite::last_insert_rowid(&self.conn))),
            Err(e) => Err(StoreError::Engine(e)),
        }
    }

    /// The exercises of a user, in the order in which the database gives them.
    pub fn get_user_exercises(&self, user_id: u32) -> (r: Result<Vec<Exercise>, StoreError>)
        ensures
            r matches Err(e) ==> e is Engine,
    {
        match sqlite::exercise_rows(
            &self.conn,
            Statement::SelectExercises.sql(),
            &id_values(user_id),
        ) {
            Ok(rows) => listed(rows),
            Err(e) => Err(StoreError::Engine(e)),
        }
    }

    /// Whether a user with this identifier is stored: its identifier if so,
    /// `NoRows` if not.
    pub fn is_valid_user(&self, user_id: u32) -> (r: Result<u32, StoreError>)
        ensures
            r matches Ok(id) ==> id == user_id,
    {
        found_user(
            sqlite::has_row(&self.conn, Statement::SelectUser.sql(), &id_values(user_id)),
            user_id,
        )
    }

    /// Creates a workout for a user.
    pub fn new_workout(&self, user_id: u32) -> (r: Result<Workout, StoreError>)
        ensures
            r matches Ok(w) ==> w.user_id == user_id && w.name is None && w.start_time@
                == Seq::<char>::empty() && w.end_time is None && w.notes is None,
            r matches Err(e) ==> e is Engine,
    {
        match sqlite::execute(
            &self.conn,
            Statement::InsertWorkout.sql(),
            &id_values(user_id),
        ) {
            Ok(_) => Ok(fresh_workout(sqlite::last_insert_rowid(&self.conn), user_id)),
            Err(e) => Err(StoreError::Engine(e)),
        }
    }

    /// Creates a workout for the user and then stores the rows of the sets,
    /// one for each set and in order. If the workout cannot be created, that
    /// error is returned and no set is stored. A set that the database
    /// refuses is passed over. Gives the number of sets that were handed in.
    pub fn save_sets(&self, user_id: u32, sets: Vec<C_Set>) -> (r: Result<u32, StoreError>)
        requires
            sets@.len() <= u32::MAX,
            all_well_formed(sets@),
        ensures
            exists|created: Result<Workout, StoreError>|
                r == saved_as(created, sets@.len()) && (created matches Ok(workout)
                    ==> workout.user_id == user_id) && (created matches Err(e) ==> e is Engine),
    {
        let count: u32 = sets.len() as u32;
        let rows = set_rows(&sets);
        let created = self.new_workout(user_id);
        if created.is_ok() {
            let mut k: usize = 0;
            while k < rows.len()
                invariant
                    k <= rows.len(),
                    forall|i: int| 0 <= i < rows@.len() ==> (#[trigger] rows@[i]).well_formed(),
                decreases rows.len() - k,
            {
                let _ = sqlite::execute(
                    &self.conn,
                    Statement::InsertSet.sql(),
                    &set_values(&rows[k]),
                );
                k += 1;
            }
        }
        saved(created, count)
    }
}

} // verus!
