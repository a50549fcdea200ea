//! The route dispatcher. It decides what a request asks for, asks the store,
//! and builds the response. Where the native codec has to run, it hands back
//! a step that says what to encode or decode, and finishes once the result is
//! there.

use crate::bridge::{
    c_text, empty_array, encode_exercises, encoded, encoded_text, Encoding, OUTPUT_CAPACITY,
};
use crate::codec::{convert_db_exercise, is_record_of};
use crate::database_handler;
use crate::database_handler::{no_rows_message, DatabaseHandler, StoreError};
use crate::request::{parse_request, request_of, user_id, user_id_of, Request, RequestView};
use crate::response::{
    accepted, accepted_reply, exercises, exercises_reply, malformed, malformed_reply,
    missing_user, missing_user_message, missing_user_page, not_found, not_found_reply, overflow,
    overflow_reply, refusal, refusal_reply, store_failure, store_failure_reply, Response,
    ResponseView,
};
use crate::text::{chars_of, occurs, text_of, trim, trim_chars};
use crate::wt_types::{all_well_formed, C_Set, Exercise};
use vstd::prelude::*;
use vstd::utf8::encode_utf8;

verus! {

/// What a request asks for.
#[derive(Clone, Copy, Debug, PartialEq, Eq)]
pub enum Route {
    /// Its request line has fewer than three words.
    Malformed,
    /// The exercises of the user it names, if it names one.
    Exercises(Option<u32>),
    /// To store a workout for the user it names, if it names one.
    Workout(Option<u32>),
    /// Anything else.
    NotFound,
}

/// The route of a request: by its path alone, which must match exactly. The
/// method takes no part in it.
pub open spec fn route_of(request: Option<RequestView>) -> Route {
    match request {
        None => Route::Malformed,
        Some(q) => if q.path == "/exercises"@ {
            Route::Exercises(user_id_of(q.params))
        } else if q.path == "/workout"@ {
            Route::Workout(user_id_of(q.params))
        } else {
            Route::NotFound
        },
    }
}

/// Whether `text` is exactly `wanted`.
fn is_exactly(text: &String, wanted: &str) -> (same: bool)
    ensures
        same == (text@ == wanted@),
{
    *text == wanted.to_owned()
}

/// The request that `request` holds, if it holds one.
pub open spec fn view_of(request: Option<Request>) -> Option<RequestView> {
    match request {
        Some(q) => Some(q@),
        None => None,
    }
}

/// Finds the route of a request; `None` stands for a request line that could
/// not be read.
pub fn route(request: &Option<Request>) -> (r: Route)
    ensures
        r == route_of(view_of(*request)),
{
    match request {
        None => Route::Malformed,
        Some(q) => {
            if is_exactly(&q.path, "/exercises") {
                Route::Exercises(user_id(&q.params))
            } else if is_exactly(&q.path, "/workout") {
                Route::Workout(user_id(&q.params))
            } else {
                Route::NotFound
            }
        },
    }
}

/// What is to be done next for a request.
pub enum Step {
    /// Send this response.
    Reply(Response),
    /// Run the native encoder on these records with this output buffer, then
    /// finish with `encoded_reply`.
    Encode { records: Vec<Exercise>, buffer: Vec<u8> },
    /// Run the native decoder on this zero-terminated text for this user,
    /// then finish with `workout_reply`.
    Decode { user_id: u32, text: Vec<u8> },
}

/// Whether `step` is to send `reply`.
pub open spec fn is_reply(step: Step, reply: ResponseView) -> bool {
    step matches Step::Reply(r) && r@ == reply
}

/// Whether `records` are what the native encoder gets for `stored`, one for
/// one and in order.
pub open spec fn are_records_of(
    records: Seq<Exercise>,
    stored: Seq<database_handler::Exercise>,
) -> bool {
    &&& records.len() == stored.len()
    &&& forall|i: int| 0 <= i < records.len() ==> is_record_of(#[trigger] records[i], stored[i])
}

/// Whether `step` answers a listing of exercises that came to `listed`: a
/// failure of the store is reported; no exercises are `[]` at once; any
/// others go to the native encoder.
pub open spec fn lists(
    step: Step,
    listed: Result<Vec<database_handler::Exercise>, StoreError>,
) -> bool {
    match listed {
        Err(_) => is_reply(step, store_failure_reply()),
        Ok(stored) => if stored@.len() == 0 {
            is_reply(step, exercises_reply(empty_array()))
        } else {
            step matches Step::Encode { records, buffer } && are_records_of(records@, stored@)
                && buffer@ == Seq::new(OUTPUT_CAPACITY as nat, |i: int| 0u8)
        },
    }
}

/// Decides what follows a listing of a user's exercises.
pub fn exercises_step(listed: Result<Vec<database_handler::Exercise>, StoreError>) -> (step: Step)
    ensures
        lists(step, listed),
{
    match listed {
        Err(_) => Step::Reply(store_failure()),
        Ok(stored) => {
            let mut records: Vec<Exercise> = Vec::new();
            let mut i: usize = 0;
            while i < stored.len()
                invariant
                    i <= stored.len(),
                    are_records_of(records@, stored@.take(i as int)),
                decreases stored.len() - i,
            {
                records.push(convert_db_exercise(&stored[i]));
                i += 1;
            }
            match encode_exercises(&records) {
                Encoding::Text(json) => Step::Reply(exercises(json)),
                Encoding::Native(buffer) => Step::Encode { records, buffer },
            }
        },
    }
}

/// Whether `step` takes up the workout in `body` for a user who is known: the
/// body without the white space around it goes to the native decoder, and a
/// body that cannot go there, because it holds a zero byte, is accepted as
/// one without sets.
pub open spec fn submits(step: Step, user_id: u32, body: Seq<char>) -> bool {
    let bytes = encode_utf8(trim(body));
    if occurs(bytes, 0u8) {
        is_reply(step, accepted_reply(user_id))
    } else {
        step matches Step::Decode { user_id: user, text } && user == user_id && text@
            == bytes.push(0u8)
    }
}

/// Decides what follows the check of a workout's user.
pub fn workout_step(user_id: u32, body: &str) -> (step: Step)
    ensures
        submits(step, user_id, body@),
{
    let chars = trim_chars(&chars_of(body));
    let trimmed = text_of(&chars, 0, chars.len());
    assert(trimmed@ == trim(body@));
    match c_text(trimmed.as_str()) {
        Some(text) => Step::Decode { user_id, text },
        None => Step::Reply(accepted(user_id)),
    }
}

/// Whether `step` is what follows the store's check of a workout's user: a
/// user who is known has the workout taken up; for any other outcome the
/// workout is refused with the store's reason, which for a user who is not
/// stored is that the query found no row, and the decoder is not run.
pub open spec fn follows_check(step: Step, valid: Result<u32, StoreError>, body: Seq<char>) -> bool {
    match valid {
        Ok(known) => submits(step, known, body),
        Err(StoreError::NoRows) => is_reply(step, refusal_reply(no_rows_message())),
        Err(StoreError::Engine(_)) => exists|message: Seq<char>|
            is_reply(step, refusal_reply(message)),
    }
}

/// Decides what follows the store's check of a workout's user.
pub fn checked_workout_step(valid: Result<u32, StoreError>, body: &str) -> (step: Step)
    ensures
        follows_check(step, valid, body@),
{
    match valid {
        Ok(known) => workout_step(known, body),
        Err(e) => Step::Reply(refusal(e.message().as_str())),
    }
}

/// Takes up a framed request: finds its route, asks the store, and says what
/// is to be done next.
pub fn dispatch(store: &DatabaseHandler, request_line: &str, body: String) -> (step: Step)
    ensures
        match route_of(request_of(request_line@, body@)) {
            Route::Malformed => is_reply(step, malformed_reply()),
            Route::NotFound => is_reply(step, not_found_reply()),
            Route::Exercises(None) => is_reply(step, missing_user_page()),
            Route::Exercises(Some(_)) => exists|
                listed: Result<Vec<database_handler::Exercise>, StoreError>,
            |
                lists(step, listed),
            Route::Workout(None) => is_reply(step, refusal_reply(missing_user_message())),
            Route::Workout(Some(user)) => exists|valid: Result<u32, StoreError>|
                (valid matches Ok(known) ==> known == user) && follows_check(step, valid, body@),
        },
{
    let request = parse_request(request_line, body);
    let found = route(&request);
    match (found, request) {
        (Route::Exercises(Some(user)), _) => exercises_step(store.get_user_exercises(user)),
        (Route::Exercises(None), _) => Step::Reply(missing_user()),
        (Route::Workout(Some(user)), Some(request)) => {
            checked_workout_step(store.is_valid_user(user), request.body.as_str())
        },
        (Route::Workout(_), _) => Step::Reply(refusal("Invalid or missing userid")),
        (Route::NotFound, _) => Step::Reply(not_found()),
        (Route::Malformed, _) => Step::Reply(malformed()),
    }
}

/// The reply that finishes a listing, by what the native encoder has left in
/// the buffer: its JSON, or a server error if that did not fit.
pub open spec fn listing_reply(buffer: Seq<u8>) -> ResponseView {
    match encoded(buffer) {
        Ok(json) => exercises_reply(json),
        Err(_) => overflow_reply(),
    }
}

/// Finishes a listing once the native encoder has written `buffer`.
pub fn encoded_reply(buffer: Vec<u8>) -> (reply: Response)
    ensures
        reply@ == listing_reply(buffer@),
{
    match encoded_text(buffer) {
        Ok(json) => exercises(json),
        Err(_) => overflow(),
    }
}

/// Finishes a workout once the native decoder has run: stores the sets, if
/// it gave any, and accepts the workout whether or not they were stored.
pub fn workout_reply(store: &DatabaseHandler, user_id: u32, sets: Option<Vec<C_Set>>) -> (reply:
    Response)
    requires
        sets matches Some(s) ==> s@.len() <= u32::MAX && all_well_formed(s@),
    ensures
        reply@ == accepted_reply(user_id),
{
    match sets {
        Some(sets) => {
            let _ = store.save_sets(user_id, sets);
        },
        None => {},
    }
    accepted(user_id)
}

} // verus!
