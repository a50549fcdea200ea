//! The fixed-layout records that cross the boundary to the native codec.

use rusqlite::types::Value;
use vstd::prelude::*;

verus! {

/// One exercise as the native codec reads it: both texts are fields of fixed
/// width, zero-filled behind the text.
pub struct Exercise {
    pub id: u32,
    pub name: [u8; 64],
    pub body_part: [u8; 16],
}

/// One completed set as the native codec produces it. The weight is kept as
/// the SQL value that the store will hold, which is a real number; the
/// library hands it on as it is.
#[allow(non_camel_case_types)]
pub struct C_Set {
    pub workout_exercise_id: u32,
    pub set_number: u32,
    pub weight: Value,
    pub reps: u32,
}

impl C_Set {
    /// Whether this is a set as the native codec gives it: its weight is a
    /// real number.
    pub open spec fn well_formed(&self) -> bool {
        self.weight is Real
    }

    /// Tests whether the weight is a real number.
    pub fn is_well_formed(&self) -> (ok: bool)
        ensures
            ok == self.well_formed(),
    {
        match &self.weight {
            Value::Real(_) => true,
            _ => false,
        }
    }
}

/// Whether every set of `sets` has a real number for its weight.
pub open spec fn all_well_formed(sets: Seq<C_Set>) -> bool {
    forall|i: int| 0 <= i < sets.len() ==> (#[trigger] sets[i]).well_formed()
}

impl Clone for C_Set {
    fn clone(&self) -> (copy: Self)
        ensures
            copy == *self,
    {
        C_Set {
            workout_exercise_id: self.workout_exercise_id,
            set_number: self.set_number,
            weight: self.weight.clone(),
            reps: self.reps,
        }
    }
}

} // verus!
