//! Writes to the uniform variables of a program.
//!
//! The caller looks a name up with the driver and hands over the location
//! it was given. A negative location means that the program has no such
//! uniform: the write is then dropped, which is no error.

use crate::shader::ShaderProgram;
use vstd::prelude::*;

verus! {

/// One value to store in one uniform slot of a program.
#[derive(Clone, Copy, Debug, PartialEq, Eq)]
pub struct UniformWrite<V> {
    pub program: u32,
    pub location: i32,
    pub value: V,
}

/// The write that a setter asks for: none where the location is negative.
pub open spec fn uniform_write<V>(program: u32, location: i32, value: V) -> Option<
    UniformWrite<V>,
> {
    if location < 0 {
        None
    } else {
        Some(UniformWrite { program, location, value })
    }
}

/// The integer that stands for a boolean in a uniform slot.
pub open spec fn bool_value(value: bool) -> i32 {
    if value {
        1
    } else {
        0
    }
}

/// The uniform slots of one program after a write, given the slots before.
pub open spec fn apply_write<V>(slots: Map<i32, V>, write: Option<UniformWrite<V>>) -> Map<
    i32,
    V,
> {
    match write {
        Some(w) => slots.insert(w.location, w.value),
        None => slots,
    }
}

/// Setting a uniform that the program does not have leaves every slot as
/// it was.
pub proof fn lemma_absent_uniform_changes_nothing<V>(
    slots: Map<i32, V>,
    program: u32,
    location: i32,
    value: V,
)
    requires
        location < 0,
    ensures
        apply_write(slots, uniform_write(program, location, value)) == slots,
{
}

/// Setting a uniform that the program has stores the value in its slot
/// and leaves every other slot as it was.
pub proof fn lemma_write_changes_one_slot<V>(
    slots: Map<i32, V>,
    program: u32,
    location: i32,
    value: V,
    other: i32,
)
    requires
        location >= 0,
        other != location,
    ensures
        apply_write(slots, uniform_write(program, location, value))[location] == value,
        apply_write(slots, uniform_write(program, location, value)).contains_key(other)
            == slots.contains_key(other),
        apply_write(slots, uniform_write(program, location, value))[other] == slots[other],
{
}

fn write<V>(program: u32, location: i32, value: V) -> (r: Option<UniformWrite<V>>)
    ensures
        r == uniform_write(program, location, value),
{
    if location < 0 {
        None
    } else {
        Some(UniformWrite { program, location, value })
    }
}

impl ShaderProgram {
    /// Sets a boolean uniform, stored as the integer 1 or 0.
    pub fn set_bool(&self, location: i32, value: bool) -> (r: Option<UniformWrite<i32>>)
        ensures
            r == uniform_write(self.id, location, bool_value(value)),
    {
        write(self.id, location, if value { 1 } else { 0 })
    }

    /// Sets an integer uniform.
    pub fn set_int(&self, location: i32, value: i32) -> (r: Option<UniformWrite<i32>>)
        ensures
            r == uniform_write(self.id, location, value),
    {
        write(self.id, location, value)
    }

    /// Sets a scalar uniform of the driver's real type `T`.
    pub fn set_float<T>(&self, location: i32, value: T) -> (r: Option<UniformWrite<T>>)
        ensures
            r == uniform_write(self.id, location, value),
    {
        write(self.id, location, value)
    }

    /// Sets a uniform of three components.
    pub fn set_vec3f<T>(&self, location: i32, value: [T; 3]) -> (r: Option<UniformWrite<[T; 3]>>)
        ensures
            r == uniform_write(self.id, location, value),
    {
        write(self.id, location, value)
    }

    /// Sets a four by four matrix uniform, its sixteen components in
    /// column-major order.
    pub fn set_mat4f<T>(&self, location: i32, value: [T; 16]) -> (r: Option<
        UniformWrite<[T; 16]>,
    >)
        ensures
            r == uniform_write(self.id, location, value),
    {
        write(self.id, location, value)
    }
}

} // verus!
