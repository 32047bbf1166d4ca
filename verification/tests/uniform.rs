use ogl::shader::ShaderProgram;
use ogl::uniform::UniformWrite;

#[test]
fn set_bool_stores_one_or_zero() {
    let program = ShaderProgram { id: 3 };
    assert_eq!(program.set_bool(2, true), Some(UniformWrite { program: 3, location: 2, value: 1 }));
    assert_eq!(program.set_bool(2, false), Some(UniformWrite { program: 3, location: 2, value: 0 }));
}

#[test]
fn set_int_stores_the_value() {
    let program = ShaderProgram { id: 3 };
    assert_eq!(program.set_int(0, -7), Some(UniformWrite { program: 3, location: 0, value: -7 }));
    assert_eq!(
        program.set_int(i32::MAX, i32::MIN),
        Some(UniformWrite { program: 3, location: i32::MAX, value: i32::MIN })
    );
}

#[test]
fn set_float_carries_the_value() {
    let program = ShaderProgram { id: 4 };
    assert_eq!(
        program.set_float(1, 0.2_f32),
        Some(UniformWrite { program: 4, location: 1, value: 0.2_f32 })
    );
}

#[test]
fn set_vec3f_carries_three_components() {
    let program = ShaderProgram { id: 4 };
    assert_eq!(
        program.set_vec3f(5, [1.0_f32, 0.3, 0.5]),
        Some(UniformWrite { program: 4, location: 5, value: [1.0_f32, 0.3, 0.5] })
    );
}

#[test]
fn set_mat4f_carries_sixteen_components() {
    let program = ShaderProgram { id: 4 };
    let mut identity = [0.0_f32; 16];
    for i in 0..4 {
        identity[i * 5] = 1.0;
    }
    let write = program.set_mat4f(6, identity).unwrap();
    assert_eq!(write.program, 4);
    assert_eq!(write.location, 6);
    assert_eq!(write.value, identity);
}

#[test]
fn unknown_uniform_is_a_silent_no_op() {
    let program = ShaderProgram { id: 4 };
    assert_eq!(program.set_bool(-1, true), None);
    assert_eq!(program.set_int(-1, 5), None);
    assert_eq!(program.set_float(-1, 1.5_f32), None);
    assert_eq!(program.set_vec3f(-1, [0.0_f32; 3]), None);
    assert_eq!(program.set_mat4f(i32::MIN, [0.0_f32; 16]), None);
}

#[test]
fn unknown_uniform_leaves_other_slots_alone() {
    let program = ShaderProgram { id: 4 };
    let mut slots: Vec<i32> = vec![10, 20, 30];
    let writes = vec![program.set_int(1, 21), program.set_int(-1, 99), program.set_bool(2, true)];
    for write in writes.into_iter().flatten() {
        slots[write.location as usize] = write.value;
    }
    assert_eq!(slots, vec![10, 21, 1]);
}
