use jni::calls::{ForeignCall, JNIEnv, Primitive, ReleaseMode};
use jni::error::Error;
use jni::jarray::JArray;
use jni::objects::{JClass, JObject};

fn mode_of(call: &ForeignCall) -> ReleaseMode {
    match call {
        ForeignCall::ReleaseArrayElements { mode, .. } => *mode,
        other => panic!("not a release call: {:?}", other),
    }
}

#[test]
fn untouched_pin_releases_without_copy_back() {
    let env = JNIEnv::from_raw(1);
    let arr = JArray::from_env(&env, JObject::from_raw(0x10)).unwrap();
    let pin = arr.get_data_int(vec![1i32, 2, 3], false, false).unwrap();
    assert_eq!(pin.get(), &[1, 2, 3]);
    let (call, back) = pin.release();
    assert_eq!(back, None);
    assert_eq!(
        call,
        ForeignCall::ReleaseArrayElements { env: 1, ty: Primitive::Int, array: 0x10, mode: ReleaseMode::Abort }
    );
}

#[test]
fn unused_mutable_view_still_copies_back() {
    let env = JNIEnv::from_raw(1);
    let arr = JArray::from_env(&env, JObject::from_raw(0x10)).unwrap();
    let mut pin = arr.get_data_byte(vec![1i8, 2], false, false).unwrap();
    let _ = pin.get_mut();
    let (call, data) = pin.release();
    assert_eq!(mode_of(&call), ReleaseMode::CopyBack);
    assert_eq!(data, Some(vec![1, 2]));
}

#[test]
fn writes_after_a_commit_are_copied_back() {
    let env = JNIEnv::from_raw(1);
    let arr = JArray::from_env(&env, JObject::from_raw(0x10)).unwrap();
    let mut pin = arr.get_data_long(vec![5i64, 6], false, false).unwrap();
    pin.get_mut()[0] = 50;
    assert_eq!(mode_of(&pin.commit()), ReleaseMode::Commit);
    pin.get_mut()[1] = 60;
    let (call, data) = pin.release();
    assert_eq!(mode_of(&call), ReleaseMode::CopyBack);
    assert_eq!(data, Some(vec![50, 60]));
}

#[test]
fn commit_of_a_clean_pin_then_release_discards() {
    let env = JNIEnv::from_raw(1);
    let arr = JArray::from_env(&env, JObject::from_raw(0x10)).unwrap();
    let pin = arr.get_data_short(vec![5i16], false, false).unwrap();
    assert_eq!(mode_of(&pin.commit()), ReleaseMode::Commit);
    assert_eq!(mode_of(&pin.release().0), ReleaseMode::Abort);
}

#[test]
fn void_pin_is_refused_before_any_call() {
    let env = JNIEnv::from_raw(1);
    let arr = JArray::from_env(&env, JObject::from_raw(0x10)).unwrap();
    assert_eq!(arr.primitive_data_calls(Primitive::Void), Err(Error::WrongElementType));
    assert_eq!(JArray::new_primitive(&env, Primitive::Void, 3), Err(Error::WrongElementType));
}

#[test]
fn pin_mutate_and_drop_copies_the_value_back() {
    let env = JNIEnv::from_raw(2);
    let mut storage: Vec<i32> = vec![10, 20, 30, 40];
    let arr = JArray::from_env(&env, JObject::from_raw(0x44)).unwrap();
    let mut log: Vec<ForeignCall> = Vec::new();

    let calls = arr.primitive_data_calls(Primitive::Int).unwrap();
    log.extend(calls.iter().copied());
    let mut pin = arr.get_data_int(storage.clone(), false, false).unwrap();
    pin.get_mut()[2] = 333;
    let (call, data) = pin.release();
    log.push(call);
    if let Some(back) = data {
        storage.copy_from_slice(&back);
    }

    let gets = log.iter().filter(|c| matches!(c, ForeignCall::GetArrayElements { .. })).count();
    let releases: Vec<&ForeignCall> =
        log.iter().filter(|c| matches!(c, ForeignCall::ReleaseArrayElements { .. })).collect();
    assert_eq!(gets, 1);
    assert_eq!(releases.len(), 1);
    assert_eq!(mode_of(releases[0]), ReleaseMode::CopyBack);
    assert_eq!(storage[2], 333);
    assert_eq!(storage, vec![10, 20, 333, 40]);
}

#[test]
fn two_commits_copy_back_twice_and_keep_the_pin() {
    let env = JNIEnv::from_raw(2);
    let arr = JArray::from_env(&env, JObject::from_raw(0x45)).unwrap();
    let mut pin = arr.get_data_int(vec![1i32, 2], false, false).unwrap();
    pin.get_mut()[0] = 9;
    let log = vec![pin.commit(), pin.commit()];
    assert_eq!(log.len(), 2);
    assert!(log.iter().all(|c| mode_of(c) == ReleaseMode::Commit));
    assert_eq!(log.iter().filter(|c| mode_of(c) != ReleaseMode::Commit).count(), 0);
    assert_eq!(pin.get(), &[9, 2]);
    assert_eq!(mode_of(&pin.release().0), ReleaseMode::CopyBack);
}

#[test]
fn pin_calls_fetch_elements_then_length() {
    let env = JNIEnv::from_raw(6);
    let arr = JArray::from_env(&env, JObject::from_raw(0x70)).unwrap();
    assert_eq!(
        arr.primitive_data_calls(Primitive::Double).unwrap(),
        vec![
            ForeignCall::GetArrayElements { env: 6, ty: Primitive::Double, array: 0x70 },
            ForeignCall::GetArrayLength { env: 6, array: 0x70 },
        ]
    );
}

#[test]
fn typed_openers_fix_the_kind() {
    let env = JNIEnv::from_raw(6);
    let arr = JArray::from_env(&env, JObject::from_raw(0x70)).unwrap();
    let kind = |call: ForeignCall| match call {
        ForeignCall::ReleaseArrayElements { ty, .. } => ty,
        other => panic!("not a release call: {:?}", other),
    };
    assert_eq!(kind(arr.get_data_byte(vec![1i8], false, false).unwrap().release().0), Primitive::Byte);
    assert_eq!(kind(arr.get_data_boolean(vec![1u8], false, false).unwrap().release().0), Primitive::Boolean);
    assert_eq!(kind(arr.get_data_char(vec![0x41u16], false, false).unwrap().release().0), Primitive::Char);
    assert_eq!(kind(arr.get_data_short(vec![1i16], false, false).unwrap().release().0), Primitive::Short);
    assert_eq!(kind(arr.get_data_int(vec![1i32], false, false).unwrap().release().0), Primitive::Int);
    assert_eq!(kind(arr.get_data_long(vec![1i64], false, false).unwrap().release().0), Primitive::Long);
    assert_eq!(kind(arr.get_data_float(vec![0u32], false, false).unwrap().release().0), Primitive::Float);
    assert_eq!(kind(arr.get_data_double(vec![0u64], false, false).unwrap().release().0), Primitive::Double);
}

#[test]
fn float_elements_pass_through_a_pin_as_bits() {
    let env = JNIEnv::from_raw(6);
    let arr = JArray::from_env(&env, JObject::from_raw(0x71)).unwrap();
    let bits = vec![1.5f32.to_bits(), 2.5f32.to_bits()];
    let mut pin = arr.get_data_float(bits, false, false).unwrap();
    pin.get_mut()[1] = 4.0f32.to_bits();
    let (call, data) = pin.release();
    assert_eq!(mode_of(&call), ReleaseMode::CopyBack);
    let back: Vec<f32> = data.unwrap().into_iter().map(f32::from_bits).collect();
    assert_eq!(back, vec![1.5f32, 4.0]);
}

#[test]
fn failed_pin_reports_exception_before_null() {
    let env = JNIEnv::from_raw(6);
    let arr = JArray::from_env(&env, JObject::from_raw(0x72)).unwrap();
    assert!(matches!(arr.get_data_int(Vec::new(), true, true), Err(Error::PendingException)));
    assert!(matches!(arr.get_data_int(vec![1], false, true), Err(Error::PendingException)));
    assert!(matches!(arr.get_data_char(Vec::new(), true, false), Err(Error::NullHandle)));
    assert_eq!(
        arr.abandon_call(Primitive::Int),
        ForeignCall::ReleaseArrayElements { env: 6, ty: Primitive::Int, array: 0x72, mode: ReleaseMode::Abort }
    );
}

#[test]
fn array_handles_refuse_null_and_pending_exceptions() {
    let env = JNIEnv::from_raw(7);
    assert_eq!(JArray::from_env(&env, JObject::null()).unwrap().into_inner(), 0);
    assert_eq!(JArray::from_created(&env, JObject::from_raw(0x5), true), Err(Error::PendingException));
    assert_eq!(JArray::from_created(&env, JObject::null(), false), Err(Error::NullHandle));
    let arr = JArray::from_created(&env, JObject::from_raw(0x5), false).unwrap();
    assert_eq!(arr.into_inner(), 0x5);
    assert_eq!(arr.env(), env);
}

#[test]
fn array_creation_calls_name_kind_and_size() {
    let env = JNIEnv::from_raw(7);
    assert_eq!(JArray::new_int(&env, 4), ForeignCall::NewPrimitiveArray { env: 7, ty: Primitive::Int, size: 4 });
    assert_eq!(JArray::new_char(&env, 1), ForeignCall::NewPrimitiveArray { env: 7, ty: Primitive::Char, size: 1 });
    assert_eq!(JArray::new_byte(&env, 2), ForeignCall::NewPrimitiveArray { env: 7, ty: Primitive::Byte, size: 2 });
    assert_eq!(JArray::new_short(&env, 3), ForeignCall::NewPrimitiveArray { env: 7, ty: Primitive::Short, size: 3 });
    assert_eq!(JArray::new_boolean(&env, 5), ForeignCall::NewPrimitiveArray { env: 7, ty: Primitive::Boolean, size: 5 });
    assert_eq!(JArray::new_float(&env, 6), ForeignCall::NewPrimitiveArray { env: 7, ty: Primitive::Float, size: 6 });
    assert_eq!(JArray::new_double(&env, 7), ForeignCall::NewPrimitiveArray { env: 7, ty: Primitive::Double, size: 7 });
    assert_eq!(JArray::new_long(&env, 8), ForeignCall::NewPrimitiveArray { env: 7, ty: Primitive::Long, size: 8 });
    assert_eq!(
        JArray::new_primitive(&env, Primitive::Int, 9),
        Ok(ForeignCall::NewPrimitiveArray { env: 7, ty: Primitive::Int, size: 9 })
    );
    assert_eq!(
        JArray::new_object(&env, JClass::from_raw(0x3), 2, JObject::null()),
        ForeignCall::NewObjectArray { env: 7, size: 2, class: 0x3, initial: 0 }
    );
}

#[test]
fn object_element_calls_name_index_and_value() {
    let env = JNIEnv::from_raw(7);
    let arr = JArray::from_env(&env, JObject::from_raw(0x8)).unwrap();
    assert_eq!(arr.get_object_element(3), ForeignCall::GetObjectArrayElement { env: 7, array: 0x8, index: 3 });
    assert_eq!(
        arr.set_object_element(1, JObject::from_raw(0x9)),
        ForeignCall::SetObjectArrayElement { env: 7, array: 0x8, index: 1, value: 0x9 }
    );
}
