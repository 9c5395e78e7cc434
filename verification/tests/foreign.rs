use allo_isolate::ffi::{DartCObject, DartCObjectType};
use allo_isolate::ZeroCopyBuffer;
use into_into_dart::IntoIntoDart;
use wasm_bindgen::convert::IntoWasmAbi;
use wasm_bindgen::JsValue;

#[test]
fn a_zero_copy_buffer_keeps_its_bytes() {
    let converted: ZeroCopyBuffer<Vec<u8>> = ZeroCopyBuffer(vec![1u8, 2u8, 3u8]).into_into_dart();
    assert_eq!(converted.0, vec![1u8, 2u8, 3u8]);
}

#[test]
fn a_zero_copy_buffer_converts_what_it_holds() {
    let source: ZeroCopyBuffer<Vec<Box<i64>>> = ZeroCopyBuffer(vec![Box::new(-1i64), Box::new(1i64 << 40)]);
    let converted: ZeroCopyBuffer<Vec<i64>> = source.into_into_dart();
    assert_eq!(converted.0, vec![-1i64, 1i64 << 40]);
}

#[test]
fn a_zero_copy_buffer_around_an_array_keeps_it() {
    let converted: ZeroCopyBuffer<[u16; 4]> = ZeroCopyBuffer([4u16, 3u16, 2u16, 1u16]).into_into_dart();
    assert_eq!(converted.0, [4u16, 3u16, 2u16, 1u16]);
}

#[test]
fn an_empty_zero_copy_buffer_stays_empty() {
    let converted: ZeroCopyBuffer<Vec<u32>> = ZeroCopyBuffer(Vec::<u32>::new()).into_into_dart();
    assert!(converted.0.is_empty());
}

#[test]
fn a_dart_object_converts_to_itself() {
    let object: DartCObject = allo_isolate::IntoDart::into_dart(42i32);
    let converted: DartCObject = object.into_into_dart();
    assert_eq!(converted.ty, DartCObjectType::DartInt32);
    let text: DartCObject = allo_isolate::IntoDart::into_dart("dart".to_string());
    let converted: DartCObject = text.into_into_dart();
    assert_eq!(converted.ty, DartCObjectType::DartString);
}

#[test]
fn a_javascript_value_converts_to_itself() {
    let converted: JsValue = JsValue::TRUE.into_into_dart();
    assert_eq!(converted.into_abi(), JsValue::TRUE.into_abi());
    let converted: JsValue = JsValue::NULL.into_into_dart();
    assert_eq!(converted.into_abi(), JsValue::NULL.into_abi());
    assert_ne!(JsValue::UNDEFINED.into_into_dart().into_abi(), JsValue::NULL.into_abi());
}

#[test]
fn an_identifier_converts_to_itself() {
    let id: uuid::Uuid = uuid::Uuid::from_u128(0x0123_4567_89ab_cdef_0123_4567_89ab_cdefu128);
    assert_eq!(id.into_into_dart(), id);
    assert_eq!(uuid::Uuid::nil().into_into_dart().as_u128(), 0u128);
}

#[test]
fn a_sequence_of_identifiers_keeps_its_order() {
    let first: uuid::Uuid = uuid::Uuid::from_u128(1u128);
    let second: uuid::Uuid = uuid::Uuid::from_u128(2u128);
    let converted: Vec<uuid::Uuid> = vec![second, first].into_into_dart();
    assert_eq!(converted, vec![second, first]);
}

#[test]
fn a_call_stack_converts_to_itself() {
    let stack: backtrace::Backtrace = backtrace::Backtrace::new_unresolved();
    let frames: usize = stack.frames().len();
    let first: Option<usize> = stack.frames().first().map(|frame| frame.ip() as usize);
    let converted: backtrace::Backtrace = stack.into_into_dart();
    assert_eq!(converted.frames().len(), frames);
    assert_eq!(converted.frames().first().map(|frame| frame.ip() as usize), first);
}

#[test]
fn a_span_of_time_converts_to_itself() {
    let span: chrono::Duration = chrono::Duration::seconds(90);
    assert_eq!(span.into_into_dart(), span);
    assert_eq!(chrono::Duration::milliseconds(-1500).into_into_dart().num_milliseconds(), -1500i64);
}

#[test]
fn a_date_and_time_converts_to_itself() {
    let moment: chrono::NaiveDateTime = chrono::NaiveDate::from_ymd_opt(2024, 2, 29)
        .expect("a leap day")
        .and_hms_opt(23, 59, 58)
        .expect("a time of day");
    assert_eq!(moment.into_into_dart(), moment);
}

#[test]
fn an_optional_date_and_time_keeps_its_presence() {
    let moment: chrono::NaiveDateTime = chrono::NaiveDate::from_ymd_opt(1970, 1, 1)
        .expect("the first day")
        .and_hms_opt(0, 0, 0)
        .expect("midnight");
    let present: Option<chrono::NaiveDateTime> = Some(moment).into_into_dart();
    assert_eq!(present, Some(moment));
    let absent: Option<chrono::NaiveDateTime> = Option::<chrono::NaiveDateTime>::None.into_into_dart();
    assert_eq!(absent, None);
}
