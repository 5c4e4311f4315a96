use sqlcodec::expression::{AsExpression, Bound};
use sqlcodec::row::Queriable;
use sqlcodec::types::{
    BigInt, BigSerial, Binary, Bool, Integer, Nullable, Serial, SmallInt, SmallSerial, Text,
    VarChar,
};

#[test]
fn bound_keeps_item() {
    let bound: Bound<Integer, i32> = Bound::new(42);
    assert_eq!(bound.into_inner(), 42);
    let text: Bound<Text, String> = Bound::new("abc".to_string());
    assert_eq!(text.into_inner(), "abc".to_string());
}

#[test]
fn lifting_binds_the_value_under_the_tag() {
    let flag: Bound<Bool, bool> = AsExpression::<Bool>::as_expression(true);
    assert_eq!(flag.into_inner(), true);
    let small: Bound<SmallInt, i16> = AsExpression::<SmallInt>::as_expression(-7i16);
    assert_eq!(small.into_inner(), -7);
    let small_serial: Bound<SmallSerial, i16> = AsExpression::<SmallSerial>::as_expression(7i16);
    assert_eq!(small_serial.into_inner(), 7);
    let int: Bound<Integer, i32> = AsExpression::<Integer>::as_expression(i32::MIN);
    assert_eq!(int.into_inner(), i32::MIN);
    let serial: Bound<Serial, i32> = AsExpression::<Serial>::as_expression(1i32);
    assert_eq!(serial.into_inner(), 1);
    let big: Bound<BigInt, i64> = AsExpression::<BigInt>::as_expression(i64::MAX);
    assert_eq!(big.into_inner(), i64::MAX);
    let big_serial: Bound<BigSerial, i64> = AsExpression::<BigSerial>::as_expression(2i64);
    assert_eq!(big_serial.into_inner(), 2);
    let varchar: Bound<VarChar, String> = AsExpression::<VarChar>::as_expression("v".to_string());
    assert_eq!(varchar.into_inner(), "v");
    let text: Bound<Text, String> = AsExpression::<Text>::as_expression("t".to_string());
    assert_eq!(text.into_inner(), "t");
    let binary: Bound<Binary, Vec<u8>> = AsExpression::<Binary>::as_expression(vec![1u8, 2]);
    assert_eq!(binary.into_inner(), vec![1u8, 2]);
}

#[test]
fn borrowed_text_is_lifted_without_copying() {
    let owner = "borrowed".to_string();
    let as_varchar: Bound<VarChar, &str> = AsExpression::<VarChar>::as_expression(owner.as_str());
    let as_text: Bound<Text, &str> = AsExpression::<Text>::as_expression(owner.as_str());
    assert_eq!(as_varchar.into_inner().as_ptr(), owner.as_ptr());
    assert_eq!(as_text.into_inner(), "borrowed");
}

#[test]
fn nullable_lifting_binds_the_same_expression() {
    let plain: Bound<Integer, i32> = AsExpression::<Integer>::as_expression(5i32);
    let relaxed: Bound<Integer, i32> = AsExpression::<Nullable<Integer>>::as_expression(5i32);
    assert_eq!(plain.into_inner(), relaxed.into_inner());
    let text: Bound<Text, &str> = AsExpression::<Nullable<Text>>::as_expression("n");
    assert_eq!(text.into_inner(), "n");
    let bytes: Bound<Binary, Vec<u8>> =
        AsExpression::<Nullable<Binary>>::as_expression(vec![0u8, 1]);
    assert_eq!(bytes.into_inner(), vec![0u8, 1]);
}

#[test]
fn row_of_one_column_is_the_value() {
    assert_eq!(<bool as Queriable<Bool>>::build(true), true);
    assert_eq!(<i16 as Queriable<SmallInt>>::build(-3), -3);
    assert_eq!(<i16 as Queriable<SmallSerial>>::build(3), 3);
    assert_eq!(<i32 as Queriable<Integer>>::build(70000), 70000);
    assert_eq!(<i32 as Queriable<Serial>>::build(1), 1);
    assert_eq!(<i64 as Queriable<BigInt>>::build(-1 << 40), -1 << 40);
    assert_eq!(<i64 as Queriable<BigSerial>>::build(1 << 40), 1 << 40);
    assert_eq!(<String as Queriable<VarChar>>::build("a".to_string()), "a");
    assert_eq!(<String as Queriable<Text>>::build("b".to_string()), "b");
    assert_eq!(<Vec<u8> as Queriable<Binary>>::build(vec![1, 2, 3]), vec![1u8, 2, 3]);
}
