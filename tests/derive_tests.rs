use spore_print::{render_struct, render_variant, FieldList, SporePrint, VariantShape};
use std::collections::HashSet;
use std::ops::Range;

/// Floats have no rendering in the library; this one uses std's display text.
struct Real(f64);

impl SporePrint for Real {
    fn spore_print(&self) -> String {
        self.0.to_string()
    }
}

/// Same, for single precision.
struct Real32(f32);

impl SporePrint for Real32 {
    fn spore_print(&self) -> String {
        self.0.to_string()
    }
}

fn named(list: &[&str]) -> FieldList {
    FieldList::Named(list.iter().map(|s| s.to_string()).collect())
}

fn variant(name: &str, fields: FieldList) -> VariantShape {
    VariantShape { name: name.to_string(), fields }
}

/// A struct with primitive types.
struct PrimitiveStruct {
    int_field: i32,
    float_field: f64,
    bool_field: bool,
}

impl SporePrint for PrimitiveStruct {
    fn spore_print(&self) -> String {
        render_struct(
            "PrimitiveStruct",
            &named(&["int_field", "float_field", "bool_field"]),
            &vec![
                self.int_field.spore_print(),
                Real(self.float_field).spore_print(),
                self.bool_field.spore_print(),
            ],
        )
    }
}

#[test]
fn derive_tests_test_primitive_struct() {
    let test_struct = PrimitiveStruct {
        int_field: 42,
        float_field: 3.14,
        bool_field: true,
    };
    assert_eq!(
        test_struct.spore_print(),
        "PrimitiveStruct { int_field: 42, float_field: 3.14, bool_field: true }"
    );
}

/// A struct with reference and complex types.
struct ComplexStruct<'a> {
    ref_field: &'a str,
    vec_field: Vec<i32>,
    option_field: Option<String>,
}

impl<'a> SporePrint for ComplexStruct<'a> {
    fn spore_print(&self) -> String {
        render_struct(
            "ComplexStruct",
            &named(&["ref_field", "vec_field", "option_field"]),
            &vec![
                self.ref_field.spore_print(),
                self.vec_field.spore_print(),
                self.option_field.spore_print(),
            ],
        )
    }
}

#[test]
fn derive_tests_test_complex_struct() {
    let test_struct: ComplexStruct = ComplexStruct {
        ref_field: "Hello",
        vec_field: vec![1i32, 2, 3],
        option_field: Some("World".to_string()),
    };
    assert_eq!(
        test_struct.spore_print(),
        "ComplexStruct { ref_field: Hello, vec_field: [1, 2, 3], option_field: Some(World) }"
    );
}

/// An enum with unit variants.
#[allow(dead_code)]
enum UnitEnum {
    VariantA,
    VariantB,
}

impl SporePrint for UnitEnum {
    fn spore_print(&self) -> String {
        match self {
            UnitEnum::VariantA => {
                render_variant("UnitEnum", &variant("VariantA", FieldList::Unit), &vec![])
            }
            UnitEnum::VariantB => {
                render_variant("UnitEnum", &variant("VariantB", FieldList::Unit), &vec![])
            }
        }
    }
}

#[test]
fn derive_tests_test_unit_enum() {
    let variant = UnitEnum::VariantA;
    assert_eq!(variant.spore_print(), "UnitEnum::VariantA");
}

/// An enum with named fields.
#[allow(dead_code)]
enum NamedEnum {
    VariantX { id: u32, name: String },
    VariantY { value: f64 },
}

impl SporePrint for NamedEnum {
    fn spore_print(&self) -> String {
        match self {
            NamedEnum::VariantX { id, name } => render_variant(
                "NamedEnum",
                &variant("VariantX", named(&["id", "name"])),
                &vec![id.spore_print(), name.spore_print()],
            ),
            NamedEnum::VariantY { value } => render_variant(
                "NamedEnum",
                &variant("VariantY", named(&["value"])),
                &vec![Real(*value).spore_print()],
            ),
        }
    }
}

#[test]
fn derive_tests_test_named_enum() {
    let variant = NamedEnum::VariantX {
        id: 1,
        name: "Alice".to_string(),
    };
    assert_eq!(
        variant.spore_print(),
        "NamedEnum::VariantX { id: 1, name: Alice }"
    );
}

/// An enum with unnamed fields.
#[allow(dead_code)]
enum UnnamedEnum {
    Variant1(i32, String),
    Variant2(f64, bool),
}

impl SporePrint for UnnamedEnum {
    fn spore_print(&self) -> String {
        match self {
            UnnamedEnum::Variant1(field0, field1) => render_variant(
                "UnnamedEnum",
                &variant("Variant1", FieldList::Positional(2)),
                &vec![field0.spore_print(), field1.spore_print()],
            ),
            UnnamedEnum::Variant2(field0, field1) => render_variant(
                "UnnamedEnum",
                &variant("Variant2", FieldList::Positional(2)),
                &vec![Real(*field0).spore_print(), field1.spore_print()],
            ),
        }
    }
}

#[test]
fn derive_tests_test_unnamed_enum() {
    let variant = UnnamedEnum::Variant1(42, "Answer".to_string());
    assert_eq!(variant.spore_print(), "UnnamedEnum::Variant1(42, Answer)");
}

/// An edge case: Empty struct.
struct EmptyStruct;

impl SporePrint for EmptyStruct {
    fn spore_print(&self) -> String {
        render_struct("EmptyStruct", &FieldList::Unit, &vec![])
    }
}

#[test]
fn derive_tests_test_empty_struct() {
    let instance = EmptyStruct;
    assert_eq!(instance.spore_print(), "EmptyStruct");
}

#[test]
fn derive_tests_test_enum_constructions() {
    let _ = UnitEnum::VariantA;
    let _ = UnitEnum::VariantB;

    let _ = NamedEnum::VariantX {
        id: 1,
        name: "Test".to_string(),
    };
    let _ = NamedEnum::VariantY { value: 3.14 };

    let _ = UnnamedEnum::Variant1(42, "Hello".to_string());
    let _ = UnnamedEnum::Variant2(2.71, true);
}

/// A struct with slices.
struct SliceStruct<'a> {
    slice_field: &'a [i32],
}

impl<'a> SporePrint for SliceStruct<'a> {
    fn spore_print(&self) -> String {
        render_struct(
            "SliceStruct",
            &named(&["slice_field"]),
            &vec![self.slice_field.spore_print()],
        )
    }
}

#[test]
fn derive_tests_test_slice_struct() {
    let test_struct = SliceStruct {
        slice_field: &[1, 2, 3],
    };
    assert_eq!(
        test_struct.spore_print(),
        "SliceStruct { slice_field: [1, 2, 3] }"
    );
}

/// A struct with arrays.
struct ArrayStruct {
    array_field: [i32; 3],
}

impl SporePrint for ArrayStruct {
    fn spore_print(&self) -> String {
        render_struct(
            "ArrayStruct",
            &named(&["array_field"]),
            &vec![self.array_field.spore_print()],
        )
    }
}

#[test]
fn derive_tests_test_array_struct() {
    let test_struct = ArrayStruct {
        array_field: [1, 2, 3],
    };
    assert_eq!(
        test_struct.spore_print(),
        "ArrayStruct { array_field: [1, 2, 3] }"
    );
}

/// A struct with references.
struct ReferenceStruct<'a> {
    ref_field: &'a i32,
}

impl<'a> SporePrint for ReferenceStruct<'a> {
    fn spore_print(&self) -> String {
        render_struct(
            "ReferenceStruct",
            &named(&["ref_field"]),
            &vec![self.ref_field.spore_print()],
        )
    }
}

#[test]
fn derive_tests_test_reference_struct() {
    let value = 42;
    let test_struct = ReferenceStruct { ref_field: &value };
    assert_eq!(
        test_struct.spore_print(),
        "ReferenceStruct { ref_field: 42 }"
    );
}

/// A struct with `Result<T, E>`.
struct ResultStruct {
    result_field: Result<i32, &'static str>,
}

impl SporePrint for ResultStruct {
    fn spore_print(&self) -> String {
        render_struct(
            "ResultStruct",
            &named(&["result_field"]),
            &vec![self.result_field.spore_print()],
        )
    }
}

#[test]
fn derive_tests_test_result_struct() {
    let test_struct_ok = ResultStruct {
        result_field: Ok(42),
    };
    assert_eq!(
        test_struct_ok.spore_print(),
        "ResultStruct { result_field: Ok(42) }"
    );

    let test_struct_err = ResultStruct {
        result_field: Err("error"),
    };
    assert_eq!(
        test_struct_err.spore_print(),
        "ResultStruct { result_field: Err(error) }"
    );
}

/// A struct with `Range<usize>`.
struct RangeStruct {
    range_field: Range<usize>,
}

impl SporePrint for RangeStruct {
    fn spore_print(&self) -> String {
        render_struct(
            "RangeStruct",
            &named(&["range_field"]),
            &vec![self.range_field.spore_print()],
        )
    }
}

#[test]
fn derive_tests_test_range_struct() {
    let test_struct = RangeStruct { range_field: 3..10 };
    assert_eq!(
        test_struct.spore_print(),
        "RangeStruct { range_field: 3..10 }"
    );
}

/// A struct with generic `Range<T>`.
struct GenericRangeStruct<T: SporePrint> {
    range_field: Range<T>,
}

impl<T: SporePrint> SporePrint for GenericRangeStruct<T> {
    fn spore_print(&self) -> String {
        render_struct(
            "GenericRangeStruct",
            &named(&["range_field"]),
            &vec![self.range_field.spore_print()],
        )
    }
}

#[test]
fn derive_tests_test_generic_range_struct_usize() {
    let test_struct = GenericRangeStruct { range_field: 3..10 };
    assert_eq!(
        test_struct.spore_print(),
        "GenericRangeStruct { range_field: 3..10 }"
    );
}

#[test]
fn derive_tests_test_generic_range_struct_f32() {
    let test_struct = GenericRangeStruct {
        range_field: Real32(1.5)..Real32(4.5),
    };
    assert_eq!(
        test_struct.spore_print(),
        "GenericRangeStruct { range_field: 1.5..4.5 }"
    );
}

#[test]
fn derive_tests_test_generic_range_struct_string() {
    let test_struct = GenericRangeStruct {
        range_field: "a".to_string().."z".to_string(),
    };
    assert_eq!(
        test_struct.spore_print(),
        "GenericRangeStruct { range_field: a..z }"
    );
}

/// A struct with a tuple field.
struct TupleStruct {
    tuple_field: (i32, &'static str, Option<Real>),
}

impl SporePrint for TupleStruct {
    fn spore_print(&self) -> String {
        render_struct(
            "TupleStruct",
            &named(&["tuple_field"]),
            &vec![self.tuple_field.spore_print()],
        )
    }
}

#[test]
fn derive_tests_test_tuple_struct() {
    let test_struct = TupleStruct {
        tuple_field: (42, "hello", Some(Real(3.14))),
    };
    assert_eq!(
        test_struct.spore_print(),
        "TupleStruct { tuple_field: (42, hello, Some(3.14)) }"
    );
}

/// A struct with a vector field.
struct VecStruct {
    vec_field: Vec<String>,
}

impl SporePrint for VecStruct {
    fn spore_print(&self) -> String {
        render_struct(
            "VecStruct",
            &named(&["vec_field"]),
            &vec![self.vec_field.spore_print()],
        )
    }
}

#[test]
fn derive_tests_test_vec_struct() {
    let test_struct = VecStruct {
        vec_field: vec!["one".to_string(), "two".to_string(), "three".to_string()],
    };
    assert_eq!(
        test_struct.spore_print(),
        "VecStruct { vec_field: [one, two, three] }"
    );
}

/// A struct with a `HashSet` field.
struct HashSetStruct {
    set_field: HashSet<i32>,
}

impl SporePrint for HashSetStruct {
    fn spore_print(&self) -> String {
        render_struct(
            "HashSetStruct",
            &named(&["set_field"]),
            &vec![self.set_field.spore_print()],
        )
    }
}

#[test]
fn derive_tests_test_hashset_struct() {
    let test_struct = HashSetStruct {
        set_field: HashSet::from([1, 2]),
    };
    let expected: HashSet<String> = HashSet::from_iter(vec!["1".to_string(), "2".to_string()]);
    let actual: HashSet<String> = HashSet::from_iter(
        test_struct
            .spore_print()
            .trim_start_matches("HashSetStruct { set_field: [")
            .trim_end_matches("] }")
            .split(", ")
            .map(|s| s.trim().to_string()),
    );
    assert_eq!(actual, expected);
}
