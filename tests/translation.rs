use mangotyp::items::{parse_enum, parse_struct, parse_token_type, translate_item};
use mangotyp::model::{
    AliasDecl, DeclarationItem, Field, FieldKey, RecordDecl, TypeExpr, UnionDecl, Variant,
    VariantPayload,
};
use mangotyp::prelude::translate_std_types;
use mangotyp::translate::translate_items;
use mangotyp::types::{parse_ident, parse_type, parse_type_ident};

fn named(id: &str) -> TypeExpr {
    TypeExpr::Named(id.to_string(), vec![])
}

fn generic(id: &str, args: Vec<TypeExpr>) -> TypeExpr {
    TypeExpr::Named(id.to_string(), args)
}

fn field(name: &str, ty: TypeExpr) -> Field {
    Field { key: FieldKey::Name(name.to_string()), ty }
}

fn alias(name: &str, ty: TypeExpr) -> AliasDecl {
    AliasDecl { name: name.to_string(), ty }
}

fn person() -> RecordDecl {
    RecordDecl {
        name: "Person".to_string(),
        fields: vec![
            field("name", named("String")),
            field("age", named("u32")),
            field("has_gut_issues", named("bool")),
        ],
    }
}

fn health_status() -> UnionDecl {
    let single = |name: &str| Variant {
        name: name.to_string(),
        payload: VariantPayload::Single(named("i32")),
    };
    UnionDecl {
        name: "HealthStatus".to_string(),
        variants: vec![single("Protein"), single("Triglycerid"), single("Fats")],
    }
}

fn zoe_analysis() -> RecordDecl {
    RecordDecl {
        name: "ZoeAnalysis".to_string(),
        fields: vec![
            field("user", named("User")),
            field("list_of_tests", generic("Vec", vec![named("String")])),
            field(
                "all_exams",
                generic("HashMap", vec![named("String"), named("HealthStatus")]),
            ),
        ],
    }
}

const PRELUDE: &str = "type HashSet<T extends number | string> = Record<T, undefined>;\
type HashMap<T extends number | string, U> = Record<T, U>;\
type Vec<T> = Array<T>;\
type Option<T> = T | undefined;\
type Result<T, U> = T | U;";

#[test]
fn integer32_alias() {
    let out = parse_token_type(&alias("Integer32", named("i32")));
    assert_eq!(out.as_deref(), Some("export type Integer32 = number;"));
}

#[test]
fn person_record() {
    assert_eq!(
        parse_struct(&person()).as_deref(),
        Some("export interface Person {name:string;age:number;has_gut_issues:boolean;};")
    );
}

#[test]
fn health_status_union() {
    assert_eq!(
        parse_enum(&health_status()).as_deref(),
        Some(
            "export type HealthStatus = | { test: \"Protein\" , result: number} \
| { test: \"Triglycerid\" , result: number} | { test: \"Fats\" , result: number};"
        )
    );
}

#[test]
fn user_option_alias() {
    let out = parse_token_type(&alias("User", generic("Option", vec![named("Person")])));
    assert_eq!(out.as_deref(), Some("export type User = Option<Person,>;"));
    assert!(translate_std_types().contains("type Option<T> = T | undefined;"));
}

#[test]
fn map_of_unions_field() {
    let out = parse_struct(&zoe_analysis()).unwrap();
    assert!(out.contains("all_exams:HashMap<string,HealthStatus,>;"));
    assert_eq!(
        out,
        "export interface ZoeAnalysis {user:User;list_of_tests:Vec<string,>;\
all_exams:HashMap<string,HealthStatus,>;};"
    );
}

#[test]
fn prelude_text_is_fixed() {
    assert_eq!(translate_std_types(), PRELUDE);
}

#[test]
fn empty_input_gives_prelude_once() {
    let out = translate_items(&vec![]);
    assert!(!out.is_empty());
    assert_eq!(out, PRELUDE);
    for header in ["type HashSet<", "type HashMap<", "type Vec<", "type Option<", "type Result<"] {
        assert_eq!(out.matches(header).count(), 1);
    }
}

#[test]
fn whole_file_in_input_order() {
    let items = vec![
        DeclarationItem::Alias(alias("Integer32", named("i32"))),
        DeclarationItem::Union(health_status()),
        DeclarationItem::Unsupported("fn".to_string()),
        DeclarationItem::Record(person()),
        DeclarationItem::Alias(alias("User", generic("Option", vec![named("Person")]))),
        DeclarationItem::Record(zoe_analysis()),
    ];
    let expected = format!(
        "{}{}{}{}{}{}",
        PRELUDE,
        "export type Integer32 = number;",
        "export type HealthStatus = | { test: \"Protein\" , result: number} \
| { test: \"Triglycerid\" , result: number} | { test: \"Fats\" , result: number};",
        "export interface Person {name:string;age:number;has_gut_issues:boolean;};",
        "export type User = Option<Person,>;",
        "export interface ZoeAnalysis {user:User;list_of_tests:Vec<string,>;\
all_exams:HashMap<string,HealthStatus,>;};"
    );
    assert_eq!(translate_items(&items), expected);
    assert_eq!(translate_items(&items).matches("type Option<T>").count(), 1);
}

#[test]
fn translating_twice_gives_same_text() {
    let item = DeclarationItem::Record(zoe_analysis());
    let first = translate_item(&item);
    let second = translate_item(&item);
    assert!(first.is_some());
    assert_eq!(first, second);
}

#[test]
fn fields_keep_declaration_order() {
    let record = RecordDecl {
        name: "Abc".to_string(),
        fields: vec![field("c", named("u8")), field("a", named("u8")), field("b", named("u8"))],
    };
    let out = parse_struct(&record).unwrap();
    let c = out.find("c:number;").unwrap();
    let a = out.find("a:number;").unwrap();
    let b = out.find("b:number;").unwrap();
    assert!(c < a && a < b);
}

#[test]
fn i32_is_number_at_any_depth() {
    assert_eq!(parse_type(&named("i32")).as_deref(), Some("number"));
    let tuple = TypeExpr::Tuple(vec![named("i32"), named("String")]);
    assert_eq!(parse_type(&tuple).as_deref(), Some("[number,string,]"));
    let nested = generic("Vec", vec![generic("Option", vec![TypeExpr::Tuple(vec![named("i32")])])]);
    assert_eq!(parse_type(&nested).as_deref(), Some("Vec<Option<[number,],>,>"));
    let record = RecordDecl { name: "R".to_string(), fields: vec![field("x", named("i32"))] };
    assert_eq!(parse_struct(&record).as_deref(), Some("export interface R {x:number;};"));
}

#[test]
fn primitive_names() {
    for id in ["i8", "i16", "i32", "i64", "i128", "u8", "u16", "u32", "u64", "u128", "f32", "f64", "isize", "usize"] {
        assert_eq!(parse_ident(id), "number");
        assert_eq!(parse_type_ident(id), "number");
    }
    for id in ["String", "str", "char"] {
        assert_eq!(parse_ident(id), "string");
    }
    assert_eq!(parse_ident("bool"), "boolean");
    assert_eq!(parse_ident("Option"), "Option");
    assert_eq!(parse_type_ident("Person"), "Person");
    assert_eq!(parse_ident("u128"), "number");
    assert_eq!(parse_type_ident("u128"), "number");
    assert_eq!(parse_ident("u256"), "u256");
    assert_eq!(parse_ident(""), "");
}

#[test]
fn empty_tuple_type() {
    assert_eq!(parse_type(&TypeExpr::Tuple(vec![])).as_deref(), Some("[]"));
}

#[test]
fn unsupported_type_has_no_text() {
    assert_eq!(parse_type(&TypeExpr::Unsupported("reference".to_string())), None);
    assert_eq!(parse_type(&named("")), None);
    let deep = generic("Vec", vec![TypeExpr::Tuple(vec![
        named("i32"),
        TypeExpr::Unsupported("fn pointer".to_string()),
    ])]);
    assert_eq!(parse_type(&deep), None);
}

#[test]
fn item_with_unsupported_type_is_skipped() {
    let record = RecordDecl {
        name: "Bad".to_string(),
        fields: vec![
            field("ok", named("i32")),
            field("r", TypeExpr::Unsupported("reference".to_string())),
        ],
    };
    assert_eq!(parse_struct(&record), None);
    let items = vec![
        DeclarationItem::Record(record),
        DeclarationItem::Alias(alias("A", named("bool"))),
    ];
    assert_eq!(translate_items(&items), format!("{}export type A = boolean;", PRELUDE));
}

#[test]
fn tuple_struct_keys_are_positions() {
    let fields: Vec<Field> = (0..12)
        .map(|i| Field { key: FieldKey::Index(i), ty: named("i32") })
        .collect();
    let out = parse_struct(&RecordDecl { name: "Wide".to_string(), fields }).unwrap();
    assert!(out.starts_with("export interface Wide {0:number;1:number;"));
    assert!(out.ends_with("9:number;10:number;11:number;};"));
}

#[test]
fn large_field_index() {
    let fields = vec![Field { key: FieldKey::Index(usize::MAX), ty: named("Anything") }];
    let out = parse_struct(&RecordDecl { name: "Big".to_string(), fields }).unwrap();
    assert_eq!(out, format!("export interface Big {{{}:Anything;}};", usize::MAX));
}

#[test]
fn unit_struct() {
    let out = parse_struct(&RecordDecl { name: "Unit".to_string(), fields: vec![] });
    assert_eq!(out.as_deref(), Some("export interface Unit {};"));
}

#[test]
fn empty_field_name_is_rejected() {
    let record = RecordDecl { name: "R".to_string(), fields: vec![field("", named("i32"))] };
    assert_eq!(parse_struct(&record), None);
}

#[test]
fn empty_names_are_rejected() {
    assert_eq!(parse_token_type(&alias("", named("i32"))), None);
    assert_eq!(parse_struct(&RecordDecl { name: String::new(), fields: vec![] }), None);
    let mut union = health_status();
    union.name = String::new();
    assert_eq!(parse_enum(&union), None);
    let mut union = health_status();
    union.variants[1].name = String::new();
    assert_eq!(parse_enum(&union), None);
}

#[test]
fn union_without_variants_is_rejected() {
    let union = UnionDecl { name: "Never".to_string(), variants: vec![] };
    assert_eq!(parse_enum(&union), None);
    assert_eq!(translate_item(&DeclarationItem::Union(union)), None);
}

#[test]
fn union_payload_shapes() {
    let union = UnionDecl {
        name: "Shape".to_string(),
        variants: vec![
            Variant { name: "Empty".to_string(), payload: VariantPayload::Unit },
            Variant {
                name: "Point".to_string(),
                payload: VariantPayload::Record(vec![
                    field("x", named("f64")),
                    field("y", named("f64")),
                ]),
            },
            Variant {
                name: "Pair".to_string(),
                payload: VariantPayload::Single(TypeExpr::Tuple(vec![named("u8"), named("char")])),
            },
        ],
    };
    assert_eq!(
        parse_enum(&union).as_deref(),
        Some(
            "export type Shape = | { test: \"Empty\" , result: undefined} \
| { test: \"Point\" , result: {x:number;y:number;}} \
| { test: \"Pair\" , result: [number,string,]};"
        )
    );
}

#[test]
fn several_unnamed_fields_are_unsupported() {
    let mut union = health_status();
    union.variants[2].payload = VariantPayload::Unsupported("2 unnamed fields".to_string());
    assert_eq!(parse_enum(&union), None);
}

#[test]
fn unsupported_item_has_no_text() {
    assert_eq!(translate_item(&DeclarationItem::Unsupported("impl".to_string())), None);
}

#[test]
fn item_dispatch() {
    assert_eq!(
        translate_item(&DeclarationItem::Alias(alias("Integer32", named("i32")))).as_deref(),
        Some("export type Integer32 = number;")
    );
    assert_eq!(
        translate_item(&DeclarationItem::Record(person())),
        parse_struct(&person())
    );
    assert_eq!(
        translate_item(&DeclarationItem::Union(health_status())),
        parse_enum(&health_status())
    );
}

#[test]
fn duplicate_names_are_kept() {
    let items = vec![
        DeclarationItem::Alias(alias("A", named("i32"))),
        DeclarationItem::Alias(alias("A", named("String"))),
    ];
    assert_eq!(
        translate_items(&items),
        format!("{}export type A = number;export type A = string;", PRELUDE)
    );
}
