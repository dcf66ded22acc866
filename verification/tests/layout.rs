use dbent::codegen::{
    argument_type, entity_plan, label_plan, marked_with_label, Decl, FieldDecl, FieldTy, Fields,
    GenArg, GenError, KeyPlan, LabelPlan, PathArgs, PathSeg,
};

fn field(name: &str, ty: FieldTy, ty_text: &str, attrs: &[&str]) -> FieldDecl {
    FieldDecl {
        name: name.to_owned(),
        ty,
        ty_text: ty_text.to_owned(),
        attrs: attrs.iter().map(|a| (*a).to_owned()).collect(),
    }
}

fn path_ty(idents: &[&str], args: PathArgs) -> FieldTy {
    let mut segs: Vec<PathSeg> = Vec::new();
    for (i, ident) in idents.iter().enumerate() {
        let seg_args = if i + 1 == idents.len() { args.clone() } else { PathArgs::NoArgs };
        segs.push(PathSeg { ident: (*ident).to_owned(), args: seg_args });
    }
    FieldTy::Path(segs)
}

fn key_of_int() -> FieldTy {
    path_ty(&["Key"], PathArgs::AngleBracketed(vec![GenArg::Ty("Int".to_owned())]))
}

fn plain_string_ty() -> FieldTy {
    path_ty(&["String"], PathArgs::NoArgs)
}

#[test]
fn test_layout_key_success() {
    let decl = Decl::Struct(Fields::Named(vec![
        field("id", key_of_int(), "Key<Int>", &[]),
        field("data", plain_string_ty(), "String", &[]),
    ]));
    let plan = entity_plan(&decl);
    assert_eq!(
        plan,
        Ok(KeyPlan { field_name: "id".to_owned(), key_type_text: "Int".to_owned() })
    );
}

#[test]
fn test_layout_qualified_key_path() {
    let ty = path_ty(
        &["dbent", "Key"],
        PathArgs::AngleBracketed(vec![GenArg::Ty("usize".to_owned())]),
    );
    let decl = Decl::Struct(Fields::Named(vec![field("id", ty, "dbent::Key<usize>", &[])]));
    let plan = entity_plan(&decl);
    assert_eq!(
        plan,
        Ok(KeyPlan { field_name: "id".to_owned(), key_type_text: "usize".to_owned() })
    );
}

#[test]
fn test_layout_zero_fields() {
    let decl = Decl::Struct(Fields::Named(vec![]));
    assert_eq!(entity_plan(&decl), Err(GenError::NoFields));
}

#[test]
fn test_layout_key_two_args() {
    let ty = path_ty(
        &["Key"],
        PathArgs::AngleBracketed(vec![
            GenArg::Ty("Int".to_owned()),
            GenArg::Ty("String".to_owned()),
        ]),
    );
    let decl = Decl::Struct(Fields::Named(vec![field("id", ty, "Key<Int, String>", &[])]));
    assert_eq!(entity_plan(&decl), Err(GenError::KeyArgNotSingle));
}

#[test]
fn test_layout_key_without_args() {
    let decl = Decl::Struct(Fields::Named(vec![field(
        "id",
        path_ty(&["Key"], PathArgs::NoArgs),
        "Key",
        &[],
    )]));
    assert_eq!(entity_plan(&decl), Err(GenError::KeyArgMissing));

    let decl = Decl::Struct(Fields::Named(vec![field(
        "id",
        path_ty(&["Key"], PathArgs::AngleBracketed(vec![])),
        "Key<>",
        &[],
    )]));
    assert_eq!(entity_plan(&decl), Err(GenError::KeyArgMissing));

    let decl = Decl::Struct(Fields::Named(vec![field(
        "id",
        path_ty(&["Key"], PathArgs::Parenthesized),
        "Key(Int)",
        &[],
    )]));
    assert_eq!(entity_plan(&decl), Err(GenError::KeyArgMissing));
}

#[test]
fn test_layout_key_arg_not_type() {
    let ty = path_ty(&["Key"], PathArgs::AngleBracketed(vec![GenArg::NotTy]));
    let decl = Decl::Struct(Fields::Named(vec![field("id", ty, "Key<'a>", &[])]));
    assert_eq!(entity_plan(&decl), Err(GenError::KeyArgNotType));
}

#[test]
fn test_layout_first_field_not_key() {
    let decl = Decl::Struct(Fields::Named(vec![
        field("name", plain_string_ty(), "String", &[]),
        field("id", key_of_int(), "Key<Int>", &[]),
    ]));
    assert_eq!(entity_plan(&decl), Err(GenError::FirstFieldNotKey));
}

#[test]
fn test_layout_first_field_not_path() {
    let decl = Decl::Struct(Fields::Named(vec![field("id", FieldTy::NotPath, "(u8, u8)", &[])]));
    assert_eq!(entity_plan(&decl), Err(GenError::FirstFieldNotPath));
}

#[test]
fn test_layout_not_struct() {
    assert_eq!(entity_plan(&Decl::NotStruct), Err(GenError::NotStruct));
    assert_eq!(label_plan(&Decl::NotStruct), Err(GenError::NotStruct));
}

#[test]
fn test_layout_not_named_fields() {
    assert_eq!(entity_plan(&Decl::Struct(Fields::Unnamed)), Err(GenError::NotNamedFields));
    assert_eq!(entity_plan(&Decl::Struct(Fields::Unit)), Err(GenError::NotNamedFields));
    assert_eq!(label_plan(&Decl::Struct(Fields::Unnamed)), Err(GenError::NotNamedFields));
}

#[test]
fn test_layout_label_success() {
    let decl = Decl::Struct(Fields::Named(vec![
        field("id", key_of_int(), "Key<Int>", &[]),
        field("name", plain_string_ty(), "String", &["label"]),
    ]));
    let plan = label_plan(&decl);
    assert_eq!(
        plan,
        Ok(LabelPlan { field_name: "name".to_owned(), label_type_text: "String".to_owned() })
    );
}

#[test]
fn test_layout_two_label_marks() {
    let decl = Decl::Struct(Fields::Named(vec![
        field("a", plain_string_ty(), "String", &["label"]),
        field("b", plain_string_ty(), "String", &["label"]),
    ]));
    assert_eq!(label_plan(&decl), Err(GenError::LabelMarkerCount));
}

#[test]
fn test_layout_no_label_mark() {
    let decl = Decl::Struct(Fields::Named(vec![
        field("id", key_of_int(), "Key<Int>", &[]),
        field("name", plain_string_ty(), "String", &[]),
    ]));
    assert_eq!(label_plan(&decl), Err(GenError::LabelMarkerCount));
}

#[test]
fn test_layout_marker_detection() {
    let marked = field("name", plain_string_ty(), "String", &["serde", "label"]);
    assert!(marked_with_label(&marked));
    let unmarked = field("name", plain_string_ty(), "String", &["serde"]);
    assert!(!marked_with_label(&unmarked));
    // a multi-segment attribute path never counts as the plain marker
    let qualified = field("name", plain_string_ty(), "String", &["serde::label"]);
    assert!(!marked_with_label(&qualified));
}

#[test]
fn test_layout_argument_type() {
    let args = PathArgs::AngleBracketed(vec![GenArg::Ty("Int".to_owned())]);
    assert_eq!(argument_type(&args), Ok("Int".to_owned()));
    assert_eq!(argument_type(&PathArgs::NoArgs), Err(GenError::KeyArgMissing));
}
