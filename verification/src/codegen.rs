//! Layout validation for capability generation.
//!
//! The build-time generator reads a record declaration, locates the
//! identifier field and the label-marked field, and emits the `Keyed` and
//! `Label` implementations. Parsing source text and emitting code are host
//! tooling; the decision procedure in between is modeled here as pure
//! functions from a declaration's shape to a generation plan or a
//! structured diagnostic. Validation never touches run-time data, and a
//! declaration that cannot be validated yields a diagnostic, never a
//! panic.

use vstd::prelude::*;
use vstd::string::StringExecFns;

verus! {

/// A generic argument of a path segment, as far as layout validation reads
/// it: a type argument carrying its rendered source text, or some other
/// kind of argument (a lifetime or a constant).
#[derive(Clone, PartialEq, Eq, Debug)]
pub enum GenArg {
    /// A type argument, with its source text.
    Ty(String),
    /// A lifetime or constant argument.
    NotTy,
}

/// The argument list of a path segment.
#[derive(Clone, PartialEq, Eq, Debug)]
pub enum PathArgs {
    /// No argument list at all.
    NoArgs,
    /// An angle-bracketed argument list.
    AngleBracketed(Vec<GenArg>),
    /// A parenthesized (function-style) argument list.
    Parenthesized,
}

/// One segment of a path type.
#[derive(Clone, PartialEq, Eq, Debug)]
pub struct PathSeg {
    /// The segment's identifier.
    pub ident: String,
    /// The segment's argument list.
    pub args: PathArgs,
}

/// A field's declared type, as far as layout validation reads it.
#[derive(Clone, PartialEq, Eq, Debug)]
pub enum FieldTy {
    /// A path type, such as a named type with optional generic arguments.
    Path(Vec<PathSeg>),
    /// Any other kind of type (a reference, a tuple, an array, ...).
    NotPath,
}

/// One named field of a record declaration.
#[derive(Clone, PartialEq, Eq, Debug)]
pub struct FieldDecl {
    /// The field's name.
    pub name: String,
    /// The field's declared type, structurally.
    pub ty: FieldTy,
    /// The field's declared type as source text, kept for emission.
    pub ty_text: String,
    /// The names of the field's attributes (a multi-segment attribute path
    /// is rendered with its separators and so never equals a plain name).
    pub attrs: Vec<String>,
}

/// The fields of a struct declaration.
#[derive(Clone, PartialEq, Eq, Debug)]
pub enum Fields {
    /// Named fields, in declaration order.
    Named(Vec<FieldDecl>),
    /// Tuple-style fields.
    Unnamed,
    /// No fields (a unit struct).
    Unit,
}

/// A record declaration, as far as layout validation reads it.
#[derive(Clone, PartialEq, Eq, Debug)]
pub enum Decl {
    /// A struct declaration with its fields.
    Struct(Fields),
    /// An enum or union declaration.
    NotStruct,
}

/// A build-time diagnostic from layout validation. The caller ties each
/// one to the offending declaration's source location.
#[derive(Clone, Copy, PartialEq, Eq, Debug)]
pub enum GenError {
    /// The declaration is not a struct.
    NotStruct,
    /// The struct does not have named fields.
    NotNamedFields,
    /// The struct declares no fields, so it has no leading Key field.
    NoFields,
    /// The first field's declared type is not a path type.
    FirstFieldNotPath,
    /// The first field's path type has no segments.
    NoPathSegments,
    /// The first field's type is not the Key wrapper. Detection goes by
    /// the literal name of the path's last segment, so a re-exported or
    /// aliased wrapper defeats it; that is a documented limitation.
    FirstFieldNotKey,
    /// The Key wrapper was given no generic argument.
    KeyArgMissing,
    /// The Key wrapper must take exactly one generic argument.
    KeyArgNotSingle,
    /// The Key wrapper's generic argument is not a type.
    KeyArgNotType,
    /// Exactly one field must carry the label marker.
    LabelMarkerCount,
}

/// The plan for emitting a `Keyed` implementation: the field that holds
/// the Key and the source text of the Key's value type.
#[derive(Clone, PartialEq, Eq, Debug)]
pub struct KeyPlan {
    /// The name of the identifier field.
    pub field_name: String,
    /// The source text of the Key's single type argument.
    pub key_type_text: String,
}

/// The plan for emitting a `Label` implementation: the field that carries
/// the label marker and the source text of its type.
#[derive(Clone, PartialEq, Eq, Debug)]
pub struct LabelPlan {
    /// The name of the marked field.
    pub field_name: String,
    /// The source text of the marked field's type.
    pub label_type_text: String,
}

/// The single type argument of a Key wrapper's argument list, or the
/// diagnostic explaining why there is none.
pub open spec fn key_arg_of(args: PathArgs) -> Result<String, GenError> {
    match args {
        PathArgs::AngleBracketed(list) => if list@.len() == 0 {
            Err(GenError::KeyArgMissing)
        } else if list@.len() != 1 {
            Err(GenError::KeyArgNotSingle)
        } else {
            match list@[0] {
                GenArg::Ty(t) => Ok(t),
                GenArg::NotTy => Err(GenError::KeyArgNotType),
            }
        },
        _ => Err(GenError::KeyArgMissing),
    }
}

/// The key plan of a leading field, or the diagnostic explaining why the
/// field is not a Key wrapper over one type argument.
pub open spec fn field_key_plan(f: FieldDecl) -> Result<KeyPlan, GenError> {
    match f.ty {
        FieldTy::Path(segs) => if segs@.len() == 0 {
            Err(GenError::NoPathSegments)
        } else if segs@.last().ident@ != "Key"@ {
            Err(GenError::FirstFieldNotKey)
        } else {
            match key_arg_of(segs@.last().args) {
                Ok(t) => Ok(KeyPlan { field_name: f.name, key_type_text: t }),
                Err(e) => Err(e),
            }
        },
        FieldTy::NotPath => Err(GenError::FirstFieldNotPath),
    }
}

/// The key plan of a struct's field list: the first declared field must
/// be the Key wrapper.
pub open spec fn fields_key_plan(fields: Fields) -> Result<KeyPlan, GenError> {
    match fields {
        Fields::Named(fs) => if fs@.len() == 0 {
            Err(GenError::NoFields)
        } else {
            field_key_plan(fs@[0])
        },
        _ => Err(GenError::NotNamedFields),
    }
}

/// The key plan of a whole declaration.
pub open spec fn decl_key_plan(decl: Decl) -> Result<KeyPlan, GenError> {
    match decl {
        Decl::Struct(fields) => fields_key_plan(fields),
        Decl::NotStruct => Err(GenError::NotStruct),
    }
}

/// Whether a field carries the label marker.
pub open spec fn is_labeled(f: FieldDecl) -> bool {
    exists|i: int| 0 <= i < f.attrs@.len() && f.attrs@[i]@ == "label"@
}

/// How many fields of the list carry the label marker.
pub open spec fn labeled_count(fs: Seq<FieldDecl>) -> nat
    decreases fs.len(),
{
    if fs.len() == 0 {
        0
    } else {
        labeled_count(fs.drop_last()) + (if is_labeled(fs.last()) {
            1nat
        } else {
            0nat
        })
    }
}

/// A marked field at any position forces the marker count above zero.
proof fn lemma_labeled_count_at_least_one(fs: Seq<FieldDecl>, j: int)
    requires
        0 <= j < fs.len(),
        is_labeled(fs[j]),
    ensures
        labeled_count(fs) >= 1,
    decreases fs.len(),
{
    if j < fs.len() - 1 {
        lemma_labeled_count_at_least_one(fs.drop_last(), j);
    }
}

/// Two marked fields at distinct positions force the marker count above
/// one.
proof fn lemma_labeled_count_at_least_two(fs: Seq<FieldDecl>, j1: int, j2: int)
    requires
        0 <= j1 < j2 < fs.len(),
        is_labeled(fs[j1]),
        is_labeled(fs[j2]),
    ensures
        labeled_count(fs) >= 2,
    decreases fs.len(),
{
    if j2 < fs.len() - 1 {
        lemma_labeled_count_at_least_two(fs.drop_last(), j1, j2);
    } else {
        lemma_labeled_count_at_least_one(fs.drop_last(), j1);
    }
}

/// Returns true if this field is marked with the label marker attribute.
pub fn marked_with_label(field: &FieldDecl) -> (r: bool)
    ensures
        r == is_labeled(*field),
{
    let needle: String = String::from_str("label");
    let n: usize = field.attrs.len();
    let mut i: usize = 0;
    while i < n
        invariant
            0 <= i <= n,
            n == field.attrs@.len(),
            needle@ == "label"@,
            forall|j: int| 0 <= j < i ==> field.attrs@[j]@ != "label"@,
        decreases n - i,
    {
        if field.attrs[i] == needle {
            assert(is_labeled(*field)) by {
                assert(field.attrs@[i as int]@ == "label"@);
            }
            return true;
        }
        i += 1;
    }
    false
}

/// Returns the generic argument type of the Key, if the argument list
/// holds exactly one type argument.
pub fn argument_type(args: &PathArgs) -> (r: Result<String, GenError>)
    ensures
        r == key_arg_of(*args),
{
    match args {
        PathArgs::AngleBracketed(list) => {
            if list.len() == 0 {
                Err(GenError::KeyArgMissing)
            } else if list.len() != 1 {
                Err(GenError::KeyArgNotSingle)
            } else {
                match &list[0] {
                    GenArg::Ty(t) => Ok(t.clone()),
                    GenArg::NotTy => Err(GenError::KeyArgNotType),
                }
            }
        },
        _ => Err(GenError::KeyArgMissing),
    }
}

/// Returns the key plan if the first field declared in the struct is a
/// `Key<T>`.
pub fn single_key(fields: &Fields) -> (r: Result<KeyPlan, GenError>)
    ensures
        r == fields_key_plan(*fields),
{
    match fields {
        Fields::Named(fs) => {
            if fs.len() == 0 {
                return Err(GenError::NoFields);
            }
            let f = &fs[0];
            match &f.ty {
                FieldTy::Path(segs) => {
                    if segs.len() == 0 {
                        return Err(GenError::NoPathSegments);
                    }
                    let seg = &segs[segs.len() - 1];
                    let key_name: String = String::from_str("Key");
                    if !(seg.ident == key_name) {
                        return Err(GenError::FirstFieldNotKey);
                    }
                    match argument_type(&seg.args) {
                        Ok(t) => Ok(KeyPlan { field_name: f.name.clone(), key_type_text: t }),
                        Err(e) => Err(e),
                    }
                },
                FieldTy::NotPath => Err(GenError::FirstFieldNotPath),
            }
        },
        _ => Err(GenError::NotNamedFields),
    }
}

/// Returns the label plan if exactly one field is marked with the label
/// marker.
pub fn single_label(fields: &Fields) -> (r: Result<LabelPlan, GenError>)
    ensures
        fields matches Fields::Named(fs) ==> {
            &&& (r is Ok <==> labeled_count(fs@) == 1)
            &&& (r matches Ok(p) ==> exists|i: int|
                0 <= i < fs@.len() && is_labeled(fs@[i]) && p.field_name == fs@[i].name
                    && p.label_type_text == fs@[i].ty_text)
            &&& (r matches Ok(p) ==> forall|i: int|
                0 <= i < fs@.len() && is_labeled(fs@[i]) ==> p.field_name == fs@[i].name
                    && p.label_type_text == fs@[i].ty_text)
            &&& (r matches Err(e) ==> e == GenError::LabelMarkerCount)
        },
        !(fields matches Fields::Named(..)) ==> r == Err::<LabelPlan, GenError>(
            GenError::NotNamedFields,
        ),
{
    match fields {
        Fields::Named(fs) => {
            let n: usize = fs.len();
            let mut count: usize = 0;
            let mut found: usize = 0;
            let mut i: usize = 0;
            while i < n
                invariant
                    0 <= i <= n,
                    n == fs@.len(),
                    count == labeled_count(fs@.take(i as int)),
                    count <= i,
                    count > 0 ==> (found < i && is_labeled(fs@[found as int])),
                decreases n - i,
            {
                let marked = marked_with_label(&fs[i]);
                proof {
                    assert(fs@.take(i as int + 1).drop_last() =~= fs@.take(i as int));
                    assert(fs@.take(i as int + 1).last() == fs@[i as int]);
                }
                if marked {
                    if count == 0 {
                        found = i;
                    }
                    count = count + 1;
                }
                i += 1;
            }
            proof {
                assert(fs@.take(n as int) =~= fs@);
            }
            if count == 1 {
                let f = &fs[found];
                proof {
                    assert forall|j: int|
                        0 <= j < fs@.len() && is_labeled(fs@[j]) implies j == found as int by {
                        if j < found as int {
                            lemma_labeled_count_at_least_two(fs@, j, found as int);
                        } else if j > found as int {
                            lemma_labeled_count_at_least_two(fs@, found as int, j);
                        }
                    }
                }
                Ok(LabelPlan { field_name: f.name.clone(), label_type_text: f.ty_text.clone() })
            } else {
                Err(GenError::LabelMarkerCount)
            }
        },
        _ => Err(GenError::NotNamedFields),
    }
}

/// Validates a declaration for `Keyed` generation: it must be a struct
/// with named fields whose first field is the Key wrapper over exactly
/// one type argument. On success the plan names the identifier field and
/// its value type; on failure the diagnostic says what was malformed.
pub fn entity_plan(decl: &Decl) -> (r: Result<KeyPlan, GenError>)
    ensures
        r == decl_key_plan(*decl),
{
    match decl {
        Decl::Struct(fields) => single_key(fields),
        Decl::NotStruct => Err(GenError::NotStruct),
    }
}

/// Validates a declaration for `Label` generation: it must be a struct
/// with named fields of which exactly one carries the label marker. On
/// success the plan names the marked field and its type; on failure the
/// diagnostic says what was malformed.
pub fn label_plan(decl: &Decl) -> (r: Result<LabelPlan, GenError>)
    ensures
        decl matches Decl::Struct(Fields::Named(fs)) ==> {
            &&& (r is Ok <==> labeled_count(fs@) == 1)
            &&& (r matches Ok(p) ==> exists|i: int|
                0 <= i < fs@.len() && is_labeled(fs@[i]) && p.field_name == fs@[i].name
                    && p.label_type_text == fs@[i].ty_text)
            &&& (r matches Ok(p) ==> forall|i: int|
                0 <= i < fs@.len() && is_labeled(fs@[i]) ==> p.field_name == fs@[i].name
                    && p.label_type_text == fs@[i].ty_text)
            &&& (r matches Err(e) ==> e == GenError::LabelMarkerCount)
        },
        decl matches Decl::Struct(fields) && !(fields matches Fields::Named(..)) ==> r
            == Err::<LabelPlan, GenError>(GenError::NotNamedFields),
        *decl is NotStruct ==> r == Err::<LabelPlan, GenError>(GenError::NotStruct),
{
    match decl {
        Decl::Struct(fields) => single_label(fields),
        Decl::NotStruct => Err(GenError::NotStruct),
    }
}

} // verus!
