//! A model of the field types of an entity struct, as far as the derive layer
//! reads them, and what it reads out of them.

use crate::text::same_text;
use vstd::prelude::*;
use vstd::string::{StrSliceExecFns, StringExecFns};

verus! {

/// A constant among generic arguments.
pub enum ConstArg {
    /// An integer literal, by its decimal digits.
    Int(String),
    /// Any other expression.
    Other,
}

/// One generic argument.
pub enum GenericArg {
    Type(TypeRef),
    Const(ConstArg),
    /// A lifetime, a binding or a constraint.
    Other,
}

/// The arguments of a path segment.
pub enum PathArgs {
    Absent,
    AngleBracketed(Vec<GenericArg>),
    Parenthesized,
}

/// One segment of a path, with its arguments.
pub struct Segment {
    pub ident: String,
    pub args: PathArgs,
}

/// A path to a type.
pub struct TypePath {
    /// Whether the path starts from a qualified self type.
    pub qualified: bool,
    /// Whether the path starts with `::`.
    pub leading_colon: bool,
    pub segments: Vec<Segment>,
}

/// A type as it is written.
pub enum TypeRef {
    Path(TypePath),
    /// `impl Into<String>`.
    ImplIntoString,
    /// Any other form of type.
    Other,
}

/// What a field's type says of the column's constraint.
pub enum CustomType {
    PrimaryKey,
    /// The entity referred to, where it is named by one identifier, and the
    /// position of the column referred to.
    ForeignKey(Option<String>, usize),
    Unique,
    Other,
}

/// Whether a character is a decimal digit.
pub open spec fn is_digit(c: char) -> bool {
    48 <= c as u32 <= 57
}

/// Whether a text is made of decimal digits alone.
pub open spec fn all_digits(s: Seq<char>) -> bool {
    forall|i: int| 0 <= i < s.len() ==> is_digit(#[trigger] s[i])
}

/// The number that a text of decimal digits writes.
pub open spec fn decimal_value(s: Seq<char>) -> nat
    decreases s.len(),
{
    if s.len() == 0 {
        0
    } else {
        decimal_value(s.drop_last()) * 10 + (s.last() as u32 - 48) as nat
    }
}

/// The number a text writes in decimal digits, if it writes one that a
/// `usize` holds.
pub open spec fn parsed_usize(s: Seq<char>) -> Option<usize> {
    if s.len() > 0 && all_digits(s) && decimal_value(s) <= usize::MAX {
        Some(decimal_value(s) as usize)
    } else {
        None
    }
}

proof fn lemma_decimal_value_grows(s: Seq<char>, i: int)
    requires
        0 <= i <= s.len(),
        all_digits(s),
    ensures
        decimal_value(s.take(i)) <= decimal_value(s),
    decreases s.len() - i,
{
    if i < s.len() {
        lemma_decimal_value_grows(s, i + 1);
        assert(s.take(i + 1).drop_last() =~= s.take(i));
        assert(is_digit(s[i]));
    } else {
        assert(s.take(i) =~= s);
    }
}

/// Reads a number written in decimal digits.
pub fn parse_usize(digits: &str) -> (r: Option<usize>)
    ensures
        r == parsed_usize(digits@),
{
    let n = digits.unicode_len();
    if n == 0 {
        return None;
    }
    let mut acc: usize = 0;
    let mut i: usize = 0;
    while i < n
        invariant
            n == digits@.len(),
            i <= n,
            all_digits(digits@.take(i as int)),
            acc == decimal_value(digits@.take(i as int)),
        decreases n - i,
    {
        let c = digits.get_char(i);
        let code = c as u32;
        if code < 48 || code > 57 {
            assert(!is_digit(digits@[i as int]));
            return None;
        }
        let d = (code - 48) as usize;
        proof {
            assert(digits@.take(i + 1).drop_last() =~= digits@.take(i as int));
            assert(digits@.take(i + 1).last() == c);
        }
        if acc > (usize::MAX - d) / 10 {
            proof {
                if all_digits(digits@) {
                    lemma_decimal_value_grows(digits@, i + 1);
                }
            }
            return None;
        }
        acc = acc * 10 + d;
        i = i + 1;
    }
    assert(digits@.take(i as int) =~= digits@);
    Some(acc)
}

/// The type inside `name<..>`, where `ty` is a path that is not qualified,
/// ends in `name` and has a type as its first argument.
pub open spec fn wrapped_in(ty: TypeRef, name: Seq<char>) -> Option<TypeRef> {
    match ty {
        TypeRef::Path(p) => {
            if !p.qualified && p.segments@.len() > 0 && p.segments@.last().ident@ == name {
                match p.segments@.last().args {
                    PathArgs::AngleBracketed(args) => {
                        if args@.len() > 0 {
                            match args@[0] {
                                GenericArg::Type(inner) => Some(inner),
                                _ => None,
                            }
                        } else {
                            None
                        }
                    },
                    _ => None,
                }
            } else {
                None
            }
        },
        _ => None,
    }
}

/// The type inside `name<..>`, or the type itself where it is no such type.
pub open spec fn unwrapped(ty: TypeRef, name: Seq<char>) -> TypeRef {
    match wrapped_in(ty, name) {
        Some(inner) => inner,
        None => ty,
    }
}

/// The type inside `name<..>`, or the type itself where it is no such type.
pub fn unwrap_named<'a>(ty: &'a TypeRef, name: &str) -> (r: &'a TypeRef)
    ensures
        *r == unwrapped(*ty, name@),
{
    if let TypeRef::Path(type_path) = ty {
        let n = type_path.segments.len();
        if !type_path.qualified && n > 0 {
            let segment = &type_path.segments[n - 1];
            if same_text(segment.ident.as_str(), name) {
                if let PathArgs::AngleBracketed(args) = &segment.args {
                    if args.len() > 0 {
                        if let GenericArg::Type(inner_ty) = &args[0] {
                            return inner_ty;
                        }
                    }
                }
            }
        }
    }
    ty
}

/// If the type is `Option<T>`, `T`; else the type itself.
pub fn unwrap_option_or_self<'a>(ty: &'a TypeRef) -> (r: &'a TypeRef)
    ensures
        *r == unwrapped(*ty, "Option"@),
{
    unwrap_named(ty, "Option")
}

/// If the type is `Unique<T>`, `T`; else the type itself.
pub fn unwrap_unique_or_self<'a>(ty: &'a TypeRef) -> (r: &'a TypeRef)
    ensures
        *r == unwrapped(*ty, "Unique"@),
{
    unwrap_named(ty, "Unique")
}

/// Whether the type is written as `String`, exactly.
pub open spec fn is_plain_string(ty: TypeRef) -> bool {
    ty matches TypeRef::Path(p) && !p.qualified && p.segments@.len() == 1 && p.segments@[0].ident@
        == "String"@
}

/// If the type is exactly `String`, `impl Into<String>`; else the type itself.
pub fn replace_string_with_into_string(ty: TypeRef) -> (r: TypeRef)
    ensures
        r == if is_plain_string(ty) {
            TypeRef::ImplIntoString
        } else {
            ty
        },
{
    let plain = match &ty {
        TypeRef::Path(path) => !path.qualified && path.segments.len() == 1 && same_text(
            path.segments[0].ident.as_str(),
            "String",
        ),
        _ => false,
    };
    if plain {
        TypeRef::ImplIntoString
    } else {
        ty
    }
}

/// The expression that turns the field into the text of its value: a
/// conversion for `impl Into<String>`, `to_string` for anything else.
pub fn generate_field_to_string_expr(field: &str, ty: &TypeRef) -> (r: String)
    ensures
        r@ == field@ + if ty is ImplIntoString {
            ".into()"@
        } else {
            ".to_string()"@
        },
{
    let mut out = String::from_str(field);
    match ty {
        TypeRef::ImplIntoString => {
            out.append(".into()");
        },
        _ => {
            out.append(".to_string()");
        },
    }
    out
}

/// The identifier of a path that is one plain identifier.
pub open spec fn ident_of(p: TypePath) -> Option<Seq<char>> {
    if !p.leading_colon && p.segments@.len() == 1 && p.segments@[0].args is Absent {
        Some(p.segments@[0].ident@)
    } else {
        None
    }
}

/// The identifier of a path that is one plain identifier.
pub fn get_ident(p: &TypePath) -> (r: Option<String>)
    ensures
        match ident_of(*p) {
            Some(name) => r matches Some(s) && s@ == name,
            None => r is None,
        },
{
    if !p.leading_colon && p.segments.len() == 1 {
        match &p.segments[0].args {
            PathArgs::Absent => Some(p.segments[0].ident.clone()),
            _ => None,
        }
    } else {
        None
    }
}

/// The types among generic arguments, in order.
pub open spec fn types_among(args: Seq<GenericArg>) -> Seq<TypeRef>
    decreases args.len(),
{
    if args.len() == 0 {
        Seq::empty()
    } else {
        match args.last() {
            GenericArg::Type(t) => types_among(args.drop_last()).push(t),
            _ => types_among(args.drop_last()),
        }
    }
}

/// The constants among generic arguments, in order.
pub open spec fn consts_among(args: Seq<GenericArg>) -> Seq<ConstArg>
    decreases args.len(),
{
    if args.len() == 0 {
        Seq::empty()
    } else {
        match args.last() {
            GenericArg::Const(c) => consts_among(args.drop_last()).push(c),
            _ => consts_among(args.drop_last()),
        }
    }
}

/// What the arguments of a segment named `name` say of the constraint.
pub open spec fn custom_type_of_args(name: Seq<char>, args: Seq<GenericArg>) -> (
    CustomTypeModel
) {
    let types = types_among(args);
    let consts = consts_among(args);
    if name == "PrimaryKey"@ && types.len() == 2 && types[0] is Path && types[1] is Path {
        CustomTypeModel::PrimaryKey
    } else if name == "ForeignKey"@ && types.len() == 2 && consts.len() == 1 && types[0] is Path
        && types[1] is Path && consts[0] is Int && parsed_usize(consts[0]->Int_0@) is Some {
        CustomTypeModel::ForeignKey(
            ident_of(types[0]->Path_0),
            parsed_usize(consts[0]->Int_0@)->Some_0,
        )
    } else if name == "Unique"@ && types.len() == 1 && types[0] is Path {
        CustomTypeModel::Unique
    } else {
        CustomTypeModel::Other
    }
}

/// Mathematical value of a [`CustomType`].
pub enum CustomTypeModel {
    PrimaryKey,
    ForeignKey(Option<Seq<char>>, usize),
    Unique,
    Other,
}

impl View for CustomType {
    type V = CustomTypeModel;

    open spec fn view(&self) -> CustomTypeModel {
        match *self {
            CustomType::PrimaryKey => CustomTypeModel::PrimaryKey,
            CustomType::ForeignKey(entity, ordinal) => CustomTypeModel::ForeignKey(
                match entity {
                    Some(name) => Some(name@),
                    None => None,
                },
                ordinal,
            ),
            CustomType::Unique => CustomTypeModel::Unique,
            CustomType::Other => CustomTypeModel::Other,
        }
    }
}

/// What a field's type says of the column's constraint, `Option` around the
/// type left aside.
pub open spec fn custom_type_of(ty: TypeRef) -> CustomTypeModel {
    match unwrapped(ty, "Option"@) {
        TypeRef::Path(p) => {
            if p.segments@.len() > 0 {
                match p.segments@.last().args {
                    PathArgs::AngleBracketed(args) => custom_type_of_args(
                        p.segments@.last().ident@,
                        args@,
                    ),
                    _ => CustomTypeModel::Other,
                }
            } else {
                CustomTypeModel::Other
            }
        },
        _ => CustomTypeModel::Other,
    }
}

/// The values behind a sequence of references.
pub open spec fn values_of<T>(refs: Seq<&T>) -> Seq<T> {
    refs.map_values(|t: &T| *t)
}

/// What the arguments of a segment named `name` say of the constraint.
pub fn custom_type_from_args(name: &str, args: &Vec<GenericArg>) -> (r: CustomType)
    ensures
        r@ == custom_type_of_args(name@, args@),
{
    let mut type_args: Vec<&TypeRef> = Vec::new();
    let mut const_args: Vec<&ConstArg> = Vec::new();
    let mut i: usize = 0;
    assert(values_of(type_args@) =~= types_among(args@.take(0)));
    assert(values_of(const_args@) =~= consts_among(args@.take(0)));
    while i < args.len()
        invariant
            i <= args.len(),
            values_of(type_args@) == types_among(args@.take(i as int)),
            values_of(const_args@) == consts_among(args@.take(i as int)),
        decreases args.len() - i,
    {
        proof {
            assert(args@.take(i + 1).drop_last() =~= args@.take(i as int));
            assert(args@.take(i + 1).last() == args@[i as int]);
        }
        let ghost old_types = type_args@;
        let ghost old_consts = const_args@;
        match &args[i] {
            GenericArg::Type(ty) => {
                type_args.push(ty);
                assert(values_of(type_args@) =~= values_of(old_types).push(*ty));
            },
            GenericArg::Const(expr) => {
                const_args.push(expr);
                assert(values_of(const_args@) =~= values_of(old_consts).push(*expr));
            },
            _ => {},
        }
        i = i + 1;
    }
    assert(args@.take(i as int) =~= args@);
    let ghost types = types_among(args@);
    let ghost consts = consts_among(args@);
    assert(type_args@.len() == types.len());
    assert(const_args@.len() == consts.len());
    assert(forall|k: int| 0 <= k < types.len() ==> *type_args@[k] == #[trigger] types[k]) by {
        assert forall|k: int| 0 <= k < types.len() implies *type_args@[k] == #[trigger] types[k] by {
            assert(values_of(type_args@)[k] == types[k]);
        }
    }
    assert(forall|k: int| 0 <= k < consts.len() ==> *const_args@[k] == #[trigger] consts[k]) by {
        assert forall|k: int| 0 <= k < consts.len() implies *const_args@[k]
            == #[trigger] consts[k] by {
            assert(values_of(const_args@)[k] == consts[k]);
        }
    }
    proof {
        reveal_strlit("PrimaryKey");
        reveal_strlit("ForeignKey");
        reveal_strlit("Unique");
        assert("PrimaryKey"@[0] != "ForeignKey"@[0]);
        assert("PrimaryKey"@.len() != "Unique"@.len());
        assert("ForeignKey"@.len() != "Unique"@.len());
    }
    if same_text(name, "PrimaryKey") {
        if type_args.len() == 2 && is_path(type_args[0]) && is_path(type_args[1]) {
            CustomType::PrimaryKey
        } else {
            CustomType::Other
        }
    } else if same_text(name, "ForeignKey") {
        if type_args.len() == 2 && const_args.len() == 1 && is_path(type_args[0]) && is_path(
            type_args[1],
        ) {
            match (type_args[0], const_args[0]) {
                (TypeRef::Path(entity), ConstArg::Int(digits)) => {
                    match parse_usize(digits.as_str()) {
                        Some(index) => CustomType::ForeignKey(get_ident(entity), index),
                        None => CustomType::Other,
                    }
                },
                _ => CustomType::Other,
            }
        } else {
            CustomType::Other
        }
    } else if same_text(name, "Unique") {
        if type_args.len() == 1 && is_path(type_args[0]) {
            CustomType::Unique
        } else {
            CustomType::Other
        }
    } else {
        CustomType::Other
    }
}

/// Whether a type is written as a path.
pub fn is_path(ty: &TypeRef) -> (r: bool)
    ensures
        r == (*ty is Path),
{
    match ty {
        TypeRef::Path(_) => true,
        _ => false,
    }
}

/// What a field's type says of the column's constraint, `Option` around the
/// type left aside.
pub fn parse_custom_type(ty: &TypeRef) -> (r: CustomType)
    ensures
        r@ == custom_type_of(*ty),
{
    let ty = unwrap_option_or_self(ty);
    if let TypeRef::Path(type_path) = ty {
        let n = type_path.segments.len();
        if n == 0 {
            return CustomType::Other;
        }
        let segment = &type_path.segments[n - 1];
        match &segment.args {
            PathArgs::AngleBracketed(args) => custom_type_from_args(segment.ident.as_str(), args),
            _ => CustomType::Other,
        }
    } else {
        CustomType::Other
    }
}

} // verus!
