//! Schema resolution: reads a declared struct or enum, with the attributes of
//! its fields, and produces the field bindings, collecting every error found.
use vstd::prelude::*;

verus! {

/// A source location, as line and column.
#[derive(Clone, Copy, Debug, PartialEq, Eq, Structural)]
pub struct Span {
    pub line: usize,
    pub column: usize,
}

/// A literal given as the value of a `name = value` attribute item.
#[derive(Clone, Debug)]
pub enum Lit {
    Str(String),
    Other,
}

/// One item inside an attribute list, such as `ty = "u64"` in `#[yrs(ty = "u64")]`.
#[derive(Clone, Debug)]
pub enum NestedMeta {
    /// `path = literal`
    NameValue { path: String, lit: Lit, span: Span },
    /// any other form: a bare path, a nested list, a literal
    Other { span: Span },
}

/// The body of an attribute.
#[derive(Clone, Debug)]
pub enum AttrBody {
    /// `#[name(item, item, ...)]`
    List(Vec<NestedMeta>),
    /// `#[name]` or `#[name = value]`
    Other,
}

/// One attribute on a field.
#[derive(Clone, Debug)]
pub struct Attribute {
    pub path: String,
    pub body: AttrBody,
    pub span: Span,
}

/// A declared field: its name (none for a positional field), type and attributes.
#[derive(Clone, Debug)]
pub struct FieldDecl {
    pub ident: Option<String>,
    pub ty: String,
    pub attrs: Vec<Attribute>,
    pub span: Span,
}

/// The fields of a struct or of an enum variant.
#[derive(Clone, Debug)]
pub enum FieldsDecl {
    Named(Vec<FieldDecl>),
    Unnamed(Vec<FieldDecl>),
    Unit,
}

/// A declared enum variant.
#[derive(Clone, Debug)]
pub struct VariantDecl {
    pub ident: String,
    pub fields: FieldsDecl,
    pub span: Span,
}

/// What a type declaration holds.
#[derive(Clone, Debug)]
pub enum DataDecl {
    Struct(FieldsDecl),
    Enum(Vec<VariantDecl>),
    Union,
}

/// A type declaration handed to the resolver.
#[derive(Clone, Debug)]
pub struct DeriveInput {
    pub ident: String,
    pub data: DataDecl,
    pub span: Span,
}

/// The kinds of error the resolver reports.
#[derive(Clone, Copy, Debug, PartialEq, Eq, Structural)]
pub enum ErrorKind {
    /// an item under `yrs` other than `ty = ...`
    UnexpectedMeta,
    /// `ty = ...` whose value is not a string literal
    MalformedType,
    /// `ty` given twice for one field
    DuplicateType,
    /// a `yrs` attribute that is not a list
    ExpectedList,
    /// a union declaration
    UnsupportedUnion,
}

/// An error with the location it is attached to.
#[derive(Clone, Copy, Debug, PartialEq, Eq, Structural)]
pub struct Diagnostic {
    pub span: Span,
    pub kind: ErrorKind,
}

impl Diagnostic {
    /// The message shown for this error.
    pub fn message(&self) -> String {
        match self.kind {
            ErrorKind::UnexpectedMeta => "unexpected meta in field attribute".to_string(),
            ErrorKind::MalformedType => "expected a string literal for `ty`".to_string(),
            ErrorKind::DuplicateType => "duplicate attribute `ty`".to_string(),
            ErrorKind::ExpectedList => "expected attribute arguments in parentheses: #[yrs(...)]".to_string(),
            ErrorKind::UnsupportedUnion => "Does not support derive for unions".to_string(),
        }
    }
}

/// Collects the errors of one resolution pass.
pub struct ASTResult {
    pub errors: Vec<Diagnostic>,
}

impl ASTResult {
    pub fn new() -> (r: ASTResult)
        ensures
            r.errors@ == Seq::<Diagnostic>::empty(),
    {
        ASTResult { errors: Vec::new() }
    }

    /// Records an error at `span`.
    pub fn error_spanned_by(&mut self, span: Span, kind: ErrorKind)
        ensures
            final(self).errors@ == old(self).errors@.push(Diagnostic { span, kind }),
    {
        self.errors.push(Diagnostic { span, kind });
    }

    /// Ends the pass: `Ok` when no error was recorded, else all of them.
    pub fn check(self) -> (r: Result<(), Vec<Diagnostic>>)
        ensures
            self.errors@.len() == 0 <==> r is Ok,
            r matches Err(e) ==> e@ == self.errors@,
    {
        if self.errors.len() == 0 {
            Ok(())
        } else {
            Err(self.errors)
        }
    }
}


/// How a container's fields are addressed.
#[derive(Clone, Copy, Debug, PartialEq, Eq, Structural)]
pub enum ASTStyle {
    /// named fields
    Struct,
    /// two or more positional fields
    Tuple,
    /// exactly one positional field
    NewType,
    /// no fields
    Unit,
}

/// The identifier of a field: its name, or its position.
#[derive(Clone, Debug)]
pub enum Member {
    Named(String),
    Unnamed(usize),
}

/// The options that a field's `yrs` attributes set.
pub struct YrsAttribute {
    /// the explicit serialized type tag, from `ty = "..."`
    pub ty: Option<String>,
}

/// A resolved field.
pub struct ASTField {
    pub member: Member,
    pub ty: String,
    pub yrs_attr: YrsAttribute,
    pub span: Span,
}

/// A resolved enum variant.
pub struct ASTEnumVariant {
    pub ident: String,
    pub style: ASTStyle,
    pub fields: Vec<ASTField>,
    pub span: Span,
}

/// The resolved contents of a struct or an enum.
pub enum ASTData {
    Struct(ASTStyle, Vec<ASTField>),
    Enum(Vec<ASTEnumVariant>),
}

/// A resolved container: the type's name and its contents.
pub struct ASTContainer {
    pub ident: String,
    pub data: ASTData,
}

// ---- the model of resolution ----

pub open spec fn ty_key() -> Seq<char> {
    seq!['t', 'y']
}

pub open spec fn yrs_key() -> Seq<char> {
    seq!['y', 'r', 's']
}

pub open spec fn opt_view(o: Option<String>) -> Option<Seq<char>> {
    match o {
        Some(s) => Some(s@),
        None => None,
    }
}

pub open spec fn diag(span: Span, kind: ErrorKind) -> Diagnostic {
    Diagnostic { span, kind }
}

/// One attribute item applied to the type tag found so far: the new tag and the errors.
pub open spec fn item_step(ty: Option<Seq<char>>, m: NestedMeta) -> (Option<Seq<char>>, Seq<Diagnostic>) {
    match m {
        NestedMeta::NameValue { path, lit, span } => {
            if path@ == ty_key() {
                match lit {
                    Lit::Str(s) => {
                        if ty is Some {
                            (ty, seq![diag(span, ErrorKind::DuplicateType)])
                        } else {
                            (Some(s@), Seq::empty())
                        }
                    },
                    Lit::Other => (ty, seq![diag(span, ErrorKind::MalformedType)]),
                }
            } else {
                (ty, seq![diag(span, ErrorKind::UnexpectedMeta)])
            }
        },
        NestedMeta::Other { span } => (ty, seq![diag(span, ErrorKind::UnexpectedMeta)]),
    }
}

/// The items of a list, in order, starting from the tag `ty`.
pub open spec fn items_pass(ty: Option<Seq<char>>, items: Seq<NestedMeta>) -> (Option<Seq<char>>, Seq<Diagnostic>)
    decreases items.len(),
{
    if items.len() == 0 {
        (ty, Seq::empty())
    } else {
        let prev = items_pass(ty, items.drop_last());
        let next = item_step(prev.0, items.last());
        (next.0, prev.1 + next.1)
    }
}

/// One attribute: attributes outside the `yrs` namespace are passed over.
pub open spec fn attr_step(ty: Option<Seq<char>>, a: Attribute) -> (Option<Seq<char>>, Seq<Diagnostic>) {
    if a.path@ == yrs_key() {
        match a.body {
            AttrBody::List(items) => items_pass(ty, items@),
            AttrBody::Other => (ty, seq![diag(a.span, ErrorKind::ExpectedList)]),
        }
    } else {
        (ty, Seq::empty())
    }
}

/// All attributes of a field, in order: the field's type tag and its errors.
pub open spec fn attrs_pass(attrs: Seq<Attribute>) -> (Option<Seq<char>>, Seq<Diagnostic>)
    decreases attrs.len(),
{
    if attrs.len() == 0 {
        (None, Seq::empty())
    } else {
        let prev = attrs_pass(attrs.drop_last());
        let next = attr_step(prev.0, attrs.last());
        (next.0, prev.1 + next.1)
    }
}

/// The errors of a list of fields, field after field.
pub open spec fn fields_errors(decls: Seq<FieldDecl>) -> Seq<Diagnostic>
    decreases decls.len(),
{
    if decls.len() == 0 {
        Seq::empty()
    } else {
        fields_errors(decls.drop_last()) + attrs_pass(decls.last().attrs@).1
    }
}

pub open spec fn decls_of(f: FieldsDecl) -> Seq<FieldDecl> {
    match f {
        FieldsDecl::Named(v) => v@,
        FieldsDecl::Unnamed(v) => v@,
        FieldsDecl::Unit => Seq::empty(),
    }
}

pub open spec fn style_of(f: FieldsDecl) -> ASTStyle {
    match f {
        FieldsDecl::Named(_) => ASTStyle::Struct,
        FieldsDecl::Unnamed(v) => if v@.len() == 1 {
            ASTStyle::NewType
        } else {
            ASTStyle::Tuple
        },
        FieldsDecl::Unit => ASTStyle::Unit,
    }
}

/// The errors of the variants of an enum, variant after variant.
pub open spec fn variants_errors(vs: Seq<VariantDecl>) -> Seq<Diagnostic>
    decreases vs.len(),
{
    if vs.len() == 0 {
        Seq::empty()
    } else {
        variants_errors(vs.drop_last()) + fields_errors(decls_of(vs.last().fields))
    }
}

/// Every error that resolving `ast` reports, in order.
pub open spec fn container_errors(ast: DeriveInput) -> Seq<Diagnostic> {
    match ast.data {
        DataDecl::Struct(f) => fields_errors(decls_of(f)),
        DataDecl::Enum(vs) => variants_errors(vs@),
        DataDecl::Union => seq![diag(ast.span, ErrorKind::UnsupportedUnion)],
    }
}

/// `f` is the resolution of the declared field `d` at position `index`.
pub open spec fn field_matches(f: ASTField, d: FieldDecl, index: int) -> bool {
    &&& match d.ident {
        Some(id) => f.member matches Member::Named(n) && n@ == id@,
        None => f.member matches Member::Unnamed(i) && i == index,
    }
    &&& f.ty@ == d.ty@
    &&& opt_view(f.yrs_attr.ty) == attrs_pass(d.attrs@).0
    &&& f.span == d.span
}

pub open spec fn fields_match(fs: Seq<ASTField>, ds: Seq<FieldDecl>) -> bool {
    &&& fs.len() == ds.len()
    &&& forall|i: int| 0 <= i < ds.len() ==> #[trigger] field_matches(fs[i], ds[i], i)
}

pub open spec fn variant_matches(v: ASTEnumVariant, d: VariantDecl) -> bool {
    &&& v.ident@ == d.ident@
    &&& v.style == style_of(d.fields)
    &&& fields_match(v.fields@, decls_of(d.fields))
    &&& v.span == d.span
}

/// `c` is the resolution of the declaration `ast`.
pub open spec fn container_matches(c: ASTContainer, ast: DeriveInput) -> bool {
    &&& c.ident@ == ast.ident@
    &&& match ast.data {
        DataDecl::Struct(f) => c.data matches ASTData::Struct(style, fs) && style == style_of(f)
            && fields_match(fs@, decls_of(f)),
        DataDecl::Enum(vs) => c.data matches ASTData::Enum(rs) && rs@.len() == vs@.len()
            && forall|i: int| 0 <= i < vs@.len() ==> #[trigger] variant_matches(rs@[i], vs@[i]),
        DataDecl::Union => false,
    }
}

// ---- resolution ----

fn same_chars(a: &str, b: &str) -> (r: bool)
    ensures
        r == (a@ == b@),
{
    let n = a.unicode_len();
    if n != b.unicode_len() {
        return false;
    }
    let mut i: usize = 0;
    while i < n
        invariant
            n == a@.len(),
            n == b@.len(),
            0 <= i <= n,
            forall|k: int| 0 <= k < i ==> a@[k] == b@[k],
        decreases n - i,
    {
        if a.get_char(i) != b.get_char(i) {
            return false;
        }
        i = i + 1;
    }
    assert(a@ =~= b@);
    true
}

fn is_ty_key(s: &str) -> (r: bool)
    ensures
        r == (s@ == ty_key()),
{
    proof {
        reveal_strlit("ty");
    }
    assert("ty"@ =~= ty_key());
    same_chars(s, "ty")
}

fn is_yrs_key(s: &str) -> (r: bool)
    ensures
        r == (s@ == yrs_key()),
{
    proof {
        reveal_strlit("yrs");
    }
    assert("yrs"@ =~= yrs_key());
    same_chars(s, "yrs")
}

fn apply_item(ast_result: &mut ASTResult, ty: &mut Option<String>, m: &NestedMeta)
    ensures
        opt_view(*final(ty)) == item_step(opt_view(*old(ty)), *m).0,
        final(ast_result).errors@ == old(ast_result).errors@ + item_step(opt_view(*old(ty)), *m).1,
{
    match m {
        NestedMeta::NameValue { path, lit, span } => {
            if is_ty_key(path.as_str()) {
                match lit {
                    Lit::Str(s) => {
                        if ty.is_some() {
                            ast_result.error_spanned_by(*span, ErrorKind::DuplicateType);
                        } else {
                            *ty = Some(s.clone());
                        }
                    },
                    Lit::Other => ast_result.error_spanned_by(*span, ErrorKind::MalformedType),
                }
            } else {
                ast_result.error_spanned_by(*span, ErrorKind::UnexpectedMeta);
            }
        },
        NestedMeta::Other { span } => ast_result.error_spanned_by(*span, ErrorKind::UnexpectedMeta),
    }
    assert(final(ast_result).errors@ =~= old(ast_result).errors@ + item_step(opt_view(*old(ty)), *m).1);
}

impl YrsAttribute {
    /// Reads the `yrs` attributes of a field. Every malformed item is reported
    /// to `ast_result`; the first well-formed `ty = "..."` gives the type tag.
    pub fn from_ast(ast_result: &mut ASTResult, field: &FieldDecl) -> (r: YrsAttribute)
        ensures
            opt_view(r.ty) == attrs_pass(field.attrs@).0,
            final(ast_result).errors@ == old(ast_result).errors@ + attrs_pass(field.attrs@).1,
    {
        let mut ty: Option<String> = None;
        let attrs = &field.attrs;
        let mut i: usize = 0;
        while i < attrs.len()
            invariant
                0 <= i <= attrs@.len(),
                opt_view(ty) == attrs_pass(attrs@.take(i as int)).0,
                ast_result.errors@ == old(ast_result).errors@ + attrs_pass(attrs@.take(i as int)).1,
            decreases attrs@.len() - i,
        {
            proof {
                assert(attrs@.take(i + 1).drop_last() =~= attrs@.take(i as int));
            }
            let ghost start = opt_view(ty);
            let ghost errs0 = ast_result.errors@;
            let a = &attrs[i];
            if is_yrs_key(a.path.as_str()) {
                match &a.body {
                    AttrBody::List(items) => {
                        let mut j: usize = 0;
                        while j < items.len()
                            invariant
                                0 <= j <= items@.len(),
                                opt_view(ty) == items_pass(start, items@.take(j as int)).0,
                                ast_result.errors@ == errs0 + items_pass(start, items@.take(j as int)).1,
                            decreases items@.len() - j,
                        {
                            proof {
                                assert(items@.take(j + 1).drop_last() =~= items@.take(j as int));
                            }
                            apply_item(ast_result, &mut ty, &items[j]);
                            j = j + 1;
                            proof {
                                assert(ast_result.errors@ =~= errs0 + items_pass(start, items@.take(j as int)).1);
                            }
                        }
                        assert(items@.take(j as int) =~= items@);
                    },
                    AttrBody::Other => {
                        ast_result.error_spanned_by(a.span, ErrorKind::ExpectedList);
                    },
                }
            }
            i = i + 1;
            proof {
                assert(ast_result.errors@ =~= old(ast_result).errors@ + attrs_pass(attrs@.take(i as int)).1);
            }
        }
        assert(attrs@.take(i as int) =~= attrs@);
        YrsAttribute { ty }
    }
}

impl ASTField {
    /// Resolves the field `field`, at position `index` of its container.
    pub fn new(ast_result: &mut ASTResult, field: &FieldDecl, index: usize) -> (r: Result<ASTField, String>)
        ensures
            r matches Ok(f) && field_matches(f, *field, index as int),
            final(ast_result).errors@ == old(ast_result).errors@ + attrs_pass(field.attrs@).1,
    {
        let member = match &field.ident {
            Some(ident) => Member::Named(ident.clone()),
            None => Member::Unnamed(index),
        };
        let yrs_attr = YrsAttribute::from_ast(ast_result, field);
        Ok(ASTField { member, ty: field.ty.clone(), yrs_attr, span: field.span })
    }
}

fn fields_from_ast(ast_result: &mut ASTResult, fields: &Vec<FieldDecl>) -> (r: Vec<ASTField>)
    ensures
        fields_match(r@, fields@),
        final(ast_result).errors@ == old(ast_result).errors@ + fields_errors(fields@),
{
    let mut out: Vec<ASTField> = Vec::new();
    let mut i: usize = 0;
    while i < fields.len()
        invariant
            0 <= i <= fields@.len(),
            fields_match(out@, fields@.take(i as int)),
            ast_result.errors@ == old(ast_result).errors@ + fields_errors(fields@.take(i as int)),
        decreases fields@.len() - i,
    {
        proof {
            assert(fields@.take(i + 1).drop_last() =~= fields@.take(i as int));
        }
        let r = ASTField::new(ast_result, &fields[i], i);
        if let Ok(f) = r {
            out.push(f);
        }
        i = i + 1;
        proof {
            assert(ast_result.errors@ =~= old(ast_result).errors@ + fields_errors(fields@.take(i as int)));
            assert forall|k: int| 0 <= k < i implies #[trigger] field_matches(out@[k], fields@.take(i as int)[k], k) by {
                if k < i - 1 {
                    assert(field_matches(out@[k], fields@.take(i - 1)[k], k));
                }
            }
        }
    }
    assert(fields@.take(i as int) =~= fields@);
    out
}

fn struct_from_ast(ast_result: &mut ASTResult, fields: &FieldsDecl) -> (r: (ASTStyle, Vec<ASTField>))
    ensures
        r.0 == style_of(*fields),
        fields_match(r.1@, decls_of(*fields)),
        final(ast_result).errors@ == old(ast_result).errors@ + fields_errors(decls_of(*fields)),
{
    match fields {
        FieldsDecl::Named(fs) => (ASTStyle::Struct, fields_from_ast(ast_result, fs)),
        FieldsDecl::Unnamed(fs) => {
            let style = if fs.len() == 1 {
                ASTStyle::NewType
            } else {
                ASTStyle::Tuple
            };
            (style, fields_from_ast(ast_result, fs))
        },
        FieldsDecl::Unit => {
            assert(ast_result.errors@ =~= ast_result.errors@ + fields_errors(Seq::<FieldDecl>::empty()));
            (ASTStyle::Unit, Vec::new())
        },
    }
}

fn enum_from_ast(ast_result: &mut ASTResult, variants: &Vec<VariantDecl>) -> (r: Vec<ASTEnumVariant>)
    ensures
        r@.len() == variants@.len(),
        forall|i: int| 0 <= i < variants@.len() ==> #[trigger] variant_matches(r@[i], variants@[i]),
        final(ast_result).errors@ == old(ast_result).errors@ + variants_errors(variants@),
{
    let mut out: Vec<ASTEnumVariant> = Vec::new();
    let mut i: usize = 0;
    while i < variants.len()
        invariant
            0 <= i <= variants@.len(),
            out@.len() == i,
            forall|k: int| 0 <= k < i ==> #[trigger] variant_matches(out@[k], variants@[k]),
            ast_result.errors@ == old(ast_result).errors@ + variants_errors(variants@.take(i as int)),
        decreases variants@.len() - i,
    {
        proof {
            assert(variants@.take(i + 1).drop_last() =~= variants@.take(i as int));
        }
        let v = &variants[i];
        let (style, fields) = struct_from_ast(ast_result, &v.fields);
        out.push(ASTEnumVariant { ident: v.ident.clone(), style, fields, span: v.span });
        i = i + 1;
        proof {
            assert(ast_result.errors@ =~= old(ast_result).errors@ + variants_errors(variants@.take(i as int)));
        }
    }
    assert(variants@.take(i as int) =~= variants@);
    out
}

impl ASTContainer {
    /// Resolves a struct or enum declaration, reporting every error found to
    /// `ast_result`. The container is produced only when the declaration gave
    /// no error; a union is always refused, with one error at its location.
    pub fn from_ast(ast_result: &mut ASTResult, ast: &DeriveInput) -> (r: Option<ASTContainer>)
        ensures
            r is None <==> container_errors(*ast).len() > 0,
            ast.data is Union ==> r is None,
            r matches Some(c) ==> container_matches(c, *ast),
            final(ast_result).errors@ == old(ast_result).errors@ + container_errors(*ast),
    {
        let before = ast_result.errors.len();
        let data = match &ast.data {
            DataDecl::Struct(fields) => {
                let (style, fields) = struct_from_ast(ast_result, fields);
                ASTData::Struct(style, fields)
            },
            DataDecl::Union => {
                ast_result.error_spanned_by(ast.span, ErrorKind::UnsupportedUnion);
                assert(final(ast_result).errors@ =~= old(ast_result).errors@ + container_errors(*ast));
                return None;
            },
            DataDecl::Enum(variants) => ASTData::Enum(enum_from_ast(ast_result, variants)),
        };
        if ast_result.errors.len() != before {
            return None;
        }
        Some(ASTContainer { ident: ast.ident.clone(), data })
    }
}

/// Resolves `ast` in one pass: the container when no error was found,
/// otherwise every error, each with its location, and no container.
pub fn resolve(ast: &DeriveInput) -> (r: Result<ASTContainer, Vec<Diagnostic>>)
    ensures
        r is Ok <==> container_errors(*ast).len() == 0,
        r matches Ok(c) ==> container_matches(c, *ast),
        r matches Err(e) ==> e@ == container_errors(*ast),
{
    let mut ast_result = ASTResult::new();
    let c = ASTContainer::from_ast(&mut ast_result, ast);
    assert(ast_result.errors@ =~= container_errors(*ast));
    match c {
        None => Err(ast_result.errors),
        Some(c) => Ok(c),
    }
}

/// The fields of a list of variants, variant after variant.
pub open spec fn variant_fields(vs: Seq<ASTEnumVariant>) -> Seq<ASTField>
    decreases vs.len(),
{
    if vs.len() == 0 {
        Seq::empty()
    } else {
        variant_fields(vs.drop_last()) + vs.last().fields@
    }
}

impl ASTData {
    pub open spec fn spec_all_fields(&self) -> Seq<ASTField> {
        match self {
            ASTData::Enum(vs) => variant_fields(vs@),
            ASTData::Struct(_, fs) => fs@,
        }
    }

    /// Every field of the container: a struct's fields, or those of each
    /// variant of an enum, in declaration order.
    pub fn all_fields(&self) -> (r: Vec<&ASTField>)
        ensures
            r@.len() == self.spec_all_fields().len(),
            forall|i: int| 0 <= i < r@.len() ==> *r@[i] == self.spec_all_fields()[i],
    {
        let mut out: Vec<&ASTField> = Vec::new();
        match self {
            ASTData::Enum(variants) => {
                let mut i: usize = 0;
                while i < variants.len()
                    invariant
                        0 <= i <= variants@.len(),
                        out@.len() == variant_fields(variants@.take(i as int)).len(),
                        forall|k: int| 0 <= k < out@.len() ==> *out@[k] == variant_fields(variants@.take(i as int))[k],
                    decreases variants@.len() - i,
                {
                    proof {
                        assert(variants@.take(i + 1).drop_last() =~= variants@.take(i as int));
                    }
                    let fields = &variants[i].fields;
                    let ghost base = out@;
                    let ghost prev = variant_fields(variants@.take(i as int));
                    let mut j: usize = 0;
                    while j < fields.len()
                        invariant
                            0 <= j <= fields@.len(),
                            out@.len() == base.len() + j,
                            forall|k: int| 0 <= k < base.len() ==> out@[k] == base[k],
                            forall|k: int| 0 <= k < j ==> *out@[base.len() + k] == fields@[k],
                        decreases fields@.len() - j,
                    {
                        out.push(&fields[j]);
                        j = j + 1;
                    }
                    proof {
                        let vf = variant_fields(variants@.take(i + 1));
                        assert(variants@.take(i + 1).last() == variants@[i as int]);
                        assert(vf == variant_fields(variants@.take(i as int)) + fields@);
                        assert forall|k: int| 0 <= k < out@.len() implies *out@[k] == vf[k] by {
                            if k >= base.len() {
                                assert(*out@[base.len() + (k - base.len())] == fields@[k - base.len()]);
                            } else {
                                assert(*base[k] == prev[k]);
                            }
                        }
                    }
                    i = i + 1;
                }
                assert(variants@.take(i as int) =~= variants@);
            },
            ASTData::Struct(_, fields) => {
                let mut j: usize = 0;
                while j < fields.len()
                    invariant
                        0 <= j <= fields@.len(),
                        out@.len() == j,
                        forall|k: int| 0 <= k < j ==> *out@[k] == fields@[k],
                    decreases fields@.len() - j,
                {
                    out.push(&fields[j]);
                    j = j + 1;
                }
            },
        }
        out
    }
}

/// The number of errors a field reports.
pub open spec fn field_error_count(d: FieldDecl) -> nat {
    attrs_pass(d.attrs@).1.len()
}

/// The errors counted field by field.
pub open spec fn sum_field_errors(decls: Seq<FieldDecl>) -> nat
    decreases decls.len(),
{
    if decls.len() == 0 {
        0
    } else {
        sum_field_errors(decls.drop_last()) + field_error_count(decls.last())
    }
}

/// Resolving a struct does not stop at the first bad field: it reports as
/// many errors as all its fields report together, and when any field reports
/// one, no container is produced.
pub proof fn lemma_struct_errors_aggregate(ast: DeriveInput)
    requires
        ast.data is Struct,
    ensures
        container_errors(ast).len() == sum_field_errors(decls_of(ast.data->Struct_0)),
        sum_field_errors(decls_of(ast.data->Struct_0)) > 0 ==> container_errors(ast).len() > 0,
{
    lemma_fields_errors_len(decls_of(ast.data->Struct_0));
}

proof fn lemma_fields_errors_len(decls: Seq<FieldDecl>)
    ensures
        fields_errors(decls).len() == sum_field_errors(decls),
    decreases decls.len(),
{
    if decls.len() > 0 {
        lemma_fields_errors_len(decls.drop_last());
    }
}

} // verus!
