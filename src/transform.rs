use crate::attr::Attr;
use crate::context::{
    attrs_view, companion_name, derive_attrs_of, getter_of, has_flag, visibility_of, Context,
};
use crate::naming::{snake, to_snake_case};
use crate::source::{case_names, strings_view, Case, Shape, SourceAttr, SourceEnum, SourceView, Vis, VisView};
use vstd::prelude::*;

verus! {

/// Everything generated for one source enum.
///
/// The generated enum is named `companion`, has visibility `vis`, carries the
/// derive attributes `derives` and has the payload-free cases `cases`. The
/// getter method `getter` is added to the source enum; it has one match arm
/// per entry of `arms`, which maps the source case of that name and shape to
/// the generated case of the same name. The optional parts are the texts of
/// the `Display` impls and the list that `as_vec` returns.
#[derive(Debug)]
pub struct Generated {
    pub getter: String,
    pub companion: String,
    pub vis: Vis,
    pub derives: Vec<SourceAttr>,
    pub cases: Vec<String>,
    pub arms: Vec<Case>,
    /// Per generated case, the text `Source::Case` (`display`).
    pub display: Option<Vec<String>>,
    /// Per generated case, its name, or its name in snake case
    /// (`display_variant`, `display_variant_snake`).
    pub display_variant: Option<Vec<String>>,
    /// The source cases that display as their single unnamed field
    /// (`display_from_value`).
    pub display_from_value: Option<Vec<String>>,
    /// The generated cases that `as_vec` lists, in order (`iterator`).
    pub as_vec: Option<Vec<String>>,
}

/// What a generated unit stands for.
pub struct GeneratedView {
    pub getter: Seq<char>,
    pub companion: Seq<char>,
    pub vis: VisView,
    pub derives: Seq<(Seq<char>, Seq<Seq<char>>)>,
    pub cases: Seq<Seq<char>>,
    pub arms: Seq<(Seq<char>, Shape)>,
    pub display: Option<Seq<Seq<char>>>,
    pub display_variant: Option<Seq<Seq<char>>>,
    pub display_from_value: Option<Seq<Seq<char>>>,
    pub as_vec: Option<Seq<Seq<char>>>,
}

/// The views of an optional list of strings.
pub open spec fn opt_view(o: Option<Vec<String>>) -> Option<Seq<Seq<char>>> {
    match o {
        Some(v) => Some(strings_view(v@)),
        None => None,
    }
}

impl View for Generated {
    type V = GeneratedView;

    open spec fn view(&self) -> GeneratedView {
        GeneratedView {
            getter: self.getter@,
            companion: self.companion@,
            vis: self.vis@,
            derives: attrs_view(self.derives@),
            cases: strings_view(self.cases@),
            arms: self.arms@.map_values(|c: Case| c@),
            display: opt_view(self.display),
            display_variant: opt_view(self.display_variant),
            display_from_value: opt_view(self.display_from_value),
            as_vec: opt_view(self.as_vec),
        }
    }
}

/// The text `Source::Case`.
pub open spec fn qualified(src: Seq<char>, case: Seq<char>) -> Seq<char> {
    src + "::"@ + case
}

/// Texts of the `display` impl, if asked for.
pub open spec fn display_texts(attrs: Seq<Attr>, src: SourceView) -> Option<Seq<Seq<char>>> {
    if has_flag(attrs, Attr::Display) {
        Some(case_names(src.cases).map_values(|n: Seq<char>| qualified(src.name, n)))
    } else {
        None
    }
}

/// Texts of the bare-name `Display` impl, if asked for; `display_variant`
/// wins over `display_variant_snake`.
pub open spec fn variant_texts(attrs: Seq<Attr>, src: SourceView) -> Option<Seq<Seq<char>>> {
    if has_flag(attrs, Attr::DisplayVariant) {
        Some(case_names(src.cases))
    } else if has_flag(attrs, Attr::DisplayVariantSnake) {
        Some(case_names(src.cases).map_values(|n: Seq<char>| snake(n)))
    } else {
        None
    }
}

/// What is generated for a source enum under the given directives.
pub open spec fn generate(attrs: Seq<Attr>, src: SourceView) -> GeneratedView {
    GeneratedView {
        getter: getter_of(attrs),
        companion: companion_name(attrs, src.name),
        vis: visibility_of(attrs, src.vis),
        derives: derive_attrs_of(attrs, src.attrs),
        cases: case_names(src.cases),
        arms: src.cases,
        display: display_texts(attrs, src),
        display_variant: variant_texts(attrs, src),
        display_from_value: if has_flag(attrs, Attr::DisplayFromValue) {
            Some(case_names(src.cases))
        } else {
            None
        },
        as_vec: if has_flag(attrs, Attr::Iterator) {
            Some(case_names(src.cases))
        } else {
            None
        },
    }
}

/// The names of the source enum's cases.
fn case_name_list(input: &SourceEnum) -> (r: Vec<String>)
    ensures
        strings_view(r@) == case_names(input@.cases),
{
    let mut out: Vec<String> = Vec::new();
    let mut i: usize = 0;
    while i < input.cases.len()
        invariant
            i <= input.cases@.len(),
            out@.len() == i,
            forall|j: int| 0 <= j < i ==> out@[j]@ == input.cases@[j].name@,
        decreases input.cases@.len() - i,
    {
        out.push(input.cases[i].name.clone());
        i = i + 1;
    }
    assert(strings_view(out@) =~= case_names(input@.cases));
    out
}

/// The getter's match arm for one case: the case's name and shape, which
/// decide the pattern (`A`, `A(..)`, `A { .. }`).
pub fn get_arm(variant: &Case) -> (r: Case)
    ensures
        r@ == variant@,
{
    let shape = match variant.shape {
        Shape::Unit => Shape::Unit,
        Shape::Positional => Shape::Positional,
        Shape::Named => Shape::Named,
    };
    Case { name: variant.name.clone(), shape }
}

/// The getter's match arms, one per source case, in order.
fn get_arms(input: &SourceEnum) -> (r: Vec<Case>)
    ensures
        r@.map_values(|c: Case| c@) == input@.cases,
{
    let mut out: Vec<Case> = Vec::new();
    let mut i: usize = 0;
    while i < input.cases.len()
        invariant
            i <= input.cases@.len(),
            out@.len() == i,
            forall|j: int| 0 <= j < i ==> out@[j]@ == input.cases@[j]@,
        decreases input.cases@.len() - i,
    {
        out.push(get_arm(&input.cases[i]));
        i = i + 1;
    }
    assert(out@.map_values(|c: Case| c@) =~= input@.cases);
    out
}

/// Texts of the `display` impl: `Source::Case` for each case.
pub fn get_display_impl(cx: &Context, input: &SourceEnum) -> (r: Option<Vec<String>>)
    ensures
        opt_view(r) == display_texts(cx.attrs@, input@),
{
    if !cx.display_required() {
        return None;
    }
    let mut out: Vec<String> = Vec::new();
    let mut i: usize = 0;
    while i < input.cases.len()
        invariant
            i <= input.cases@.len(),
            out@.len() == i,
            forall|j: int| 0 <= j < i ==> out@[j]@ == qualified(input.name@, input.cases@[j].name@),
        decreases input.cases@.len() - i,
    {
        let mut text = input.name.clone();
        text.append("::");
        text.append(input.cases[i].name.as_str());
        out.push(text);
        i = i + 1;
    }
    assert(strings_view(out@) =~= case_names(input@.cases).map_values(
        |n: Seq<char>| qualified(input@.name, n),
    ));
    Some(out)
}

/// Texts of the bare-name `Display` impl: each case's name, or under
/// `display_variant_snake` alone its name in snake case.
pub fn get_display_variant_impl(cx: &Context, input: &SourceEnum) -> (r: Option<Vec<String>>)
    ensures
        opt_view(r) == variant_texts(cx.attrs@, input@),
{
    if cx.display_variant() {
        return Some(case_name_list(input));
    }
    if !cx.display_variant_snake() {
        return None;
    }
    let mut out: Vec<String> = Vec::new();
    let mut i: usize = 0;
    while i < input.cases.len()
        invariant
            i <= input.cases@.len(),
            out@.len() == i,
            forall|j: int| 0 <= j < i ==> out@[j]@ == snake(input.cases@[j].name@),
        decreases input.cases@.len() - i,
    {
        out.push(to_snake_case(input.cases[i].name.as_str()));
        i = i + 1;
    }
    assert(strings_view(out@) =~= case_names(input@.cases).map_values(|n: Seq<char>| snake(n)));
    Some(out)
}

/// The source cases of the `display_from_value` impl on the source enum.
pub fn get_display_from_value_required(cx: &Context, input: &SourceEnum) -> (r: Option<Vec<String>>)
    ensures
        r is Some <==> has_flag(cx.attrs@, Attr::DisplayFromValue),
        r matches Some(v) ==> strings_view(v@) == case_names(input@.cases),
{
    if cx.display_from_value_required() {
        Some(case_name_list(input))
    } else {
        None
    }
}

/// The generated cases that `as_vec` lists, under `iterator`.
pub fn get_iterator(cx: &Context, input: &SourceEnum) -> (r: Option<Vec<String>>)
    ensures
        r is Some <==> has_flag(cx.attrs@, Attr::Iterator),
        r matches Some(v) ==> strings_view(v@) == case_names(input@.cases),
{
    if cx.iterator() {
        Some(case_name_list(input))
    } else {
        None
    }
}

/// Everything generated for `input` under the directives of `context`.
pub fn enum_ids(context: &Context, input: &SourceEnum) -> (r: Generated)
    ensures
        r@ == generate(context.attrs@, input@),
{
    let r = Generated {
        getter: context.getter_name(),
        companion: context.enum_name(input.name.as_str()),
        vis: context.visibility(&input.vis),
        derives: context.derive(&input.attrs),
        cases: case_name_list(input),
        arms: get_arms(input),
        display: get_display_impl(context, input),
        display_variant: get_display_variant_impl(context, input),
        display_from_value: get_display_from_value_required(context, input),
        as_vec: get_iterator(context, input),
    };
    assert(r@.derives == generate(context.attrs@, input@).derives);
    r
}

} // verus!
