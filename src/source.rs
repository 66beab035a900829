use vstd::prelude::*;

verus! {

/// Declared visibility of an item.
#[derive(Debug)]
pub enum Vis {
    /// `pub`
    Public,
    /// no visibility keyword
    Private,
    /// `pub(...)`, with what stands between the parentheses (`crate`,
    /// `super`, `in some::path`)
    Restricted(String),
}

/// The shape of a case's payload.
#[derive(Clone, Copy, Debug, PartialEq, Eq)]
pub enum Shape {
    /// No payload: `A`.
    Unit,
    /// Unnamed fields: `A(x, y)`.
    Positional,
    /// Named fields: `A { x: T }`.
    Named,
}

/// One case of the source enum.
#[derive(Debug)]
pub struct Case {
    pub name: String,
    pub shape: Shape,
}

/// An outer attribute of the source enum: its path (`derive`, `doc`,
/// `serde`, ...) and, for a derive, the trait paths that it lists.
#[derive(Debug)]
pub struct SourceAttr {
    pub path: String,
    pub args: Vec<String>,
}

/// The source enum, as far as the generated code depends on it.
#[derive(Debug)]
pub struct SourceEnum {
    pub name: String,
    pub vis: Vis,
    pub attrs: Vec<SourceAttr>,
    pub cases: Vec<Case>,
}

/// What a visibility stands for.
pub enum VisView {
    Public,
    Private,
    Restricted(Seq<char>),
}

impl View for Vis {
    type V = VisView;

    open spec fn view(&self) -> VisView {
        match self {
            Vis::Public => VisView::Public,
            Vis::Private => VisView::Private,
            Vis::Restricted(s) => VisView::Restricted(s@),
        }
    }
}

impl View for SourceAttr {
    type V = (Seq<char>, Seq<Seq<char>>);

    open spec fn view(&self) -> (Seq<char>, Seq<Seq<char>>) {
        (self.path@, strings_view(self.args@))
    }
}

impl View for Case {
    type V = (Seq<char>, Shape);

    open spec fn view(&self) -> (Seq<char>, Shape) {
        (self.name@, self.shape)
    }
}

/// What a source enum stands for.
pub struct SourceView {
    pub name: Seq<char>,
    pub vis: VisView,
    pub attrs: Seq<(Seq<char>, Seq<Seq<char>>)>,
    pub cases: Seq<(Seq<char>, Shape)>,
}

impl View for SourceEnum {
    type V = SourceView;

    open spec fn view(&self) -> SourceView {
        SourceView {
            name: self.name@,
            vis: self.vis@,
            attrs: self.attrs@.map_values(|a: SourceAttr| a@),
            cases: self.cases@.map_values(|c: Case| c@),
        }
    }
}

/// The names of a list of cases, in order.
pub open spec fn case_names(cases: Seq<(Seq<char>, Shape)>) -> Seq<Seq<char>> {
    cases.map_values(|c: (Seq<char>, Shape)| c.0)
}

/// The characters of each string of a sequence.
pub open spec fn strings_view(s: Seq<String>) -> Seq<Seq<char>> {
    s.map_values(|x: String| x@)
}

/// A copy of a list of strings.
pub fn copy_strings(v: &Vec<String>) -> (r: Vec<String>)
    ensures
        strings_view(r@) == strings_view(v@),
{
    let mut out: Vec<String> = Vec::new();
    let mut i: usize = 0;
    while i < v.len()
        invariant
            i <= v@.len(),
            out@.len() == i,
            forall|j: int| 0 <= j < i ==> out@[j]@ == v@[j]@,
        decreases v.len() - i,
    {
        out.push(v[i].clone());
        i = i + 1;
    }
    assert(strings_view(out@) =~= strings_view(v@));
    out
}

impl Vis {
    /// A copy of this visibility.
    pub fn copy(&self) -> (r: Vis)
        ensures
            r@ == self@,
    {
        match self {
            Vis::Public => Vis::Public,
            Vis::Private => Vis::Private,
            Vis::Restricted(s) => Vis::Restricted(s.clone()),
        }
    }
}

impl SourceAttr {
    /// A copy of this attribute.
    pub fn copy(&self) -> (r: SourceAttr)
        ensures
            r@ == self@,
    {
        SourceAttr { path: self.path.clone(), args: copy_strings(&self.args) }
    }
}

} // verus!
