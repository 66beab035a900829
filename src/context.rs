use crate::attr::{carries_value, is_known_key, key_of, str_eq, value_of, Attr, DirectiveError, Expected};
use crate::naming::{list_items, split_list};
use crate::source::{SourceAttr, Vis, VisView};
use vstd::prelude::*;

verus! {

/// The directives attached to one source enum, in the order written.
/// Repeats are kept; where two directives of one kind disagree the first
/// one counts.
#[derive(Debug)]
pub struct Context {
    pub attrs: Vec<Attr>,
}

/// Whether the directive list holds a directive of the given flag kind.
pub open spec fn has_flag(attrs: Seq<Attr>, flag: Attr) -> bool {
    exists|i: int| 0 <= i < attrs.len() && #[trigger] attrs[i] == flag
}

/// The value of the first `name = ".."` directive, if any.
pub open spec fn first_enum_name(attrs: Seq<Attr>) -> Option<Seq<char>>
    decreases attrs.len(),
{
    if attrs.len() == 0 {
        None
    } else if attrs[0] is EnumName {
        Some(value_of(attrs[0]))
    } else {
        first_enum_name(attrs.drop_first())
    }
}

/// The value of the first `getter = ".."` directive, if any.
pub open spec fn first_getter(attrs: Seq<Attr>) -> Option<Seq<char>>
    decreases attrs.len(),
{
    if attrs.len() == 0 {
        None
    } else if attrs[0] is Getter {
        Some(value_of(attrs[0]))
    } else {
        first_getter(attrs.drop_first())
    }
}

/// The value of the first `derive = ".."` directive, if any.
pub open spec fn first_derive(attrs: Seq<Attr>) -> Option<Seq<char>>
    decreases attrs.len(),
{
    if attrs.len() == 0 {
        None
    } else if attrs[0] is Derive {
        Some(value_of(attrs[0]))
    } else {
        first_derive(attrs.drop_first())
    }
}

/// Name of the generated enum: the `name` override, else the source name
/// followed by `Id`.
pub open spec fn companion_name(attrs: Seq<Attr>, src: Seq<char>) -> Seq<char> {
    match first_enum_name(attrs) {
        Some(n) => n,
        None => src + "Id"@,
    }
}

/// Name of the getter method: the `getter` override, else `id`.
pub open spec fn getter_of(attrs: Seq<Attr>) -> Seq<char> {
    match first_getter(attrs) {
        Some(n) => n,
        None => "id"@,
    }
}

/// Visibility of the generated enum: `public` wins, then `not_public`, else
/// the source's own.
pub open spec fn visibility_of(attrs: Seq<Attr>, src: VisView) -> VisView {
    if has_flag(attrs, Attr::Public) {
        VisView::Public
    } else if has_flag(attrs, Attr::NotPublic) {
        VisView::Private
    } else {
        src
    }
}

/// The source attributes that are derives, in order.
pub open spec fn derives_of(attrs: Seq<(Seq<char>, Seq<Seq<char>>)>) -> Seq<(Seq<char>, Seq<Seq<char>>)>
    decreases attrs.len(),
{
    if attrs.len() == 0 {
        Seq::empty()
    } else {
        let prev = derives_of(attrs.drop_last());
        if attrs.last().0 == "derive"@ {
            prev.push(attrs.last())
        } else {
            prev
        }
    }
}

/// Derive attributes of the generated enum: none under `no_derive`; else one
/// listing the traits of the first `derive` override; else the source's own
/// derives.
pub open spec fn derive_attrs_of(
    attrs: Seq<Attr>,
    src: Seq<(Seq<char>, Seq<Seq<char>>)>,
) -> Seq<(Seq<char>, Seq<Seq<char>>)> {
    if has_flag(attrs, Attr::NoDerive) {
        Seq::empty()
    } else {
        match first_derive(attrs) {
            Some(list) => seq![("derive"@, list_items(list))],
            None => derives_of(src),
        }
    }
}

/// The views of a list of source attributes.
pub open spec fn attrs_view(s: Seq<SourceAttr>) -> Seq<(Seq<char>, Seq<Seq<char>>)> {
    s.map_values(|a: SourceAttr| a@)
}

/// One entry of a directive list, as far as its form goes.
#[derive(Debug)]
pub enum Entry {
    /// A bare path: its identifier where the path is one identifier.
    Flag(Option<String>),
    /// `left = right`: the key where the left side is one identifier, and the
    /// value where the right side is a string literal.
    Assign(Option<String>, Option<String>),
    /// Any other expression.
    Other,
}

/// Whether `k` is the key of a directive that carries a value.
pub open spec fn is_value_key(k: Seq<char>) -> bool {
    k == "derive"@ || k == "getter"@ || k == "name"@
}

/// Whether an entry is a well-formed directive.
pub open spec fn entry_ok(e: Entry) -> bool {
    match e {
        Entry::Flag(Some(k)) => is_known_key(k@) && !is_value_key(k@),
        Entry::Assign(Some(k), Some(_)) => is_value_key(k@),
        _ => false,
    }
}

/// Whether `a` is the directive that a well-formed entry `e` denotes.
pub open spec fn entry_gives(e: Entry, a: Attr) -> bool {
    match e {
        Entry::Flag(Some(k)) => key_of(a) == k@ && !carries_value(a),
        Entry::Assign(Some(k), Some(v)) => key_of(a) == k@ && carries_value(a) && value_of(a) == v@,
        _ => false,
    }
}

/// The error for a key that is unknown or written in the wrong form.
pub open spec fn key_error(k: Seq<char>, err: DirectiveError) -> bool {
    if is_known_key(k) {
        err matches DirectiveError::WrongLevel(s) && s@ == k
    } else {
        err matches DirectiveError::UnknownDirective(s) && s@ == k
    }
}

/// Whether `err` is the error reported for an entry that is not well formed.
pub open spec fn entry_error(e: Entry, err: DirectiveError) -> bool {
    match e {
        Entry::Flag(None) => err == DirectiveError::MalformedEntry(Expected::Identifier),
        Entry::Flag(Some(k)) => key_error(k@, err),
        Entry::Assign(Some(k), Some(_)) => key_error(k@, err),
        Entry::Assign(_, _) => err == DirectiveError::MalformedEntry(Expected::KeyValue),
        Entry::Other => err == DirectiveError::MalformedEntry(Expected::KeyOrKeyValue),
    }
}

/// Directive keys are distinct, so a key tells whether its directive carries
/// a value.
proof fn lemma_value_key(a: Attr)
    ensures
        is_value_key(key_of(a)) <==> carries_value(a),
{
    reveal_strlit("derive");
    reveal_strlit("getter");
    reveal_strlit("name");
    reveal_strlit("display");
    reveal_strlit("display_variant");
    reveal_strlit("display_variant_snake");
    reveal_strlit("display_from_value");
    reveal_strlit("no_derive");
    reveal_strlit("not_public");
    reveal_strlit("public");
    reveal_strlit("iterator");
    assert("derive"@.len() == 6 && "getter"@.len() == 6 && "name"@.len() == 4);
    assert("derive"@[0] == 'd' && "getter"@[0] == 'g' && "public"@[0] == 'p');
}

/// Reads one entry of a directive list.
pub fn parse_entry(e: &Entry) -> (r: Result<Attr, DirectiveError>)
    ensures
        r is Ok <==> entry_ok(*e),
        r matches Ok(a) ==> entry_gives(*e, a),
        r matches Err(err) ==> entry_error(*e, err),
{
    match e {
        Entry::Flag(Some(k)) => {
            let a = Attr::try_from(k.as_str())?;
            proof {
                lemma_value_key(a);
            }
            match a {
                Attr::Derive(_) | Attr::Getter(_) | Attr::EnumName(_) => Err(
                    DirectiveError::WrongLevel(k.clone()),
                ),
                _ => Ok(a),
            }
        },
        Entry::Assign(Some(k), Some(v)) => {
            let a = Attr::try_from(k.as_str())?;
            proof {
                lemma_value_key(a);
            }
            match a {
                Attr::Derive(_) => Ok(Attr::Derive(v.clone())),
                Attr::Getter(_) => Ok(Attr::Getter(v.clone())),
                Attr::EnumName(_) => Ok(Attr::EnumName(v.clone())),
                _ => Err(DirectiveError::WrongLevel(k.clone())),
            }
        },
        Entry::Flag(None) => Err(DirectiveError::MalformedEntry(Expected::Identifier)),
        Entry::Assign(_, _) => Err(DirectiveError::MalformedEntry(Expected::KeyValue)),
        Entry::Other => Err(DirectiveError::MalformedEntry(Expected::KeyOrKeyValue)),
    }
}

impl Context {
    /// A context over the given directives.
    pub fn new(attrs: Vec<Attr>) -> (r: Self)
        ensures
            r.attrs@ == attrs@,
    {
        Self { attrs }
    }

    /// Reads a directive list. Fails on the first entry that is not a
    /// well-formed directive, with its position and the error.
    pub fn parse(entries: &Vec<Entry>) -> (r: Result<Context, (usize, DirectiveError)>)
        ensures
            r is Ok <==> forall|i: int| 0 <= i < entries@.len() ==> entry_ok(#[trigger] entries@[i]),
            r matches Ok(c) ==> c.attrs@.len() == entries@.len() && forall|i: int|
                0 <= i < entries@.len() ==> entry_gives(#[trigger] entries@[i], c.attrs@[i]),
            r matches Err(f) ==> f.0 < entries@.len() && !entry_ok(entries@[f.0 as int])
                && entry_error(entries@[f.0 as int], f.1) && forall|i: int|
                0 <= i < f.0 ==> entry_ok(#[trigger] entries@[i]),
    {
        let mut attrs: Vec<Attr> = Vec::new();
        let mut i: usize = 0;
        while i < entries.len()
            invariant
                i <= entries@.len(),
                attrs@.len() == i,
                forall|j: int| 0 <= j < i ==> entry_ok(#[trigger] entries@[j]),
                forall|j: int| 0 <= j < i ==> entry_gives(#[trigger] entries@[j], attrs@[j]),
            decreases entries@.len() - i,
        {
            match parse_entry(&entries[i]) {
                Ok(a) => attrs.push(a),
                Err(e) => {
                    return Err((i, e));
                },
            }
            i = i + 1;
        }
        Ok(Context::new(attrs))
    }

    /// Whether `display` was given: the generated enum displays as
    /// `Source::Case`.
    pub fn display_required(&self) -> (r: bool)
        ensures
            r == has_flag(self.attrs@, Attr::Display),
    {
        let mut i: usize = 0;
        while i < self.attrs.len()
            invariant
                i <= self.attrs@.len(),
                forall|j: int| 0 <= j < i ==> self.attrs@[j] != Attr::Display,
            decreases self.attrs@.len() - i,
        {
            if let Attr::Display = &self.attrs[i] {
                return true;
            }
            i = i + 1;
        }
        false
    }

    /// Whether `display_variant` was given: the generated enum displays as
    /// the bare case name.
    pub fn display_variant(&self) -> (r: bool)
        ensures
            r == has_flag(self.attrs@, Attr::DisplayVariant),
    {
        let mut i: usize = 0;
        while i < self.attrs.len()
            invariant
                i <= self.attrs@.len(),
                forall|j: int| 0 <= j < i ==> self.attrs@[j] != Attr::DisplayVariant,
            decreases self.attrs@.len() - i,
        {
            if let Attr::DisplayVariant = &self.attrs[i] {
                return true;
            }
            i = i + 1;
        }
        false
    }

    /// Whether `display_variant_snake` was given: the generated enum displays
    /// as the case name in snake case.
    pub fn display_variant_snake(&self) -> (r: bool)
        ensures
            r == has_flag(self.attrs@, Attr::DisplayVariantSnake),
    {
        let mut i: usize = 0;
        while i < self.attrs.len()
            invariant
                i <= self.attrs@.len(),
                forall|j: int| 0 <= j < i ==> self.attrs@[j] != Attr::DisplayVariantSnake,
            decreases self.attrs@.len() - i,
        {
            if let Attr::DisplayVariantSnake = &self.attrs[i] {
                return true;
            }
            i = i + 1;
        }
        false
    }

    /// Whether `display_from_value` was given: the source enum displays as the
    /// value of its single unnamed field.
    pub fn display_from_value_required(&self) -> (r: bool)
        ensures
            r == has_flag(self.attrs@, Attr::DisplayFromValue),
    {
        let mut i: usize = 0;
        while i < self.attrs.len()
            invariant
                i <= self.attrs@.len(),
                forall|j: int| 0 <= j < i ==> self.attrs@[j] != Attr::DisplayFromValue,
            decreases self.attrs@.len() - i,
        {
            if let Attr::DisplayFromValue = &self.attrs[i] {
                return true;
            }
            i = i + 1;
        }
        false
    }

    /// Whether `iterator` was given: the generated enum lists its cases.
    pub fn iterator(&self) -> (r: bool)
        ensures
            r == has_flag(self.attrs@, Attr::Iterator),
    {
        let mut i: usize = 0;
        while i < self.attrs.len()
            invariant
                i <= self.attrs@.len(),
                forall|j: int| 0 <= j < i ==> self.attrs@[j] != Attr::Iterator,
            decreases self.attrs@.len() - i,
        {
            if let Attr::Iterator = &self.attrs[i] {
                return true;
            }
            i = i + 1;
        }
        false
    }

    /// Whether `public` was given.
    fn has_public(&self) -> (r: bool)
        ensures
            r == has_flag(self.attrs@, Attr::Public),
    {
        let mut i: usize = 0;
        while i < self.attrs.len()
            invariant
                i <= self.attrs@.len(),
                forall|j: int| 0 <= j < i ==> self.attrs@[j] != Attr::Public,
            decreases self.attrs@.len() - i,
        {
            if let Attr::Public = &self.attrs[i] {
                return true;
            }
            i = i + 1;
        }
        false
    }

    /// Whether `not_public` was given.
    fn has_not_public(&self) -> (r: bool)
        ensures
            r == has_flag(self.attrs@, Attr::NotPublic),
    {
        let mut i: usize = 0;
        while i < self.attrs.len()
            invariant
                i <= self.attrs@.len(),
                forall|j: int| 0 <= j < i ==> self.attrs@[j] != Attr::NotPublic,
            decreases self.attrs@.len() - i,
        {
            if let Attr::NotPublic = &self.attrs[i] {
                return true;
            }
            i = i + 1;
        }
        false
    }

    /// Whether `no_derive` was given.
    fn has_no_derive(&self) -> (r: bool)
        ensures
            r == has_flag(self.attrs@, Attr::NoDerive),
    {
        let mut i: usize = 0;
        while i < self.attrs.len()
            invariant
                i <= self.attrs@.len(),
                forall|j: int| 0 <= j < i ==> self.attrs@[j] != Attr::NoDerive,
            decreases self.attrs@.len() - i,
        {
            if let Attr::NoDerive = &self.attrs[i] {
                return true;
            }
            i = i + 1;
        }
        false
    }

    /// The value of the first `name` directive, if any.
    fn find_enum_name(&self) -> (r: Option<&String>)
        ensures
            r matches Some(s) ==> first_enum_name(self.attrs@) == Some(s@),
            r is None ==> first_enum_name(self.attrs@) is None,
    {
        let mut i: usize = 0;
        assert(self.attrs@.subrange(0, self.attrs@.len() as int) =~= self.attrs@);
        while i < self.attrs.len()
            invariant
                i <= self.attrs@.len(),
                first_enum_name(self.attrs@) == first_enum_name(self.attrs@.subrange(i as int, self.attrs@.len() as int)),
            decreases self.attrs@.len() - i,
        {
            assert(self.attrs@.subrange(i as int, self.attrs@.len() as int).drop_first()
                =~= self.attrs@.subrange(i + 1, self.attrs@.len() as int));
            if let Attr::EnumName(s) = &self.attrs[i] {
                return Some(s);
            }
            i = i + 1;
        }
        None
    }

    /// The value of the first `getter` directive, if any.
    fn find_getter(&self) -> (r: Option<&String>)
        ensures
            r matches Some(s) ==> first_getter(self.attrs@) == Some(s@),
            r is None ==> first_getter(self.attrs@) is None,
    {
        let mut i: usize = 0;
        assert(self.attrs@.subrange(0, self.attrs@.len() as int) =~= self.attrs@);
        while i < self.attrs.len()
            invariant
                i <= self.attrs@.len(),
                first_getter(self.attrs@) == first_getter(self.attrs@.subrange(i as int, self.attrs@.len() as int)),
            decreases self.attrs@.len() - i,
        {
            assert(self.attrs@.subrange(i as int, self.attrs@.len() as int).drop_first()
                =~= self.attrs@.subrange(i + 1, self.attrs@.len() as int));
            if let Attr::Getter(s) = &self.attrs[i] {
                return Some(s);
            }
            i = i + 1;
        }
        None
    }

    /// The value of the first `derive` directive, if any.
    fn find_derive(&self) -> (r: Option<&String>)
        ensures
            r matches Some(s) ==> first_derive(self.attrs@) == Some(s@),
            r is None ==> first_derive(self.attrs@) is None,
    {
        let mut i: usize = 0;
        assert(self.attrs@.subrange(0, self.attrs@.len() as int) =~= self.attrs@);
        while i < self.attrs.len()
            invariant
                i <= self.attrs@.len(),
                first_derive(self.attrs@) == first_derive(self.attrs@.subrange(i as int, self.attrs@.len() as int)),
            decreases self.attrs@.len() - i,
        {
            assert(self.attrs@.subrange(i as int, self.attrs@.len() as int).drop_first()
                =~= self.attrs@.subrange(i + 1, self.attrs@.len() as int));
            if let Attr::Derive(s) = &self.attrs[i] {
                return Some(s);
            }
            i = i + 1;
        }
        None
    }

    /// Name of the generated enum for a source enum named `src`.
    pub fn enum_name(&self, src: &str) -> (r: String)
        ensures
            r@ == companion_name(self.attrs@, src@),
    {
        match self.find_enum_name() {
            Some(n) => n.clone(),
            None => {
                let mut name = String::from_str(src);
                name.append("Id");
                name
            },
        }
    }

    /// Name of the getter method that maps the source enum to the generated one.
    pub fn getter_name(&self) -> (r: String)
        ensures
            r@ == getter_of(self.attrs@),
    {
        match self.find_getter() {
            Some(n) => n.clone(),
            None => String::from_str("id"),
        }
    }

    /// Visibility of the generated enum, for a source enum declared with `vis`.
    pub fn visibility(&self, vis: &Vis) -> (r: Vis)
        ensures
            r@ == visibility_of(self.attrs@, vis@),
    {
        if self.has_public() {
            Vis::Public
        } else if self.has_not_public() {
            Vis::Private
        } else {
            vis.copy()
        }
    }

    /// Derive attributes of the generated enum, given the source's attributes.
    pub fn derive(&self, attrs: &Vec<SourceAttr>) -> (r: Vec<SourceAttr>)
        ensures
            attrs_view(r@) == derive_attrs_of(self.attrs@, attrs_view(attrs@)),
    {
        if self.has_no_derive() {
            let r: Vec<SourceAttr> = Vec::new();
            assert(attrs_view(r@) =~= Seq::empty());
            return r;
        }
        if let Some(list) = self.find_derive() {
            let mut r: Vec<SourceAttr> = Vec::new();
            r.push(SourceAttr { path: String::from_str("derive"), args: split_list(list.as_str()) });
            assert(attrs_view(r@) =~= seq![("derive"@, list_items(list@))]);
            return r;
        }
        let mut r: Vec<SourceAttr> = Vec::new();
        let mut i: usize = 0;
        while i < attrs.len()
            invariant
                i <= attrs@.len(),
                attrs_view(r@) == derives_of(attrs_view(attrs@.subrange(0, i as int))),
            decreases attrs@.len() - i,
        {
            assert(attrs_view(attrs@.subrange(0, i + 1)).drop_last() =~= attrs_view(attrs@.subrange(0, i as int)));
            let a = &attrs[i];
            if str_eq(a.path.as_str(), "derive") {
                let c = a.copy();
                r.push(c);
                assert(attrs_view(r@) =~= derives_of(attrs_view(attrs@.subrange(0, i as int))).push(c@));
            }
            i = i + 1;
        }
        assert(attrs@.subrange(0, attrs@.len() as int) =~= attrs@);
        r
    }
}

} // verus!
