use vstd::prelude::*;

verus! {

/// One directive that can be attached to a source enum.
///
/// Three directives carry a string value (`derive`, `getter`, `name`); the
/// others are flags.
#[derive(Debug)]
pub enum Attr {
    /// `display_from_value`: the source enum displays as the value that its
    /// single unnamed field holds.
    DisplayFromValue,
    /// `display`: the generated enum displays as `Source::Case`.
    Display,
    /// `display_variant`: the generated enum displays as the case name.
    DisplayVariant,
    /// `display_variant_snake`: the generated enum displays as the case name in
    /// snake case.
    DisplayVariantSnake,
    /// `no_derive`: the generated enum gets no derive attribute at all.
    NoDerive,
    /// `derive = "A, B"`: the traits to derive, in place of the inherited ones.
    Derive(String),
    /// `getter = "m"`: the name of the getter method (default `id`).
    Getter(String),
    /// `name = "N"`: the name of the generated enum (default `<Source>Id`).
    EnumName(String),
    /// `not_public`: the generated enum is private.
    NotPublic,
    /// `public`: the generated enum is public.
    Public,
    /// `iterator`: the generated enum gets an `as_vec` listing its cases.
    Iterator,
}

/// Why a directive list was refused.
#[derive(Debug)]
pub enum DirectiveError {
    /// The key is not one of the known directives.
    UnknownDirective(String),
    /// The entry is neither `key` nor `key = "value"`; says which form was
    /// expected there.
    MalformedEntry(Expected),
    /// A value directive written bare, or a flag written with a value.
    WrongLevel(String),
}

/// The form that a malformed entry should have had.
#[derive(Clone, Copy, Debug, PartialEq, Eq)]
pub enum Expected {
    /// `key = "value"`: an identifier on the left, a string literal on the right.
    KeyValue,
    /// A bare path that is a single identifier.
    Identifier,
    /// Either `key` or `key = "value"`.
    KeyOrKeyValue,
}

/// The key under which a directive is written.
pub open spec fn key_of(a: Attr) -> Seq<char> {
    match a {
        Attr::Derive(_) => "derive"@,
        Attr::Getter(_) => "getter"@,
        Attr::EnumName(_) => "name"@,
        Attr::Display => "display"@,
        Attr::DisplayVariant => "display_variant"@,
        Attr::DisplayVariantSnake => "display_variant_snake"@,
        Attr::DisplayFromValue => "display_from_value"@,
        Attr::NoDerive => "no_derive"@,
        Attr::NotPublic => "not_public"@,
        Attr::Public => "public"@,
        Attr::Iterator => "iterator"@,
    }
}

/// Position of a directive's kind in the vocabulary.
pub open spec fn kind_index(a: Attr) -> nat {
    match a {
        Attr::Derive(_) => 0,
        Attr::Getter(_) => 1,
        Attr::EnumName(_) => 2,
        Attr::Display => 3,
        Attr::DisplayVariant => 4,
        Attr::DisplayVariantSnake => 5,
        Attr::DisplayFromValue => 6,
        Attr::NoDerive => 7,
        Attr::NotPublic => 8,
        Attr::Public => 9,
        Attr::Iterator => 10,
    }
}

/// Keys and kinds correspond one to one: two directives with the same key
/// are of the same kind.
pub proof fn lemma_key_determines_kind(a: Attr, b: Attr)
    ensures
        key_of(a) == key_of(b) <==> kind_index(a) == kind_index(b),
{
    reveal_strlit("derive");
    reveal_strlit("getter");
    reveal_strlit("name");
    reveal_strlit("display");
    reveal_strlit("display_variant");
    reveal_strlit("display_variant_snake");
    reveal_strlit("display_from_value");
    reveal_strlit("no_derive");
    reveal_strlit("not_public");
    reveal_strlit("public");
    reveal_strlit("iterator");
    assert("derive"@.len() == 6 && "getter"@.len() == 6 && "public"@.len() == 6);
    assert("name"@.len() == 4 && "display"@.len() == 7 && "display_variant"@.len() == 15);
    assert("display_variant_snake"@.len() == 21 && "display_from_value"@.len() == 18);
    assert("no_derive"@.len() == 9 && "not_public"@.len() == 10 && "iterator"@.len() == 8);
    assert("derive"@[0] == 'd' && "getter"@[0] == 'g' && "public"@[0] == 'p');
}

/// Whether a directive carries a value.
pub open spec fn carries_value(a: Attr) -> bool {
    a is Derive || a is Getter || a is EnumName
}

/// The value that a directive carries; empty for a flag.
pub open spec fn value_of(a: Attr) -> Seq<char> {
    match a {
        Attr::Derive(s) => s@,
        Attr::Getter(s) => s@,
        Attr::EnumName(s) => s@,
        _ => Seq::empty(),
    }
}

/// Whether `k` is the key of some directive.
pub open spec fn is_known_key(k: Seq<char>) -> bool {
    ||| k == "derive"@
    ||| k == "getter"@
    ||| k == "name"@
    ||| k == "display"@
    ||| k == "display_variant"@
    ||| k == "display_variant_snake"@
    ||| k == "display_from_value"@
    ||| k == "no_derive"@
    ||| k == "not_public"@
    ||| k == "public"@
    ||| k == "iterator"@
}

/// Character-wise equality of two strings.
pub fn str_eq(a: &str, b: &str) -> (r: bool)
    ensures
        r == (a@ == b@),
{
    let n = a.unicode_len();
    if n != b.unicode_len() {
        return false;
    }
    let mut i: usize = 0;
    while i < n
        invariant
            n == a@.len(),
            n == b@.len(),
            i <= n,
            forall|j: int| 0 <= j < i ==> a@[j] == b@[j],
        decreases n - i,
    {
        if a.get_char(i) != b.get_char(i) {
            return false;
        }
        i = i + 1;
    }
    assert(a@ =~= b@);
    true
}

impl Attr {
    /// The key under which this directive is written.
    pub fn key(&self) -> (r: &'static str)
        ensures
            r@ == key_of(*self),
    {
        match self {
            Attr::Derive(_) => "derive",
            Attr::Getter(_) => "getter",
            Attr::EnumName(_) => "name",
            Attr::Display => "display",
            Attr::DisplayVariant => "display_variant",
            Attr::DisplayVariantSnake => "display_variant_snake",
            Attr::DisplayFromValue => "display_from_value",
            Attr::NoDerive => "no_derive",
            Attr::NotPublic => "not_public",
            Attr::Public => "public",
            Attr::Iterator => "iterator",
        }
    }

    /// The key as an owned string.
    pub fn to_string(&self) -> (r: String)
        ensures
            r@ == key_of(*self),
    {
        String::from_str(self.key())
    }

    /// Reads a key: the directive written under it, with an empty value if it
    /// carries one, or `UnknownDirective` with the key.
    pub fn try_from(value: &str) -> (r: Result<Attr, DirectiveError>)
        ensures
            is_known_key(value@) <==> r is Ok,
            r matches Ok(a) ==> key_of(a) == value@ && value_of(a) == Seq::<char>::empty(),
            r matches Err(e) ==> e matches DirectiveError::UnknownDirective(k) && k@ == value@,
    {
        if str_eq(value, "derive") {
            Ok(Attr::Derive(String::new()))
        } else if str_eq(value, "getter") {
            Ok(Attr::Getter(String::new()))
        } else if str_eq(value, "name") {
            Ok(Attr::EnumName(String::new()))
        } else if str_eq(value, "no_derive") {
            Ok(Attr::NoDerive)
        } else if str_eq(value, "display") {
            Ok(Attr::Display)
        } else if str_eq(value, "display_variant") {
            Ok(Attr::DisplayVariant)
        } else if str_eq(value, "display_variant_snake") {
            Ok(Attr::DisplayVariantSnake)
        } else if str_eq(value, "display_from_value") {
            Ok(Attr::DisplayFromValue)
        } else if str_eq(value, "not_public") {
            Ok(Attr::NotPublic)
        } else if str_eq(value, "public") {
            Ok(Attr::Public)
        } else if str_eq(value, "iterator") {
            Ok(Attr::Iterator)
        } else {
            Err(DirectiveError::UnknownDirective(String::from_str(value)))
        }
    }
}

} // verus!
