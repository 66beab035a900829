use crate::attr::{is_known_key, key_of, Attr};
use crate::context::{derive_attrs_of, entry_ok, has_flag, visibility_of, Entry};
use crate::naming::{ascii_lower, is_upper, snake};
use crate::source::{case_names, Shape, SourceView, VisView};
use crate::transform::generate;
use vstd::prelude::*;

verus! {

/// Every directive's key is a known key, so reading it back with
/// `Attr::try_from` succeeds and gives a directive with that key.
pub proof fn lemma_key_round_trip(a: Attr)
    ensures
        is_known_key(key_of(a)),
{
}

/// Whether every character of `s` is ASCII.
pub open spec fn all_ascii(s: Seq<char>) -> bool {
    forall|i: int| 0 <= i < s.len() ==> (#[trigger] s[i] as u32) < 128
}

/// Whether no character of `s` is uppercase.
pub open spec fn no_upper(s: Seq<char>) -> bool {
    forall|i: int| 0 <= i < s.len() ==> !is_upper(#[trigger] s[i])
}

proof fn lemma_snake_lowers(s: Seq<char>)
    requires
        all_ascii(s),
    ensures
        all_ascii(snake(s)),
        no_upper(snake(s)),
    decreases s.len(),
{
    if s.len() > 0 {
        let p = s.drop_last();
        assert(all_ascii(p));
        lemma_snake_lowers(p);
        let c = s.last();
        assert((c as u32) < 128);
        let l = ascii_lower(c);
        assert((l as u32) < 128 && !is_upper(l));
        assert(!is_upper('_'));
    }
}

proof fn lemma_snake_keeps(s: Seq<char>)
    requires
        no_upper(s),
    ensures
        snake(s) == s,
    decreases s.len(),
{
    if s.len() > 0 {
        let p = s.drop_last();
        assert(no_upper(p));
        lemma_snake_keeps(p);
        assert(p.push(s.last()) =~= s);
    }
}

/// Snake case is idempotent on ASCII names: converting a second time
/// changes nothing.
pub proof fn lemma_snake_idempotent(s: Seq<char>)
    requires
        all_ascii(s),
    ensures
        snake(snake(s)) == snake(s),
{
    lemma_snake_lowers(s);
    lemma_snake_keeps(snake(s));
}

/// The getter has one arm per source case, in source order; arm `i` maps
/// source case `i` to generated case `i`, which bears the same name, so
/// distinct source cases go to distinct generated cases.
pub proof fn lemma_one_arm_per_case(attrs: Seq<Attr>, src: SourceView)
    ensures
        generate(attrs, src).arms == src.cases,
        generate(attrs, src).cases.len() == src.cases.len(),
        forall|i: int|
            0 <= i < src.cases.len() ==> #[trigger] generate(attrs, src).cases[i] == src.cases[i].0,
        forall|i: int, j: int|
            0 <= i < src.cases.len() && 0 <= j < src.cases.len() && src.cases[i].0 != src.cases[j].0
                ==> generate(attrs, src).cases[i] != generate(attrs, src).cases[j],
{
}

/// The generated enum does not depend on the shapes of the source cases:
/// two source enums whose cases have the same names get the same cases.
pub proof fn lemma_cases_without_payload(attrs: Seq<Attr>, a: SourceView, b: SourceView)
    requires
        a.cases.len() == b.cases.len(),
        forall|i: int| 0 <= i < a.cases.len() ==> (#[trigger] a.cases[i]).0 == b.cases[i].0,
    ensures
        generate(attrs, a).cases == generate(attrs, b).cases,
{
    assert(case_names(a.cases) =~= case_names(b.cases));
}

/// `public` makes the generated enum public whatever the source's
/// visibility; otherwise `not_public` makes it private; otherwise it is the
/// source's own.
pub proof fn lemma_visibility_precedence(attrs: Seq<Attr>, vis: VisView)
    ensures
        has_flag(attrs, Attr::Public) ==> visibility_of(attrs, vis) == VisView::Public,
        !has_flag(attrs, Attr::Public) && has_flag(attrs, Attr::NotPublic) ==> visibility_of(attrs, vis)
            == VisView::Private,
        !has_flag(attrs, Attr::Public) && !has_flag(attrs, Attr::NotPublic) ==> visibility_of(attrs, vis)
            == vis,
{
}

/// Under `no_derive` the generated enum gets no derive attribute, whatever
/// `derive` override is also given.
pub proof fn lemma_no_derive_wins(attrs: Seq<Attr>, src: Seq<(Seq<char>, Seq<Seq<char>>)>)
    requires
        has_flag(attrs, Attr::NoDerive),
    ensures
        derive_attrs_of(attrs, src).len() == 0,
{
}

/// A directive list with an unknown key is refused: not every entry is
/// well formed, so `Context::parse` fails and nothing is generated.
pub proof fn lemma_unknown_rejected(entries: Seq<Entry>, i: int)
    requires
        0 <= i < entries.len(),
        match entries[i] {
            Entry::Flag(Some(k)) => !is_known_key(k@),
            Entry::Assign(Some(k), Some(_)) => !is_known_key(k@),
            _ => false,
        },
    ensures
        !entry_ok(entries[i]),
        !(forall|j: int| 0 <= j < entries.len() ==> entry_ok(#[trigger] entries[j])),
{
}

/// Under `iterator`, `as_vec` lists exactly the generated cases, in
/// declaration order; where the source's case names are distinct, each
/// appears once.
pub proof fn lemma_as_vec_lists_cases(attrs: Seq<Attr>, src: SourceView)
    requires
        has_flag(attrs, Attr::Iterator),
    ensures
        generate(attrs, src).as_vec == Some(generate(attrs, src).cases),
        generate(attrs, src).cases.len() == src.cases.len(),
        forall|i: int| 0 <= i < src.cases.len() ==> #[trigger] generate(attrs, src).cases[i] == src.cases[i].0,
{
}

} // verus!
