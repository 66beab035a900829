use enum_ids::{
    enum_ids, parse_entry, split_list, to_snake_case, trimmed, Attr, Case, Context, DirectiveError,
    Entry, Expected, Generated, Shape, SourceAttr, SourceEnum, Vis,
};

fn s(x: &str) -> String {
    x.to_string()
}

fn flag(k: &str) -> Entry {
    Entry::Flag(Some(s(k)))
}

fn assign(k: &str, v: &str) -> Entry {
    Entry::Assign(Some(s(k)), Some(s(v)))
}

fn derive_attr(traits: &[&str]) -> SourceAttr {
    SourceAttr { path: s("derive"), args: traits.iter().map(|t| s(t)).collect() }
}

fn kind(vis: Vis) -> SourceEnum {
    SourceEnum {
        name: s("Kind"),
        vis,
        attrs: vec![
            derive_attr(&["Debug", "PartialEq", "Clone"]),
            SourceAttr { path: s("doc"), args: vec![] },
            derive_attr(&["Eq"]),
        ],
        cases: vec![
            Case { name: s("A"), shape: Shape::Positional },
            Case { name: s("B"), shape: Shape::Named },
            Case { name: s("C"), shape: Shape::Unit },
        ],
    }
}

fn snake_kind() -> SourceEnum {
    SourceEnum {
        name: s("Kind"),
        vis: Vis::Public,
        attrs: vec![],
        cases: vec![
            Case { name: s("FieldA"), shape: Shape::Positional },
            Case { name: s("ThisIsFieldB"), shape: Shape::Named },
            Case { name: s("C"), shape: Shape::Unit },
            Case { name: s("ABC"), shape: Shape::Unit },
        ],
    }
}

fn generate(entries: Vec<Entry>, src: &SourceEnum) -> Generated {
    let cx = Context::parse(&entries).expect("directives parse");
    enum_ids(&cx, src)
}

fn strs(v: &[String]) -> Vec<&str> {
    v.iter().map(|x| x.as_str()).collect()
}

#[test]
fn snake_case_examples() {
    assert_eq!(to_snake_case("FieldA"), "field_a");
    assert_eq!(to_snake_case("ThisIsFieldB"), "this_is_field_b");
    assert_eq!(to_snake_case("C"), "c");
    assert_eq!(to_snake_case("ABC"), "a_b_c");
    assert_eq!(to_snake_case(""), "");
    assert_eq!(to_snake_case("already_snake"), "already_snake");
}

#[test]
fn snake_case_beyond_ascii() {
    assert_eq!(to_snake_case("\u{c9}tatB"), "\u{c9}tat_b");
    assert_eq!(to_snake_case("a\u{c9}"), "a_\u{c9}");
}

#[test]
fn snake_case_twice_changes_nothing() {
    for name in ["FieldA", "ThisIsFieldB", "C", "ABC", "x", "aBcD"] {
        let once = to_snake_case(name);
        assert_eq!(to_snake_case(&once), once);
    }
}

#[test]
fn default_names() {
    let g = generate(vec![], &kind(Vis::Public));
    assert_eq!(g.companion, "KindId");
    assert_eq!(g.getter, "id");
}

#[test]
fn name_and_getter_overrides() {
    let g = generate(vec![assign("name", "Tag"), assign("getter", "get_id")], &kind(Vis::Public));
    assert_eq!(g.companion, "Tag");
    assert_eq!(g.getter, "get_id");
}

#[test]
fn first_override_wins() {
    let g = generate(vec![assign("name", "First"), assign("name", "Second")], &kind(Vis::Public));
    assert_eq!(g.companion, "First");
}

#[test]
fn public_overrides_private_source() {
    let g = generate(vec![flag("public")], &kind(Vis::Private));
    assert!(matches!(g.vis, Vis::Public));
}

#[test]
fn not_public_overrides_public_source() {
    let g = generate(vec![flag("not_public")], &kind(Vis::Public));
    assert!(matches!(g.vis, Vis::Private));
}

#[test]
fn public_wins_over_not_public() {
    let g = generate(vec![flag("not_public"), flag("public")], &kind(Vis::Private));
    assert!(matches!(g.vis, Vis::Public));
}

#[test]
fn visibility_inherited() {
    let g = generate(vec![], &kind(Vis::Restricted(s("crate"))));
    match g.vis {
        Vis::Restricted(p) => assert_eq!(p, "crate"),
        other => panic!("unexpected visibility {:?}", other),
    }
    let g = generate(vec![], &kind(Vis::Private));
    assert!(matches!(g.vis, Vis::Private));
}

#[test]
fn inherited_derives_only() {
    let g = generate(vec![], &kind(Vis::Public));
    assert_eq!(g.derives.len(), 2);
    assert_eq!(g.derives[0].path, "derive");
    assert_eq!(strs(&g.derives[0].args), vec!["Debug", "PartialEq", "Clone"]);
    assert_eq!(strs(&g.derives[1].args), vec!["Eq"]);
}

#[test]
fn derive_override_replaces_inherited() {
    let g = generate(vec![assign("derive", "Debug, Serialize,Deserialize ")], &kind(Vis::Public));
    assert_eq!(g.derives.len(), 1);
    assert_eq!(g.derives[0].path, "derive");
    assert_eq!(strs(&g.derives[0].args), vec!["Debug", "Serialize", "Deserialize"]);
}

#[test]
fn no_derive_beats_derive_override() {
    let g = generate(vec![assign("derive", "Debug"), flag("no_derive")], &kind(Vis::Public));
    assert!(g.derives.is_empty());
    let g = generate(vec![flag("no_derive")], &kind(Vis::Public));
    assert!(g.derives.is_empty());
}

#[test]
fn unknown_directive_rejected() {
    match Context::parse(&vec![assign("unknown", "value")]) {
        Err((0, DirectiveError::UnknownDirective(k))) => assert_eq!(k, "unknown"),
        other => panic!("unexpected {:?}", other),
    }
    match Context::parse(&vec![flag("public"), flag("bogus")]) {
        Err((1, DirectiveError::UnknownDirective(k))) => assert_eq!(k, "bogus"),
        other => panic!("unexpected {:?}", other),
    }
}

#[test]
fn directive_at_wrong_level() {
    match Context::parse(&vec![assign("public", "yes")]) {
        Err((0, DirectiveError::WrongLevel(k))) => assert_eq!(k, "public"),
        other => panic!("unexpected {:?}", other),
    }
    match Context::parse(&vec![flag("derive")]) {
        Err((0, DirectiveError::WrongLevel(k))) => assert_eq!(k, "derive"),
        other => panic!("unexpected {:?}", other),
    }
}

#[test]
fn malformed_entries() {
    assert!(matches!(
        parse_entry(&Entry::Assign(None, Some(s("v")))),
        Err(DirectiveError::MalformedEntry(Expected::KeyValue))
    ));
    assert!(matches!(
        parse_entry(&Entry::Assign(Some(s("name")), None)),
        Err(DirectiveError::MalformedEntry(Expected::KeyValue))
    ));
    assert!(matches!(
        parse_entry(&Entry::Flag(None)),
        Err(DirectiveError::MalformedEntry(Expected::Identifier))
    ));
    assert!(matches!(
        parse_entry(&Entry::Other),
        Err(DirectiveError::MalformedEntry(Expected::KeyOrKeyValue))
    ));
}

#[test]
fn repeated_directives_kept() {
    let cx = Context::parse(&vec![flag("public"), flag("public"), assign("getter", "g")]).unwrap();
    assert_eq!(cx.attrs.len(), 3);
    assert!(matches!(&cx.attrs[2], Attr::Getter(v) if v == "g"));
}

#[test]
fn keys_round_trip() {
    for key in [
        "derive",
        "getter",
        "name",
        "display",
        "display_variant",
        "display_variant_snake",
        "display_from_value",
        "no_derive",
        "not_public",
        "public",
        "iterator",
    ] {
        let a = Attr::try_from(key).unwrap();
        assert_eq!(a.key(), key);
        assert_eq!(a.to_string(), key);
    }
    assert!(matches!(Attr::try_from("Public"), Err(DirectiveError::UnknownDirective(_))));
    assert!(matches!(Attr::try_from(""), Err(DirectiveError::UnknownDirective(_))));
}

#[test]
fn one_arm_per_case_in_order() {
    let g = generate(vec![], &kind(Vis::Public));
    assert_eq!(strs(&g.cases), vec!["A", "B", "C"]);
    assert_eq!(g.arms.len(), 3);
    assert_eq!(g.arms[0].name, "A");
    assert_eq!(g.arms[0].shape, Shape::Positional);
    assert_eq!(g.arms[1].name, "B");
    assert_eq!(g.arms[1].shape, Shape::Named);
    assert_eq!(g.arms[2].name, "C");
    assert_eq!(g.arms[2].shape, Shape::Unit);
}

#[test]
fn companion_cases_ignore_shapes() {
    let mut other = kind(Vis::Public);
    for c in other.cases.iter_mut() {
        c.shape = Shape::Unit;
    }
    let a = generate(vec![], &kind(Vis::Public));
    let b = generate(vec![], &other);
    assert_eq!(a.cases, b.cases);
}

#[test]
fn as_vec_lists_every_case_once() {
    let g = generate(vec![flag("iterator")], &kind(Vis::Public));
    let listed = g.as_vec.expect("iterator asked for");
    assert_eq!(listed.len(), 3);
    for case in ["A", "B", "C"] {
        assert_eq!(listed.iter().filter(|c| c.as_str() == case).count(), 1);
    }
    assert_eq!(strs(&listed), vec!["A", "B", "C"]);
}

#[test]
fn no_optional_parts_by_default() {
    let g = generate(vec![], &kind(Vis::Public));
    assert!(g.as_vec.is_none());
    assert!(g.display.is_none());
    assert!(g.display_variant.is_none());
    assert!(g.display_from_value.is_none());
}

#[test]
fn display_qualified() {
    let g = generate(vec![flag("display")], &kind(Vis::Public));
    assert_eq!(strs(&g.display.unwrap()), vec!["Kind::A", "Kind::B", "Kind::C"]);
}

#[test]
fn display_variant_names() {
    let g = generate(vec![flag("display_variant")], &snake_kind());
    assert_eq!(strs(&g.display_variant.unwrap()), vec!["FieldA", "ThisIsFieldB", "C", "ABC"]);
}

#[test]
fn display_variant_snake_names() {
    let g = generate(vec![flag("display_variant_snake")], &snake_kind());
    assert_eq!(
        strs(&g.display_variant.unwrap()),
        vec!["field_a", "this_is_field_b", "c", "a_b_c"]
    );
}

#[test]
fn display_variant_wins_over_snake() {
    let g = generate(vec![flag("display_variant_snake"), flag("display_variant")], &snake_kind());
    assert_eq!(strs(&g.display_variant.unwrap()), vec!["FieldA", "ThisIsFieldB", "C", "ABC"]);
}

#[test]
fn display_from_value_cases() {
    let g = generate(vec![flag("display_from_value")], &kind(Vis::Public));
    assert_eq!(strs(&g.display_from_value.unwrap()), vec!["A", "B", "C"]);
    assert!(g.display.is_none());
}

#[test]
fn list_splitting() {
    assert_eq!(split_list(" Debug ,Clone,  Eq"), vec!["Debug", "Clone", "Eq"]);
    assert_eq!(split_list("Debug"), vec!["Debug"]);
    assert_eq!(split_list(""), vec![""]);
    assert_eq!(split_list("A,"), vec!["A", ""]);
}

#[test]
fn trimming() {
    assert_eq!(trimmed("  a b \t\n"), "a b");
    assert_eq!(trimmed("   "), "");
    assert_eq!(trimmed("x"), "x");
}
