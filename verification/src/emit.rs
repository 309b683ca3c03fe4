//! The text of the generated code.
//!
//! Every fragment of generated source is pinned down by a spec function over
//! `Seq<char>`, and each exec function proves that the `String` it builds is
//! exactly that fragment.

use vstd::prelude::*;

verus! {

/// The qualified identifier of a rule: `Type::field`.
pub open spec fn rule_id_spec(ty: Seq<char>, field: Seq<char>) -> Seq<char> {
    ty + "::"@ + field
}

/// The accessor function generated for one field: a zero-argument function,
/// named after the field, that returns the rule handle tagged `Type::field`.
pub open spec fn accessor_fn_spec(ty: Seq<char>, field: Seq<char>) -> Seq<char> {
    "pub fn "@ + field
        + "() -> volt::element::Element { volt::element::Element::Expression(volt::element::Expression::Rule(volt::rule::RuleId(\""@
        + rule_id_spec(ty, field) + "\".to_string()))) } "@
}

/// The accessor functions of all fields, in field order: one per field.
pub open spec fn accessors_spec(ty: Seq<char>, fields: Seq<Seq<char>>) -> Seq<char>
    decreases fields.len(),
{
    if fields.len() == 0 {
        Seq::empty()
    } else {
        accessors_spec(ty, fields.drop_last()) + accessor_fn_spec(ty, fields.last())
    }
}

/// The inherent `impl` block that holds the accessor functions.
pub open spec fn self_impl_spec(ty: Seq<char>, fields: Seq<Seq<char>>) -> Seq<char> {
    "impl "@ + ty + " { "@ + accessors_spec(ty, fields) + "} "@
}

/// The statement generated for one field inside the assembly routine: it
/// registers the field's rule under `Type::field`, checked for left
/// recursion at construction.
pub open spec fn push_stmt_spec(ty: Seq<char>, field: Seq<char>) -> Seq<char> {
    "rules.push(volt::rule::Rule::new(volt::rule::RuleId(\""@ + rule_id_spec(ty, field)
        + "\".to_string()), self."@ + field + ".clone()).detect_left_recursion()); "@
}

/// The registration statements of all fields, in field order: one per field.
pub open spec fn pushes_spec(ty: Seq<char>, fields: Seq<Seq<char>>) -> Seq<char>
    decreases fields.len(),
{
    if fields.len() == 0 {
        Seq::empty()
    } else {
        pushes_spec(ty, fields.drop_last()) + push_stmt_spec(ty, fields.last())
    }
}

/// The `impl` of the module-assembly trait: its one method collects every
/// rule of the module into an ordered collection.
pub open spec fn assist_impl_spec(ty: Seq<char>, fields: Seq<Seq<char>>) -> Seq<char> {
    "impl volt::VoltModuleAssist for "@ + ty
        + " { fn into_rule_vec(self) -> volt::rule::RuleVec { let mut rules = Vec::new(); "@
        + pushes_spec(ty, fields) + "volt::rule::RuleVec(rules) } } "@
}

/// The whole generated output: the accessor `impl` followed by the
/// assembly `impl`.
pub open spec fn derive_source_spec(ty: Seq<char>, fields: Seq<Seq<char>>) -> Seq<char> {
    self_impl_spec(ty, fields) + assist_impl_spec(ty, fields)
}

/// Each field contributes exactly one fragment to each block: extending the
/// field list by one field appends exactly one accessor function to the
/// accessor block and exactly one registration statement to the assembly
/// block, and changes nothing before them.
pub proof fn lemma_one_fragment_per_field(ty: Seq<char>, fields: Seq<Seq<char>>, f: Seq<char>)
    ensures
        accessors_spec(ty, fields.push(f)) == accessors_spec(ty, fields) + accessor_fn_spec(ty, f),
        pushes_spec(ty, fields.push(f)) == pushes_spec(ty, fields) + push_stmt_spec(ty, f),
{
    assert(fields.push(f).drop_last() =~= fields);
    assert(fields.push(f).last() == f);
}

/// `frag` occurs somewhere inside `s`.
pub open spec fn appears_in(frag: Seq<char>, s: Seq<char>) -> bool {
    exists|j: int| 0 <= j && j + frag.len() <= s.len() && #[trigger] s.subrange(j, j + frag.len()) == frag
}

proof fn lemma_appears_left(frag: Seq<char>, s: Seq<char>, t: Seq<char>)
    requires
        appears_in(frag, s),
    ensures
        appears_in(frag, s + t),
{
    let j = choose|j: int|
        0 <= j && j + frag.len() <= s.len() && #[trigger] s.subrange(j, j + frag.len()) == frag;
    assert((s + t).subrange(j, j + frag.len()) =~= s.subrange(j, j + frag.len()));
}

proof fn lemma_appears_right(frag: Seq<char>, t: Seq<char>, s: Seq<char>)
    requires
        appears_in(frag, s),
    ensures
        appears_in(frag, t + s),
{
    let j = choose|j: int|
        0 <= j && j + frag.len() <= s.len() && #[trigger] s.subrange(j, j + frag.len()) == frag;
    let k = j + t.len();
    assert((t + s).subrange(k, k + frag.len()) =~= s.subrange(j, j + frag.len()));
}

proof fn lemma_appears_tail(frag: Seq<char>, s: Seq<char>)
    ensures
        appears_in(frag, s + frag),
{
    let j = s.len() as int;
    assert((s + frag).subrange(j, j + frag.len()) =~= frag);
}

proof fn lemma_accessor_appears(ty: Seq<char>, fields: Seq<Seq<char>>, i: int)
    requires
        0 <= i < fields.len(),
    ensures
        appears_in(accessor_fn_spec(ty, fields[i]), accessors_spec(ty, fields)),
    decreases fields.len(),
{
    if i == fields.len() - 1 {
        lemma_appears_tail(accessor_fn_spec(ty, fields[i]), accessors_spec(ty, fields.drop_last()));
    } else {
        lemma_accessor_appears(ty, fields.drop_last(), i);
        assert(fields.drop_last()[i] == fields[i]);
        lemma_appears_left(
            accessor_fn_spec(ty, fields[i]),
            accessors_spec(ty, fields.drop_last()),
            accessor_fn_spec(ty, fields.last()),
        );
    }
}

proof fn lemma_push_appears(ty: Seq<char>, fields: Seq<Seq<char>>, i: int)
    requires
        0 <= i < fields.len(),
    ensures
        appears_in(push_stmt_spec(ty, fields[i]), pushes_spec(ty, fields)),
    decreases fields.len(),
{
    if i == fields.len() - 1 {
        lemma_appears_tail(push_stmt_spec(ty, fields[i]), pushes_spec(ty, fields.drop_last()));
    } else {
        lemma_push_appears(ty, fields.drop_last(), i);
        assert(fields.drop_last()[i] == fields[i]);
        lemma_appears_left(
            push_stmt_spec(ty, fields[i]),
            pushes_spec(ty, fields.drop_last()),
            push_stmt_spec(ty, fields.last()),
        );
    }
}

/// No field is left out of the generated output: for every field of the
/// module, its accessor function occurs in the output, and so does the
/// statement that registers its rule under `Type::field`.
pub proof fn lemma_field_fragments_in_output(ty: Seq<char>, fields: Seq<Seq<char>>, i: int)
    requires
        0 <= i < fields.len(),
    ensures
        appears_in(accessor_fn_spec(ty, fields[i]), derive_source_spec(ty, fields)),
        appears_in(push_stmt_spec(ty, fields[i]), derive_source_spec(ty, fields)),
{
    let acc = accessor_fn_spec(ty, fields[i]);
    lemma_accessor_appears(ty, fields, i);
    lemma_appears_right(acc, "impl "@ + ty + " { "@, accessors_spec(ty, fields));
    lemma_appears_left(acc, "impl "@ + ty + " { "@ + accessors_spec(ty, fields), "} "@);
    lemma_appears_left(acc, self_impl_spec(ty, fields), assist_impl_spec(ty, fields));

    let push = push_stmt_spec(ty, fields[i]);
    let assist_head =
        "impl volt::VoltModuleAssist for "@ + ty
        + " { fn into_rule_vec(self) -> volt::rule::RuleVec { let mut rules = Vec::new(); "@;
    lemma_push_appears(ty, fields, i);
    lemma_appears_right(push, assist_head, pushes_spec(ty, fields));
    lemma_appears_left(
        push,
        assist_head + pushes_spec(ty, fields),
        "volt::rule::RuleVec(rules) } } "@,
    );
    lemma_appears_right(push, self_impl_spec(ty, fields), assist_impl_spec(ty, fields));
}

/// Builds the qualified rule identifier `Type::field`.
pub fn qualified_rule_id(ty: &str, field: &str) -> (r: String)
    ensures
        r@ == rule_id_spec(ty@, field@),
{
    let mut s = String::from_str(ty);
    s.append("::");
    s.append(field);
    s
}

/// Builds the accessor function generated for one field.
pub fn accessor_fn_source(ty: &str, field: &str) -> (r: String)
    ensures
        r@ == accessor_fn_spec(ty@, field@),
{
    let mut s = String::from_str("pub fn ");
    s.append(field);
    s.append(
        "() -> volt::element::Element { volt::element::Element::Expression(volt::element::Expression::Rule(volt::rule::RuleId(\"",
    );
    s.append(ty);
    s.append("::");
    s.append(field);
    s.append("\".to_string()))) } ");
    proof {
        assert(s@ =~= accessor_fn_spec(ty@, field@));
    }
    s
}

/// Builds the inherent `impl` block with one accessor per field.
pub fn self_impl_source(ty: &str, fields: &Vec<String>) -> (r: String)
    ensures
        r@ == self_impl_spec(ty@, fields.deep_view()),
{
    let ghost fseq: Seq<Seq<char>> = fields.deep_view();
    let mut s = String::from_str("impl ");
    s.append(ty);
    s.append(" { ");
    proof {
        assert(s@ =~= "impl "@ + ty@ + " { "@ + accessors_spec(ty@, fseq.take(0)));
    }
    for i in 0..fields.len()
        invariant
            fseq == fields.deep_view(),
            fseq.len() == fields.len(),
            s@ =~= "impl "@ + ty@ + " { "@ + accessors_spec(ty@, fseq.take(i as int)),
    {
        let f = accessor_fn_source(ty, fields[i].as_str());
        s.append(f.as_str());
        proof {
            assert(fseq.take(i + 1).drop_last() =~= fseq.take(i as int));
            assert(fseq[i as int] == fields@[i as int]@);
            assert(s@ =~= "impl "@ + ty@ + " { "@ + accessors_spec(ty@, fseq.take(i + 1)));
        }
    }
    proof {
        assert(fseq.take(fields.len() as int) =~= fseq);
    }
    s.append("} ");
    proof {
        assert(s@ =~= self_impl_spec(ty@, fseq));
    }
    s
}

/// Builds the registration statement generated for one field.
pub fn push_stmt_source(ty: &str, field: &str) -> (r: String)
    ensures
        r@ == push_stmt_spec(ty@, field@),
{
    let mut s = String::from_str("rules.push(volt::rule::Rule::new(volt::rule::RuleId(\"");
    s.append(ty);
    s.append("::");
    s.append(field);
    s.append("\".to_string()), self.");
    s.append(field);
    s.append(".clone()).detect_left_recursion()); ");
    proof {
        assert(s@ =~= push_stmt_spec(ty@, field@));
    }
    s
}

/// Builds the `impl` of the module-assembly trait, registering one rule
/// per field.
pub fn assist_impl_source(ty: &str, fields: &Vec<String>) -> (r: String)
    ensures
        r@ == assist_impl_spec(ty@, fields.deep_view()),
{
    let ghost fseq: Seq<Seq<char>> = fields.deep_view();
    let mut s = String::from_str("impl volt::VoltModuleAssist for ");
    s.append(ty);
    s.append(" { fn into_rule_vec(self) -> volt::rule::RuleVec { let mut rules = Vec::new(); ");
    let ghost head: Seq<char> = s@;
    for i in 0..fields.len()
        invariant
            fseq == fields.deep_view(),
            fseq.len() == fields.len(),
            head =~= (
            "impl volt::VoltModuleAssist for "@ + ty@
                + " { fn into_rule_vec(self) -> volt::rule::RuleVec { let mut rules = Vec::new(); "@
            ),
            s@ =~= head + pushes_spec(ty@, fseq.take(i as int)),
    {
        let p = push_stmt_source(ty, fields[i].as_str());
        s.append(p.as_str());
        proof {
            assert(fseq.take(i + 1).drop_last() =~= fseq.take(i as int));
            assert(fseq[i as int] == fields@[i as int]@);
            assert(s@ =~= head + pushes_spec(ty@, fseq.take(i + 1)));
        }
    }
    proof {
        assert(fseq.take(fields.len() as int) =~= fseq);
    }
    s.append("volt::rule::RuleVec(rules) } } ");
    proof {
        assert(s@ =~= assist_impl_spec(ty@, fseq));
    }
    s
}

/// Builds the whole generated output for one module type.
pub fn derive_source(ty: &str, fields: &Vec<String>) -> (r: String)
    ensures
        r@ == derive_source_spec(ty@, fields.deep_view()),
{
    let s = self_impl_source(ty, fields);
    let t = assist_impl_source(ty, fields);
    s.concat(t.as_str())
}

} // verus!
