use vstd::prelude::*;

use crate::codegen::model::{
    model_values, prop_view, Model, ModelProperty, PropView, PropertyType,
};
use crate::codegen::model::model_map_values;
use crate::indexed::set_push;
use crate::text::concat_texts;
use indexmap::IndexSet;

verus! {

// ---------------------------------------------------------------------------
// The type-literal table.
// ---------------------------------------------------------------------------

/// The literal type emitted for each property type: the closed table is
/// total, and everything outside the three supported types renders as the
/// permissive fallback.
pub open spec fn type_literal(t: PropertyType) -> Seq<char> {
    match t {
        PropertyType::Number => "number"@,
        PropertyType::String => "string"@,
        PropertyType::Boolean => "boolean"@,
        PropertyType::Unsupported => "unknown"@,
    }
}

/// The type-mapping table is exhaustive and total: every property type maps
/// to exactly one of the four literals, and every type outside the three
/// supported ones maps to the fallback, never to an error.
pub proof fn lemma_type_literal_total(t: PropertyType)
    ensures
        type_literal(t) == "number"@ || type_literal(t) == "string"@ || type_literal(t)
            == "boolean"@ || type_literal(t) == "unknown"@,
        t != PropertyType::Number && t != PropertyType::String && t != PropertyType::Boolean
            ==> type_literal(t) == "unknown"@,
{
}

/// Renders the literal type of one property type.
pub fn serialize_type(prop_type: &PropertyType) -> (r: String)
    ensures
        r@ == type_literal(*prop_type),
{
    match prop_type {
        PropertyType::Number => "number".to_owned(),
        PropertyType::String => "string".to_owned(),
        PropertyType::Boolean => "boolean".to_owned(),
        PropertyType::Unsupported => "unknown".to_owned(),
    }
}

// ---------------------------------------------------------------------------
// Members.
// ---------------------------------------------------------------------------

/// A property name quotes itself when it contains a space; anything else is
/// emitted bare.
pub open spec fn quoted_name(n: Seq<char>) -> Seq<char> {
    if n.contains(' ') {
        "\""@ + n + "\""@
    } else {
        n
    }
}

/// The member line for one property: the (possibly quoted) name, a `?` only
/// when the property is optional, and the literal type.
pub open spec fn member_text_v(p: PropView, is_required: bool) -> Seq<char> {
    quoted_name(p.name) + (if is_required {
        Seq::<char>::empty()
    } else {
        "?"@
    }) + ": "@ + type_literal(p.prop_type)
}

/// The member lines of a run of properties, each marked required.
pub open spec fn member_texts(vals: Seq<PropView>) -> Seq<Seq<char>> {
    vals.map_values(|p: PropView| member_text_v(p, true))
}

fn contains_space(s: &String) -> (b: bool)
    ensures
        b == s@.contains(' '),
{
    let text = s.as_str();
    let n = text.unicode_len();
    let mut i: usize = 0;
    while i < n
        invariant
            i <= n,
            n == s@.len(),
            text@ == s@,
            forall|j: int| 0 <= j < i ==> s@[j] != ' ',
        decreases n - i,
    {
        if text.get_char(i) == ' ' {
            proof {
                assert(s@[i as int] == ' ');
            }
            return true;
        }
        i = i + 1;
    }
    false
}

/// Renders one property as a member line.
pub fn serialize_property(prop: &ModelProperty, is_required: bool) -> (r: String)
    ensures
        r@ == member_text_v(prop_view(prop), is_required),
{
    let mut s = if contains_space(&prop.name) {
        let mut q = "\"".to_owned();
        q.append(prop.name.as_str());
        q.append("\"");
        q
    } else {
        prop.name.clone()
    };
    if !is_required {
        s.append("?");
    }
    s.append(": ");
    let lit = serialize_type(&prop.prop_type);
    s.append(lit.as_str());
    s
}

// ---------------------------------------------------------------------------
// What the generator's member set holds.
// ---------------------------------------------------------------------------

/// The member lines accumulated so far, in insertion order and without
/// duplicates.
pub uninterp spec fn member_set_elems(s: IndexSet<String>) -> Seq<Seq<char>>;

/// Relies on indexmap::IndexSet::new: a freshly made set is empty.
#[verifier::external_body]
fn member_set_new() -> (s: IndexSet<String>)
    ensures
        member_set_elems(s) == Seq::<Seq<char>>::empty(),
{
    IndexSet::new()
}

/// Relies on indexmap::IndexSet::insert: an equivalent text keeps its place
/// in the order; a new one goes last.
#[verifier::external_body]
fn member_set_insert(s: &mut IndexSet<String>, v: String)
    ensures
        member_set_elems(*final(s)) == set_push(member_set_elems(*old(s)), v@),
{
    s.insert(v);
}

/// Relies on indexmap::IndexSet::iter: elements come out in their order.
#[verifier::external_body]
fn member_set_items(s: &IndexSet<String>) -> (r: Vec<String>)
    ensures
        r@.len() == member_set_elems(*s).len(),
        forall|i: int| 0 <= i < r@.len() ==> r@[i]@ == member_set_elems(*s)[i],
{
    s.iter().map(|x| x.clone()).collect()
}

// ---------------------------------------------------------------------------
// The interface generator.
// ---------------------------------------------------------------------------

/// The member lines that registering a run of properties leaves behind:
/// first occurrences in order, a repeated line collapsing into its first
/// occurrence.
pub open spec fn dedup_texts(ts: Seq<Seq<char>>) -> Seq<Seq<char>>
    decreases ts.len(),
{
    if ts.len() == 0 {
        Seq::<Seq<char>>::empty()
    } else {
        set_push(dedup_texts(ts.drop_last()), ts.last())
    }
}

/// Whether no text occurs twice.
pub open spec fn texts_distinct(ts: Seq<Seq<char>>) -> bool {
    forall|i: int, j: int| 0 <= i < j < ts.len() ==> ts[i] != ts[j]
}

/// The accumulated member lines hold no duplicate: a line already present
/// never joins again, so two properties rendering to identical text
/// collapse into one member.
pub proof fn lemma_dedup_texts_distinct(ts: Seq<Seq<char>>)
    ensures
        texts_distinct(dedup_texts(ts)),
    decreases ts.len(),
{
    if ts.len() > 0 {
        lemma_dedup_texts_distinct(ts.drop_last());
        let prev = dedup_texts(ts.drop_last());
        let x = ts.last();
        if !prev.contains(x) {
            assert forall|i: int, j: int|
                0 <= i < j < prev.push(x).len() implies prev.push(x)[i] != prev.push(x)[j] by {
                if j == prev.len() {
                    assert(prev[i] == prev.push(x)[i]);
                    assert(prev.contains(prev[i]));
                } else {
                    assert(prev[i] != prev[j]);
                }
            }
        }
    }
}

/// The members of a run of properties indented each on its own line.
pub open spec fn indented(members: Seq<Seq<char>>) -> Seq<Seq<char>> {
    members.map_values(|m: Seq<char>| "\n\t"@ + m)
}

/// The whole structural declaration for one model.
pub open spec fn interface_text(name: Seq<char>, members: Seq<Seq<char>>) -> Seq<char> {
    "interface "@ + name + " {"@ + concat_texts(indented(members)) + "\n}"@
}

/// A model with no properties at all still yields a syntactically
/// well-formed, empty-bodied declaration bearing the model's name.
pub proof fn lemma_empty_interface(name: Seq<char>)
    ensures
        interface_text(name, Seq::<Seq<char>>::empty()) == "interface "@ + name + " {\n}"@,
{
    reveal_strlit(" {");
    reveal_strlit("\n}");
    reveal_strlit(" {\n}");
    assert(indented(Seq::<Seq<char>>::empty()) =~= Seq::<Seq<char>>::empty());
    assert(concat_texts(Seq::<Seq<char>>::empty()) =~= Seq::<char>::empty());
    assert(" {"@ + "\n}"@ =~= " {\n}"@);
    assert(interface_text(name, Seq::<Seq<char>>::empty()) =~= "interface "@ + name + " {\n}"@);
}

/// Accumulates the member lines of one model and renders the structural
/// type declaration.
pub struct InterfaceGenerator {
    pub name: String,
    pub properties: IndexSet<String>,
}

impl InterfaceGenerator {
    /// The member lines accumulated so far, in order and without
    /// duplicates.
    pub open spec fn members(&self) -> Seq<Seq<char>> {
        member_set_elems(self.properties)
    }

    pub fn new(name: &str) -> (r: InterfaceGenerator)
        ensures
            r.name@ == name@,
            r.members() == Seq::<Seq<char>>::empty(),
    {
        InterfaceGenerator { name: name.to_owned(), properties: member_set_new() }
    }

    /// Builds the generator for one model by registering each of its
    /// properties in order.
    pub fn from(model: &Model) -> (r: InterfaceGenerator)
        ensures
            r.name@ == model.name@,
            r.members() == dedup_texts(member_texts(model_values(model.properties))),
    {
        let mut generator = InterfaceGenerator::new(model.name.as_str());
        let props = model_map_values(&model.properties);
        let ghost mts = member_texts(model_values(model.properties));
        let mut i: usize = 0;
        proof {
            assert(dedup_texts(mts.take(0)) =~= Seq::<Seq<char>>::empty());
        }
        while i < props.len()
            invariant
                i <= props@.len(),
                props@.len() == mts.len(),
                forall|j: int|
                    0 <= j < props@.len() ==> member_text_v(prop_view(&props@[j]), true) == mts[j],
                generator.name@ == model.name@,
                generator.members() == dedup_texts(mts.take(i as int)),
            decreases props@.len() - i,
        {
            generator.register_property(&props[i]);
            proof {
                assert(mts.take(i + 1).drop_last() =~= mts.take(i as int));
                assert(mts.take(i + 1).last() == mts[i as int]);
            }
            i = i + 1;
        }
        proof {
            assert(mts.take(mts.len() as int) =~= mts);
        }
        generator
    }

    /// Registers one property: its member line joins the set unless an
    /// identical line is already present.
    pub fn register_property(&mut self, prop: &ModelProperty)
        ensures
            final(self).name@ == old(self).name@,
            final(self).members() == set_push(
                old(self).members(),
                member_text_v(prop_view(prop), true),
            ),
    {
        let line = serialize_property(prop, true);
        member_set_insert(&mut self.properties, line);
    }

    /// Renders the structural type declaration from the accumulated
    /// members.
    pub fn build(&self) -> (r: String)
        ensures
            r@ == interface_text(self.name@, self.members()),
    {
        let items = member_set_items(&self.properties);
        let ghost ms = self.members();
        let mut s = "interface ".to_owned();
        s.append(self.name.as_str());
        s.append(" {");
        let mut i: usize = 0;
        proof {
            assert(concat_texts(indented(ms).take(0)) =~= Seq::<char>::empty());
            assert(s@ =~= "interface "@ + self.name@ + " {"@ + concat_texts(
                indented(ms).take(0),
            ));
        }
        while i < items.len()
            invariant
                i <= items@.len(),
                items@.len() == ms.len(),
                forall|j: int| 0 <= j < items@.len() ==> items@[j]@ == ms[j],
                s@ == "interface "@ + self.name@ + " {"@ + concat_texts(indented(ms).take(i as int)),
            decreases items@.len() - i,
        {
            s.append("\n\t");
            s.append(items[i].as_str());
            proof {
                assert(indented(ms).take(i + 1) =~= indented(ms).take(i as int).push(
                    "\n\t"@ + ms[i as int],
                ));
                crate::text::lemma_concat_texts_push(indented(ms).take(i as int), "\n\t"@ + ms[i as int]);
            }
            i = i + 1;
        }
        s.append("\n}");
        proof {
            assert(indented(ms).take(ms.len() as int) =~= indented(ms));
        }
        s
    }
}

} // verus!
