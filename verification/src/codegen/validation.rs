use vstd::prelude::*;

use crate::codegen::model::{
    clone_decimal, clone_texts, meta_view, model_values, prop_view, MetaView, Model, ModelProperty,
    PropView, PropertyType,
};
use crate::codegen::model::model_map_values;
use crate::indexed::map_insert;
use crate::text::{
    concat_texts, dec_text_v, dec_view, lemma_concat_texts_push, nat_text, Decimal,
};
use indexmap::IndexMap;

verus! {

// ---------------------------------------------------------------------------
// Rules and their serialization.
// ---------------------------------------------------------------------------

/// A rule-chain fragment knows its own serialized text.
pub trait BuildableRule {
    spec fn text(&self) -> Seq<char>;

    fn build(&self) -> (r: String)
        ensures
            r@ == self.text(),
    ;
}

/// The serialized fragments of a run of rules, in order.
pub open spec fn rule_texts<B: BuildableRule>(rs: Seq<B>) -> Seq<Seq<char>> {
    rs.map_values(|r: B| r.text())
}

/// Serializes a run of rules after a fixed prefix fragment.
pub fn collect_rules<B: BuildableRule>(prefix: &str, rules: &[B]) -> (r: String)
    ensures
        r@ == prefix@ + concat_texts(rule_texts(rules@)),
{
    let mut s = prefix.to_owned();
    let mut i: usize = 0;
    proof {
        assert(s@ =~= prefix@ + concat_texts(rule_texts(rules@).take(0)));
    }
    while i < rules.len()
        invariant
            i <= rules@.len(),
            s@ == prefix@ + concat_texts(rule_texts(rules@).take(i as int)),
        decreases rules@.len() - i,
    {
        let built = rules[i].build();
        s.append(built.as_str());
        proof {
            assert(rule_texts(rules@).take(i + 1) =~= rule_texts(rules@).take(i as int).push(
                rules@[i as int].text(),
            ));
            lemma_concat_texts_push(rule_texts(rules@).take(i as int), rules@[i as int].text());
        }
        i = i + 1;
    }
    proof {
        assert(rule_texts(rules@).take(rules@.len() as int) =~= rule_texts(rules@));
    }
    s
}

/// The validation-rule library the serialized output targets.
#[derive(Debug)]
pub enum ValidatorLib {
    Yup,
}

/// The constraints derivable for a numeric property, in their fixed order.
#[derive(Clone, Debug)]
pub enum NumberRules {
    Min(Decimal),
    Max(Decimal),
}

impl BuildableRule for NumberRules {
    open spec fn text(&self) -> Seq<char> {
        match self {
            NumberRules::Min(value) => ".min("@ + dec_text_v(dec_view(value)) + ")"@,
            NumberRules::Max(value) => ".max("@ + dec_text_v(dec_view(value)) + ")"@,
        }
    }

    fn build(&self) -> (r: String) {
        match self {
            NumberRules::Min(value) => {
                let mut s = ".min(".to_owned();
                let v = value.render();
                s.append(v.as_str());
                s.append(")");
                s
            },
            NumberRules::Max(value) => {
                let mut s = ".max(".to_owned();
                let v = value.render();
                s.append(v.as_str());
                s.append(")");
                s
            },
        }
    }
}

/// The comma-joined, backtick-quoted list emitted for an enumeration; it
/// carries no enclosing call syntax of its own.
pub open spec fn oneof_text(vals: Seq<Seq<char>>) -> Seq<char>
    decreases vals.len(),
{
    if vals.len() == 0 {
        Seq::<char>::empty()
    } else if vals.len() == 1 {
        "`"@ + vals[0] + "`"@
    } else {
        oneof_text(vals.drop_last()) + ","@ + "`"@ + vals.last() + "`"@
    }
}

/// The constraints derivable for a string property, in their fixed order.
/// `Email` and `Uuid` belong to the serialization grammar but no ingestion
/// path derives them from schema metadata today.
#[derive(Clone, Debug)]
pub enum StringRules {
    Min(usize),
    Max(usize),
    Matches(String),
    OneOf(Vec<String>),
    Email,
    Uuid,
}

impl BuildableRule for StringRules {
    open spec fn text(&self) -> Seq<char> {
        match self {
            StringRules::Min(value) => ".min("@ + nat_text(*value as nat) + ")"@,
            StringRules::Max(value) => ".max("@ + nat_text(*value as nat) + ")"@,
            StringRules::Matches(regex) => ".matches(/"@ + regex@ + "/)"@,
            StringRules::OneOf(enumerate) => oneof_text(enumerate.deep_view()),
            StringRules::Email => ".email()"@,
            StringRules::Uuid => ".uuid()"@,
        }
    }

    fn build(&self) -> (r: String) {
        match self {
            StringRules::Min(value) => {
                let mut s = ".min(".to_owned();
                let v = crate::text::fmt_usize(*value);
                s.append(v.as_str());
                s.append(")");
                s
            },
            StringRules::Max(value) => {
                let mut s = ".max(".to_owned();
                let v = crate::text::fmt_usize(*value);
                s.append(v.as_str());
                s.append(")");
                s
            },
            StringRules::Matches(regex) => {
                let mut s = ".matches(/".to_owned();
                s.append(regex.as_str());
                s.append("/)");
                s
            },
            StringRules::OneOf(enumerate) => {
                let ghost dv = enumerate.deep_view();
                let mut s = String::new();
                let mut i: usize = 0;
                proof {
                    assert(dv.len() == enumerate@.len());
                    assert(s@ =~= oneof_text(dv.take(0)));
                }
                while i < enumerate.len()
                    invariant
                        i <= enumerate@.len(),
                        dv == enumerate.deep_view(),
                        dv.len() == enumerate@.len(),
                        s@ == oneof_text(dv.take(i as int)),
                    decreases enumerate@.len() - i,
                {
                    if i > 0 {
                        s.append(",");
                    }
                    s.append("`");
                    s.append(enumerate[i].as_str());
                    s.append("`");
                    proof {
                        assert(dv[i as int] == enumerate@[i as int]@);
                        if i == 0 {
                            assert(dv.take(1)[0] == dv[0]);
                            assert(s@ =~= oneof_text(dv.take(1)));
                        } else {
                            assert(dv.take(i + 1).drop_last() =~= dv.take(i as int));
                            assert(dv.take(i + 1).last() == dv[i as int]);
                            assert(s@ =~= oneof_text(dv.take(i + 1)));
                        }
                    }
                    i = i + 1;
                }
                proof {
                    assert(dv.take(dv.len() as int) =~= dv);
                }
                s
            },
            StringRules::Email => ".email()".to_owned(),
            StringRules::Uuid => ".uuid()".to_owned(),
        }
    }
}

// ---------------------------------------------------------------------------
// Per-property rule chains.
// ---------------------------------------------------------------------------

/// The rules derived for one property: a type tag with its constraint
/// fragments, or the permissive sentinel for everything else.
#[derive(Clone, Debug)]
pub enum PropRules {
    String(Vec<StringRules>),
    Number(Vec<NumberRules>),
    Unsupported,
}

/// The full serialized chain of a property's rules: the type tag, the
/// fragments in order, and the terminating required constraint, which every
/// property receives.
pub open spec fn prop_rules_text(pr: PropRules) -> Seq<char> {
    (match pr {
        PropRules::String(rules) => ".string()"@ + concat_texts(rule_texts(rules@)),
        PropRules::Number(rules) => ".number()"@ + concat_texts(rule_texts(rules@)),
        PropRules::Unsupported => ".mixed()"@,
    }) + ".required()"@
}

impl PropRules {
    pub fn build(&self) -> (r: String)
        ensures
            r@ == prop_rules_text(*self),
    {
        let mut ser = match self {
            PropRules::String(rules) => collect_rules(".string()", rules.as_slice()),
            PropRules::Number(rules) => collect_rules(".number()", rules.as_slice()),
            PropRules::Unsupported => ".mixed()".to_owned(),
        };
        ser.append(".required()");
        ser
    }
}

// ---------------------------------------------------------------------------
// Rule derivation from a property's metadata.
// ---------------------------------------------------------------------------

pub open spec fn num_min_frag(o: Option<crate::text::DecView>) -> Seq<char> {
    match o {
        Option::Some(d) => ".min("@ + dec_text_v(d) + ")"@,
        Option::None => Seq::<char>::empty(),
    }
}

pub open spec fn num_max_frag(o: Option<crate::text::DecView>) -> Seq<char> {
    match o {
        Option::Some(d) => ".max("@ + dec_text_v(d) + ")"@,
        Option::None => Seq::<char>::empty(),
    }
}

/// The fragments a numeric property derives: only the constraints present,
/// minimum first.
pub open spec fn number_frags(m: MetaView) -> Seq<char> {
    num_min_frag(m.minimum) + num_max_frag(m.maximum)
}

pub open spec fn len_min_frag(o: Option<usize>) -> Seq<char> {
    match o {
        Option::Some(n) => ".min("@ + nat_text(n as nat) + ")"@,
        Option::None => Seq::<char>::empty(),
    }
}

pub open spec fn len_max_frag(o: Option<usize>) -> Seq<char> {
    match o {
        Option::Some(n) => ".max("@ + nat_text(n as nat) + ")"@,
        Option::None => Seq::<char>::empty(),
    }
}

pub open spec fn pattern_frag(o: Option<Seq<char>>) -> Seq<char> {
    match o {
        Option::Some(p) => ".matches(/"@ + p + "/)"@,
        Option::None => Seq::<char>::empty(),
    }
}

pub open spec fn enum_frag(vals: Seq<Seq<char>>) -> Seq<char> {
    if vals.len() > 0 {
        oneof_text(vals)
    } else {
        Seq::<char>::empty()
    }
}

/// The fragments a string property derives, in their fixed order: length
/// minimum, length maximum, pattern, enumeration.
pub open spec fn string_frags(m: MetaView) -> Seq<char> {
    len_min_frag(m.min_length) + len_max_frag(m.max_length) + pattern_frag(m.pattern) + enum_frag(
        m.enumeration,
    )
}

/// The full serialized rule chain one property derives from its type and
/// its metadata.  A boolean property carries no rules variant of its own
/// and falls to the permissive sentinel, as does everything unsupported.
pub open spec fn derived_text(p: PropView) -> Seq<char> {
    match p.prop_type {
        PropertyType::Number => ".number()"@ + number_frags(p.data) + ".required()"@,
        PropertyType::String => ".string()"@ + string_frags(p.data) + ".required()"@,
        PropertyType::Boolean => ".mixed()"@ + ".required()"@,
        PropertyType::Unsupported => ".mixed()"@ + ".required()"@,
    }
}

// ---------------------------------------------------------------------------
// What the generator's rule map holds.
// ---------------------------------------------------------------------------

/// The entries of a validation generator's map, in insertion order: each
/// property name with the serialized rule chain stored under it.
pub uninterp spec fn rules_entries(m: IndexMap<String, PropRules>) -> Seq<(Seq<char>, Seq<char>)>;

/// Relies on indexmap::IndexMap::new: a freshly made map is empty.
#[verifier::external_body]
fn rules_map_new() -> (m: IndexMap<String, PropRules>)
    ensures
        rules_entries(m) == Seq::<(Seq<char>, Seq<char>)>::empty(),
{
    IndexMap::new()
}

/// Relies on indexmap::IndexMap::insert: an equivalent key keeps its place
/// in the order and has its value replaced; a new key goes last.
#[verifier::external_body]
fn rules_map_insert(m: &mut IndexMap<String, PropRules>, k: String, v: PropRules)
    ensures
        rules_entries(*final(m)) == map_insert(rules_entries(*old(m)), k@, prop_rules_text(v)),
{
    m.insert(k, v);
}

/// Relies on indexmap::IndexMap::iter: entries come out in their order.
#[verifier::external_body]
fn rules_map_items(m: &IndexMap<String, PropRules>) -> (r: Vec<(String, PropRules)>)
    ensures
        r@.len() == rules_entries(*m).len(),
        forall|i: int|
            0 <= i < r@.len() ==> r@[i].0@ == rules_entries(*m)[i].0 && prop_rules_text(r@[i].1)
                == rules_entries(*m)[i].1,
{
    m.iter().map(|(k, v)| (k.clone(), clone_prop_rules(v))).collect()
}

// ---------------------------------------------------------------------------
// Verified deep copies of rules.
// ---------------------------------------------------------------------------

fn clone_number_rule(r: &NumberRules) -> (c: NumberRules)
    ensures
        c.text() == r.text(),
{
    match r {
        NumberRules::Min(d) => NumberRules::Min(clone_decimal(d)),
        NumberRules::Max(d) => NumberRules::Max(clone_decimal(d)),
    }
}

fn clone_string_rule(r: &StringRules) -> (c: StringRules)
    ensures
        c.text() == r.text(),
{
    match r {
        StringRules::Min(n) => StringRules::Min(*n),
        StringRules::Max(n) => StringRules::Max(*n),
        StringRules::Matches(s) => StringRules::Matches(s.clone()),
        StringRules::OneOf(vals) => StringRules::OneOf(clone_texts(vals)),
        StringRules::Email => StringRules::Email,
        StringRules::Uuid => StringRules::Uuid,
    }
}

fn clone_number_vec(v: &Vec<NumberRules>) -> (c: Vec<NumberRules>)
    ensures
        rule_texts(c@) == rule_texts(v@),
{
    let mut c: Vec<NumberRules> = Vec::new();
    let mut i: usize = 0;
    while i < v.len()
        invariant
            i <= v@.len(),
            c@.len() == i,
            forall|j: int| 0 <= j < i ==> c@[j].text() == v@[j].text(),
        decreases v@.len() - i,
    {
        c.push(clone_number_rule(&v[i]));
        i = i + 1;
    }
    proof {
        assert(rule_texts(c@) =~= rule_texts(v@));
    }
    c
}

fn clone_string_vec(v: &Vec<StringRules>) -> (c: Vec<StringRules>)
    ensures
        rule_texts(c@) == rule_texts(v@),
{
    let mut c: Vec<StringRules> = Vec::new();
    let mut i: usize = 0;
    while i < v.len()
        invariant
            i <= v@.len(),
            c@.len() == i,
            forall|j: int| 0 <= j < i ==> c@[j].text() == v@[j].text(),
        decreases v@.len() - i,
    {
        c.push(clone_string_rule(&v[i]));
        i = i + 1;
    }
    proof {
        assert(rule_texts(c@) =~= rule_texts(v@));
    }
    c
}

fn clone_prop_rules(p: &PropRules) -> (c: PropRules)
    ensures
        prop_rules_text(c) == prop_rules_text(*p),
{
    match p {
        PropRules::String(rules) => PropRules::String(clone_string_vec(rules)),
        PropRules::Number(rules) => PropRules::Number(clone_number_vec(rules)),
        PropRules::Unsupported => PropRules::Unsupported,
    }
}

// ---------------------------------------------------------------------------
// The validation generator.
// ---------------------------------------------------------------------------

/// The rule-map entries that registering a run of properties leaves
/// behind, each property under its own name, a repeated name keeping its
/// place and taking the last rules derived.
pub open spec fn derived_entries(vals: Seq<PropView>) -> Seq<(Seq<char>, Seq<char>)>
    decreases vals.len(),
{
    if vals.len() == 0 {
        Seq::<(Seq<char>, Seq<char>)>::empty()
    } else {
        map_insert(derived_entries(vals.drop_last()), vals.last().name, derived_text(vals.last()))
    }
}

/// One object-literal entry of the exported schema.
pub open spec fn entry_text(e: (Seq<char>, Seq<char>)) -> Seq<char> {
    e.0 + ": yup"@ + e.1 + ",\n"@
}

pub open spec fn entries_texts(es: Seq<(Seq<char>, Seq<char>)>) -> Seq<Seq<char>> {
    es.map_values(|e: (Seq<char>, Seq<char>)| entry_text(e))
}

/// The exported schema-object-literal assignment for one model.
pub open spec fn validator_text(name: Seq<char>, es: Seq<(Seq<char>, Seq<char>)>) -> Seq<char> {
    "export const "@ + name + "Validator = yup.object().shape({ "@ + concat_texts(
        entries_texts(es),
    ) + " });\n"@
}

/// Derives and accumulates the validation rules of one model and renders
/// the exported schema expression.
#[derive(Debug)]
pub struct ValidationGenerator {
    pub name: String,
    pub properties: IndexMap<String, PropRules>,
}

impl ValidationGenerator {
    pub fn new(name: &str) -> (r: ValidationGenerator)
        ensures
            r.name@ == name@,
            rules_entries(r.properties) == Seq::<(Seq<char>, Seq<char>)>::empty(),
    {
        ValidationGenerator { name: name.to_owned(), properties: rules_map_new() }
    }

    /// Derives the rules for one property from its type and metadata and
    /// stores them under the property's name.
    pub fn register_property(&mut self, prop: &ModelProperty)
        ensures
            final(self).name@ == old(self).name@,
            rules_entries(final(self).properties) == map_insert(
                rules_entries(old(self).properties),
                prop.name@,
                derived_text(prop_view(prop)),
            ),
    {
        let ghost m = meta_view(&prop.data);
        let prop_rule: PropRules = match prop.prop_type {
            PropertyType::Number => {
                let mut rules: Vec<NumberRules> = Vec::new();
                proof {
                    assert(rule_texts(rules@) =~= Seq::<Seq<char>>::empty());
                }
                if let Option::Some(min) = &prop.data.minimum {
                    let ghost before = rules@;
                    rules.push(NumberRules::Min(clone_decimal(min)));
                    proof {
                        assert(rule_texts(rules@) =~= rule_texts(before).push(
                            rules@.last().text(),
                        ));
                        lemma_concat_texts_push(rule_texts(before), rules@.last().text());
                    }
                }
                proof {
                    assert(concat_texts(rule_texts(rules@)) =~= num_min_frag(m.minimum));
                }
                if let Option::Some(max) = &prop.data.maximum {
                    let ghost before = rules@;
                    rules.push(NumberRules::Max(clone_decimal(max)));
                    proof {
                        assert(rule_texts(rules@) =~= rule_texts(before).push(
                            rules@.last().text(),
                        ));
                        lemma_concat_texts_push(rule_texts(before), rules@.last().text());
                    }
                }
                proof {
                    assert(concat_texts(rule_texts(rules@)) =~= number_frags(m));
                }
                PropRules::Number(rules)
            },
            PropertyType::String => {
                let mut rules: Vec<StringRules> = Vec::new();
                proof {
                    assert(rule_texts(rules@) =~= Seq::<Seq<char>>::empty());
                }
                if let Option::Some(min) = &prop.data.min_length {
                    let ghost before = rules@;
                    rules.push(StringRules::Min(*min));
                    proof {
                        assert(rule_texts(rules@) =~= rule_texts(before).push(
                            rules@.last().text(),
                        ));
                        lemma_concat_texts_push(rule_texts(before), rules@.last().text());
                    }
                }
                proof {
                    assert(concat_texts(rule_texts(rules@)) =~= len_min_frag(m.min_length));
                }
                if let Option::Some(max) = &prop.data.max_length {
                    let ghost before = rules@;
                    rules.push(StringRules::Max(*max));
                    proof {
                        assert(rule_texts(rules@) =~= rule_texts(before).push(
                            rules@.last().text(),
                        ));
                        lemma_concat_texts_push(rule_texts(before), rules@.last().text());
                    }
                }
                proof {
                    assert(concat_texts(rule_texts(rules@)) =~= len_min_frag(m.min_length)
                        + len_max_frag(m.max_length));
                }
                if let Option::Some(pattern) = &prop.data.pattern {
                    let ghost before = rules@;
                    rules.push(StringRules::Matches(pattern.clone()));
                    proof {
                        assert(rule_texts(rules@) =~= rule_texts(before).push(
                            rules@.last().text(),
                        ));
                        lemma_concat_texts_push(rule_texts(before), rules@.last().text());
                    }
                }
                proof {
                    assert(concat_texts(rule_texts(rules@)) =~= len_min_frag(m.min_length)
                        + len_max_frag(m.max_length) + pattern_frag(m.pattern));
                }
                if prop.data.enumeration.len() > 0 {
                    let ghost before = rules@;
                    rules.push(StringRules::OneOf(clone_texts(&prop.data.enumeration)));
                    proof {
                        assert(rules@.last().text() == oneof_text(m.enumeration));
                        assert(rule_texts(rules@) =~= rule_texts(before).push(
                            rules@.last().text(),
                        ));
                        lemma_concat_texts_push(rule_texts(before), rules@.last().text());
                    }
                }
                proof {
                    assert(m.enumeration.len() == prop.data.enumeration@.len());
                    assert(concat_texts(rule_texts(rules@)) =~= string_frags(m));
                }
                PropRules::String(rules)
            },
            PropertyType::Boolean => PropRules::Unsupported,
            PropertyType::Unsupported => PropRules::Unsupported,
        };
        proof {
            assert(prop_rules_text(prop_rule) =~= derived_text(prop_view(prop)));
        }
        rules_map_insert(&mut self.properties, prop.name.clone(), prop_rule);
    }

    /// Builds the generator for one model by registering each of its
    /// properties in order.
    pub fn from(model: &Model) -> (r: ValidationGenerator)
        ensures
            r.name@ == model.name@,
            rules_entries(r.properties) == derived_entries(model_values(model.properties)),
    {
        let mut generator = ValidationGenerator::new(model.name.as_str());
        let props = model_map_values(&model.properties);
        let ghost vw = model_values(model.properties);
        let mut i: usize = 0;
        proof {
            assert(derived_entries(vw.take(0)) =~= Seq::<(Seq<char>, Seq<char>)>::empty());
        }
        while i < props.len()
            invariant
                i <= props@.len(),
                props@.len() == vw.len(),
                forall|j: int| 0 <= j < props@.len() ==> prop_view(&props@[j]) == vw[j],
                generator.name@ == model.name@,
                rules_entries(generator.properties) == derived_entries(vw.take(i as int)),
            decreases props@.len() - i,
        {
            generator.register_property(&props[i]);
            proof {
                assert(vw.take(i + 1).drop_last() =~= vw.take(i as int));
                assert(vw.take(i + 1).last() == vw[i as int]);
                assert(props@[i as int].name@ == vw[i as int].name);
            }
            i = i + 1;
        }
        proof {
            assert(vw.take(vw.len() as int) =~= vw);
        }
        generator
    }

    /// Renders the exported schema-object-literal assignment from the
    /// accumulated rules.
    pub fn build(&self) -> (r: String)
        ensures
            r@ == validator_text(self.name@, rules_entries(self.properties)),
    {
        let items = rules_map_items(&self.properties);
        let ghost es = rules_entries(self.properties);
        let mut s = "export const ".to_owned();
        s.append(self.name.as_str());
        s.append("Validator = yup.object().shape({ ");
        let mut i: usize = 0;
        proof {
            assert(s@ =~= "export const "@ + self.name@ + "Validator = yup.object().shape({ "@
                + concat_texts(entries_texts(es).take(0)));
        }
        while i < items.len()
            invariant
                i <= items@.len(),
                items@.len() == es.len(),
                forall|j: int|
                    0 <= j < items@.len() ==> items@[j].0@ == es[j].0 && prop_rules_text(
                        items@[j].1,
                    ) == es[j].1,
                s@ == "export const "@ + self.name@ + "Validator = yup.object().shape({ "@
                    + concat_texts(entries_texts(es).take(i as int)),
            decreases items@.len() - i,
        {
            let pair = &items[i];
            s.append(pair.0.as_str());
            s.append(": yup");
            let built = pair.1.build();
            s.append(built.as_str());
            s.append(",\n");
            proof {
                assert(entries_texts(es).take(i + 1) =~= entries_texts(es).take(i as int).push(
                    entry_text(es[i as int]),
                ));
                lemma_concat_texts_push(entries_texts(es).take(i as int), entry_text(es[i as int]));
            }
            i = i + 1;
        }
        s.append(" });\n");
        proof {
            assert(entries_texts(es).take(es.len() as int) =~= entries_texts(es));
        }
        s
    }
}

} // verus!
