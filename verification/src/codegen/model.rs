use vstd::prelude::*;

use crate::indexed::map_insert;
use crate::text::{dec_view, DecView, Decimal};
use indexmap::IndexMap;

verus! {

// ---------------------------------------------------------------------------
// Property types.
// ---------------------------------------------------------------------------

/// The closed set of property types the generators understand; every other
/// schema type collapses to `Unsupported` at ingestion time, so the
/// generators never see the schema format's own type vocabulary.
#[derive(Clone, Copy, Debug, PartialEq, Eq, Structural)]
pub enum PropertyType {
    Number,
    String,
    Boolean,
    Unsupported,
}

// ---------------------------------------------------------------------------
// Schema annotations and constraint metadata.
// ---------------------------------------------------------------------------

/// Annotations of a whole schema entity, retained verbatim and not
/// interpreted by the generators.
#[derive(Clone, Debug)]
pub struct SchemaAnnotations {
    pub nullable: bool,
    pub description: Option<String>,
}

/// The mathematical content of `SchemaAnnotations`.
#[verifier::ext_equal]
pub ghost struct AnnView {
    pub nullable: bool,
    pub description: Option<Seq<char>>,
}

pub open spec fn ann_view(a: &SchemaAnnotations) -> AnnView {
    AnnView { nullable: a.nullable, description: opt_text(a.description) }
}

/// The superset of the constraint data a property can carry in the source
/// schema.  Which fields are meaningful depends on the property's type; the
/// rest ride along untouched.
#[derive(Clone, Debug)]
pub struct PropertyMetadata {
    pub minimum: Option<Decimal>,
    pub maximum: Option<Decimal>,
    pub min_length: Option<usize>,
    pub max_length: Option<usize>,
    pub pattern: Option<String>,
    pub enumeration: Vec<String>,
    pub format: Option<String>,
    pub nullable: bool,
    pub description: Option<String>,
}

/// The mathematical content of `PropertyMetadata`.
#[verifier::ext_equal]
pub ghost struct MetaView {
    pub minimum: Option<DecView>,
    pub maximum: Option<DecView>,
    pub min_length: Option<usize>,
    pub max_length: Option<usize>,
    pub pattern: Option<Seq<char>>,
    pub enumeration: Seq<Seq<char>>,
    pub format: Option<Seq<char>>,
    pub nullable: bool,
    pub description: Option<Seq<char>>,
}

pub open spec fn opt_text(o: Option<String>) -> Option<Seq<char>> {
    match o {
        Option::Some(s) => Option::Some(s@),
        Option::None => Option::None,
    }
}

pub open spec fn opt_dec(o: Option<Decimal>) -> Option<DecView> {
    match o {
        Option::Some(d) => Option::Some(dec_view(&d)),
        Option::None => Option::None,
    }
}

pub open spec fn meta_view(m: &PropertyMetadata) -> MetaView {
    MetaView {
        minimum: opt_dec(m.minimum),
        maximum: opt_dec(m.maximum),
        min_length: m.min_length,
        max_length: m.max_length,
        pattern: opt_text(m.pattern),
        enumeration: m.enumeration.deep_view(),
        format: opt_text(m.format),
        nullable: m.nullable,
        description: opt_text(m.description),
    }
}

impl core::default::Default for PropertyMetadata {
    /// Metadata with no constraint present at all.
    fn default() -> (r: PropertyMetadata)
        ensures
            meta_view(&r) == empty_meta(),
    {
        let r = PropertyMetadata {
            minimum: Option::None,
            maximum: Option::None,
            min_length: Option::None,
            max_length: Option::None,
            pattern: Option::None,
            enumeration: Vec::new(),
            format: Option::None,
            nullable: false,
            description: Option::None,
        };
        proof {
            assert(meta_view(&r) =~= empty_meta());
        }
        r
    }
}

/// The metadata of a property with no constraint present.
pub open spec fn empty_meta() -> MetaView {
    MetaView {
        minimum: Option::None,
        maximum: Option::None,
        min_length: Option::None,
        max_length: Option::None,
        pattern: Option::None,
        enumeration: Seq::<Seq<char>>::empty(),
        format: Option::None,
        nullable: false,
        description: Option::None,
    }
}

impl core::default::Default for SchemaAnnotations {
    fn default() -> (r: SchemaAnnotations)
        ensures
            ann_view(&r) == (AnnView { nullable: false, description: Option::None }),
    {
        SchemaAnnotations { nullable: false, description: Option::None }
    }
}

// ---------------------------------------------------------------------------
// The intermediate model.
// ---------------------------------------------------------------------------

/// One property of a model: its name, its constraint metadata and its
/// closed-variant type.
#[derive(Clone, Debug)]
pub struct ModelProperty {
    pub name: String,
    pub data: PropertyMetadata,
    pub prop_type: PropertyType,
}

/// The mathematical content of a `ModelProperty`.
#[verifier::ext_equal]
pub ghost struct PropView {
    pub name: Seq<char>,
    pub data: MetaView,
    pub prop_type: PropertyType,
}

pub open spec fn prop_view(p: &ModelProperty) -> PropView {
    PropView { name: p.name@, data: meta_view(&p.data), prop_type: p.prop_type }
}

/// One named schema entity: its name, its annotations, and its properties
/// in insertion order with no duplicate name (a repeated name keeps its
/// place and takes the last value written).
#[derive(Debug)]
pub struct Model {
    pub name: String,
    pub data: SchemaAnnotations,
    pub properties: IndexMap<String, ModelProperty>,
}

#[allow(non_camel_case_types)]
pub enum REQUIRED<'a> {
    REQUIRED(&'a ModelProperty),
}

// ---------------------------------------------------------------------------
// What a model's property map holds.
// ---------------------------------------------------------------------------

/// The entries of a model's property map, in insertion order: each key with
/// the content of the property stored under it.
pub uninterp spec fn model_entries(m: IndexMap<String, ModelProperty>) -> Seq<
    (Seq<char>, PropView),
>;

/// The property contents alone, in order.
pub open spec fn model_values(m: IndexMap<String, ModelProperty>) -> Seq<PropView> {
    model_entries(m).map_values(|e: (Seq<char>, PropView)| e.1)
}

/// Relies on indexmap::IndexMap::new: a freshly made map is empty.
#[verifier::external_body]
pub(crate) fn model_map_new() -> (m: IndexMap<String, ModelProperty>)
    ensures
        model_entries(m) == Seq::<(Seq<char>, PropView)>::empty(),
{
    IndexMap::new()
}

/// Relies on indexmap::IndexMap::insert: an equivalent key keeps its place
/// in the order and has its value replaced; a new key goes last.
#[verifier::external_body]
pub(crate) fn model_map_insert(m: &mut IndexMap<String, ModelProperty>, k: String, v: ModelProperty)
    ensures
        model_entries(*final(m)) == map_insert(model_entries(*old(m)), k@, prop_view(&v)),
{
    m.insert(k, v);
}

/// Relies on indexmap::IndexMap::iter: entries come out in their order.
#[verifier::external_body]
pub(crate) fn model_map_values(m: &IndexMap<String, ModelProperty>) -> (r: Vec<ModelProperty>)
    ensures
        r@.len() == model_entries(*m).len(),
        forall|i: int|
            0 <= i < r@.len() ==> prop_view(&r@[i]) == model_entries(*m)[i].1,
{
    m.iter().map(|(_, v)| clone_model_property(v)).collect()
}

// ---------------------------------------------------------------------------
// Verified deep copies.
// ---------------------------------------------------------------------------

pub(crate) fn copy_digits(v: &Vec<u8>) -> (r: Vec<u8>)
    ensures
        r@ == v@,
{
    let mut r: Vec<u8> = Vec::new();
    let mut i: usize = 0;
    while i < v.len()
        invariant
            i <= v@.len(),
            r@ == v@.take(i as int),
        decreases v@.len() - i,
    {
        r.push(v[i]);
        proof {
            assert(v@.take(i + 1) =~= v@.take(i as int).push(v@[i as int]));
        }
        i = i + 1;
    }
    proof {
        assert(v@.take(v@.len() as int) =~= v@);
    }
    r
}

pub(crate) fn clone_decimal(d: &Decimal) -> (r: Decimal)
    ensures
        dec_view(&r) == dec_view(d),
{
    Decimal {
        negative: d.negative,
        int_digits: copy_digits(&d.int_digits),
        frac_digits: copy_digits(&d.frac_digits),
    }
}

pub(crate) fn clone_opt_decimal(o: &Option<Decimal>) -> (r: Option<Decimal>)
    ensures
        opt_dec(r) == opt_dec(*o),
{
    match o {
        Option::Some(d) => Option::Some(clone_decimal(d)),
        Option::None => Option::None,
    }
}

pub(crate) fn clone_opt_string(o: &Option<String>) -> (r: Option<String>)
    ensures
        opt_text(r) == opt_text(*o),
{
    match o {
        Option::Some(s) => Option::Some(s.clone()),
        Option::None => Option::None,
    }
}

pub(crate) fn clone_texts(v: &Vec<String>) -> (r: Vec<String>)
    ensures
        r.deep_view() == v.deep_view(),
{
    let mut r: Vec<String> = Vec::new();
    let mut i: usize = 0;
    while i < v.len()
        invariant
            i <= v@.len(),
            r@.len() == i,
            forall|j: int| 0 <= j < i ==> r@[j]@ == v@[j]@,
        decreases v@.len() - i,
    {
        r.push(v[i].clone());
        i = i + 1;
    }
    proof {
        assert forall|j: int| 0 <= j < v@.len() implies r.deep_view()[j] == v.deep_view()[j] by {
            assert(r@[j]@ == v@[j]@);
        }
        assert(r.deep_view() =~= v.deep_view());
    }
    r
}

pub(crate) fn clone_annotations(a: &SchemaAnnotations) -> (r: SchemaAnnotations)
    ensures
        ann_view(&r) == ann_view(a),
{
    SchemaAnnotations { nullable: a.nullable, description: clone_opt_string(&a.description) }
}

pub(crate) fn clone_metadata(m: &PropertyMetadata) -> (r: PropertyMetadata)
    ensures
        meta_view(&r) == meta_view(m),
{
    PropertyMetadata {
        minimum: clone_opt_decimal(&m.minimum),
        maximum: clone_opt_decimal(&m.maximum),
        min_length: m.min_length,
        max_length: m.max_length,
        pattern: clone_opt_string(&m.pattern),
        enumeration: clone_texts(&m.enumeration),
        format: clone_opt_string(&m.format),
        nullable: m.nullable,
        description: clone_opt_string(&m.description),
    }
}

pub(crate) fn clone_model_property(p: &ModelProperty) -> (r: ModelProperty)
    ensures
        prop_view(&r) == prop_view(p),
{
    ModelProperty { name: p.name.clone(), data: clone_metadata(&p.data), prop_type: p.prop_type }
}

} // verus!
