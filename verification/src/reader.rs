use vstd::prelude::*;

use crate::codegen::model::{
    ann_view, clone_annotations, clone_metadata, meta_view, model_entries, model_map_insert,
    model_map_new, prop_view, AnnView, Model, ModelProperty, PropView, PropertyMetadata,
    PropertyType, SchemaAnnotations,
};
use crate::indexed::map_insert;

verus! {

// ---------------------------------------------------------------------------
// The parsed schema document, reduced to what normalization reads.
// ---------------------------------------------------------------------------

/// A whole schema document: the named schemas of its components section,
/// in the document's own order, or nothing when the section is absent.
pub struct RawDocument {
    pub schemas: Option<Vec<RawNamedSchema>>,
}

/// One named top-level schema entry.
pub struct RawNamedSchema {
    pub name: String,
    pub schema: RawSchemaEntry,
}

/// A top-level entry is either a cross-document reference or an inline
/// definition.
pub enum RawSchemaEntry {
    Reference,
    Inline(RawSchema),
}

/// An inline top-level definition: its annotations and its kind.
pub struct RawSchema {
    pub data: SchemaAnnotations,
    pub kind: RawSchemaKind,
}

/// The root kind of an inline definition: an object with its properties, a
/// primitive type, or a composite form (a combinator the normalizer does
/// not understand).
pub enum RawSchemaKind {
    Object(Vec<RawProperty>),
    Primitive,
    Composite,
}

/// One property of an object schema.
pub struct RawProperty {
    pub name: String,
    pub entry: RawPropertyEntry,
}

/// A property is either a reference or an inline definition.
pub enum RawPropertyEntry {
    Reference,
    Inline(RawPropertySchema),
}

/// An inline property definition: its constraint metadata and its kind.
pub struct RawPropertySchema {
    pub data: PropertyMetadata,
    pub kind: RawPropertyKind,
}

/// The kind of an inline property: one of the three supported types, some
/// other concrete type, or a composite form that is no type at all.
#[derive(Clone, Copy, Debug, PartialEq, Eq, Structural)]
pub enum RawPropertyKind {
    Number,
    String,
    Boolean,
    OtherType,
    Composite,
}

/// A fatal document-level failure: the whole run for the document stops.
#[derive(Clone, Copy, Debug, PartialEq, Eq, Structural)]
pub enum ReadError {
    /// The document text failed to parse; raised at the parse boundary,
    /// before normalization sees the document.
    MalformedDocument,
    /// The document holds no components section to draw schemas from.
    MissingComponents,
}

// ---------------------------------------------------------------------------
// What normalization produces.
// ---------------------------------------------------------------------------

/// The closed property type a concrete raw kind maps to; everything beyond
/// the three supported types collapses to `Unsupported`.
pub open spec fn mapped_type(k: RawPropertyKind) -> PropertyType {
    match k {
        RawPropertyKind::Number => PropertyType::Number,
        RawPropertyKind::String => PropertyType::String,
        RawPropertyKind::Boolean => PropertyType::Boolean,
        RawPropertyKind::OtherType => PropertyType::Unsupported,
        RawPropertyKind::Composite => PropertyType::Unsupported,
    }
}

/// The type a raw kind yields: nothing for a composite form, which is no
/// type at all, and the mapped closed type otherwise.
pub open spec fn unwrapped_type(k: RawPropertyKind) -> Option<PropertyType> {
    match k {
        RawPropertyKind::Composite => Option::None,
        _ => Option::Some(mapped_type(k)),
    }
}

/// Whether one property survives normalization: a reference is skipped,
/// and so is an inline definition whose kind is no type.
pub open spec fn prop_kept(p: RawProperty) -> bool {
    match p.entry {
        RawPropertyEntry::Inline(s) => !(s.kind is Composite),
        RawPropertyEntry::Reference => false,
    }
}

/// The model property a kept raw property becomes.
pub open spec fn raw_prop_view(p: RawProperty) -> PropView {
    match p.entry {
        RawPropertyEntry::Inline(s) => PropView {
            name: p.name@,
            data: meta_view(&s.data),
            prop_type: mapped_type(s.kind),
        },
        RawPropertyEntry::Reference => PropView {
            name: p.name@,
            data: crate::codegen::model::empty_meta(),
            prop_type: PropertyType::Unsupported,
        },
    }
}

/// The property map a run of raw properties normalizes to: kept properties
/// in order under their names, a repeated name keeping its place and
/// taking the last definition written.
pub open spec fn read_props(ps: Seq<RawProperty>) -> Seq<(Seq<char>, PropView)>
    decreases ps.len(),
{
    if ps.len() == 0 {
        Seq::<(Seq<char>, PropView)>::empty()
    } else {
        let prev = read_props(ps.drop_last());
        if prop_kept(ps.last()) {
            map_insert(prev, ps.last().name@, raw_prop_view(ps.last()))
        } else {
            prev
        }
    }
}

/// Whether one named schema survives normalization: only an inline
/// definition whose root is an object does.
pub open spec fn entry_kept(e: RawNamedSchema) -> bool {
    match e.schema {
        RawSchemaEntry::Inline(s) => s.kind is Object,
        RawSchemaEntry::Reference => false,
    }
}

/// The content of one model a kept schema entry becomes.
#[verifier::ext_equal]
pub ghost struct ModelSummary {
    pub name: Seq<char>,
    pub data: AnnView,
    pub props: Seq<(Seq<char>, PropView)>,
}

pub open spec fn summary_of(e: RawNamedSchema) -> ModelSummary {
    match e.schema {
        RawSchemaEntry::Inline(s) => match s.kind {
            RawSchemaKind::Object(ps) => ModelSummary {
                name: e.name@,
                data: ann_view(&s.data),
                props: read_props(ps@),
            },
            _ => ModelSummary {
                name: e.name@,
                data: ann_view(&s.data),
                props: Seq::<(Seq<char>, PropView)>::empty(),
            },
        },
        RawSchemaEntry::Reference => ModelSummary {
            name: e.name@,
            data: AnnView { nullable: false, description: Option::None },
            props: Seq::<(Seq<char>, PropView)>::empty(),
        },
    }
}

/// The models a run of named schema entries normalizes to, in the
/// document's order, with every reference and every non-object root left
/// out.
pub open spec fn read_models(es: Seq<RawNamedSchema>) -> Seq<ModelSummary>
    decreases es.len(),
{
    if es.len() == 0 {
        Seq::<ModelSummary>::empty()
    } else {
        let prev = read_models(es.drop_last());
        if entry_kept(es.last()) {
            prev.push(summary_of(es.last()))
        } else {
            prev
        }
    }
}

/// Whether a built model carries exactly the content of a summary.
pub open spec fn model_matches(m: Model, s: ModelSummary) -> bool {
    m.name@ == s.name && ann_view(&m.data) == s.data && model_entries(m.properties) == s.props
}

/// Normalization never leaves a duplicate property name in a model: a name
/// written again keeps its place and takes the last definition.
pub proof fn lemma_read_props_keys_unique(ps: Seq<RawProperty>)
    ensures
        crate::indexed::keys_unique(read_props(ps)),
    decreases ps.len(),
{
    if ps.len() > 0 {
        lemma_read_props_keys_unique(ps.drop_last());
        if prop_kept(ps.last()) {
            crate::indexed::lemma_map_insert_keys_unique(
                read_props(ps.drop_last()),
                ps.last().name@,
                raw_prop_view(ps.last()),
            );
        }
    }
}

// ---------------------------------------------------------------------------
// Normalization.
// ---------------------------------------------------------------------------

/// Yields the type of a raw property kind, or nothing when the kind is a
/// composite form and so no type at all.
pub fn unwrap_type(kind: &RawPropertyKind) -> (r: Option<PropertyType>)
    ensures
        r == unwrapped_type(*kind),
{
    match kind {
        RawPropertyKind::Number => Option::Some(PropertyType::Number),
        RawPropertyKind::String => Option::Some(PropertyType::String),
        RawPropertyKind::Boolean => Option::Some(PropertyType::Boolean),
        RawPropertyKind::OtherType => Option::Some(PropertyType::Unsupported),
        RawPropertyKind::Composite => Option::None,
    }
}

/// Yields the properties of an object root, or nothing for a primitive or
/// composite root, both of which are unsupported and skipped.
pub fn extract_object_type(kind: &RawSchemaKind) -> (r: Option<&Vec<RawProperty>>)
    ensures
        match *kind {
            RawSchemaKind::Object(props) => r matches Option::Some(p) && *p == props,
            _ => r is None,
        },
{
    match kind {
        RawSchemaKind::Object(object) => Option::Some(object),
        _ => Option::None,
    }
}

/// Yields the inline definition of a top-level entry, or nothing for a
/// reference, which is unsupported and skipped.
pub fn extract_stack_type(schema: &RawSchemaEntry) -> (r: Option<&RawSchema>)
    ensures
        match *schema {
            RawSchemaEntry::Inline(inner) => r matches Option::Some(s) && *s == inner,
            RawSchemaEntry::Reference => r is None,
        },
{
    match schema {
        RawSchemaEntry::Inline(item) => Option::Some(item),
        RawSchemaEntry::Reference => Option::None,
    }
}

/// Yields the inline definition of a property, or nothing for a
/// reference, which is unsupported and skipped.
pub fn extract_heap_type(schema: &RawPropertyEntry) -> (r: Option<&RawPropertySchema>)
    ensures
        match *schema {
            RawPropertyEntry::Inline(inner) => r matches Option::Some(s) && *s == inner,
            RawPropertyEntry::Reference => r is None,
        },
{
    match schema {
        RawPropertyEntry::Inline(item) => Option::Some(item),
        RawPropertyEntry::Reference => Option::None,
    }
}

/// Normalizes a parsed document into the ordered run of models whose root
/// is an object, skipping references and unsupported forms, and failing
/// only when the components section is absent altogether.
pub fn consume_schemas(doc: &RawDocument) -> (r: Result<Vec<Model>, ReadError>)
    ensures
        match r {
            Result::Ok(models) => doc.schemas matches Option::Some(entries) && ({
                let expect = read_models(entries@);
                models@.len() == expect.len() && forall|i: int|
                    0 <= i < models@.len() ==> model_matches(models@[i], expect[i])
            }),
            Result::Err(e) => doc.schemas is None && e == ReadError::MissingComponents,
        },
{
    let schemas = match &doc.schemas {
        Option::Some(s) => s,
        Option::None => {
            return Result::Err(ReadError::MissingComponents);
        },
    };
    let ghost es = schemas@;
    let mut unwrapped_schemas: Vec<Model> = Vec::new();
    let mut i: usize = 0;
    proof {
        assert(read_models(es.take(0)) =~= Seq::<ModelSummary>::empty());
    }
    while i < schemas.len()
        invariant
            i <= es.len(),
            es == schemas@,
            unwrapped_schemas@.len() == read_models(es.take(i as int)).len(),
            forall|k: int|
                0 <= k < unwrapped_schemas@.len() ==> model_matches(
                    unwrapped_schemas@[k],
                    read_models(es.take(i as int))[k],
                ),
        decreases es.len() - i,
    {
        let entry = &schemas[i];
        proof {
            assert(es.take(i + 1).drop_last() =~= es.take(i as int));
            assert(es.take(i + 1).last() == es[i as int]);
        }
        if let Option::Some(schema) = extract_stack_type(&entry.schema) {
            if let Option::Some(props) = extract_object_type(&schema.kind) {
                let mut property_map = model_map_new();
                let ghost ps = props@;
                let mut j: usize = 0;
                proof {
                    assert(read_props(ps.take(0)) =~= Seq::<(Seq<char>, PropView)>::empty());
                }
                while j < props.len()
                    invariant
                        j <= ps.len(),
                        ps == props@,
                        model_entries(property_map) == read_props(ps.take(j as int)),
                    decreases ps.len() - j,
                {
                    let p = &props[j];
                    proof {
                        assert(ps.take(j + 1).drop_last() =~= ps.take(j as int));
                        assert(ps.take(j + 1).last() == ps[j as int]);
                    }
                    if let Option::Some(prop_schema) = extract_heap_type(&p.entry) {
                        if let Option::Some(prop_type) = unwrap_type(&prop_schema.kind) {
                            let model_prop = ModelProperty {
                                name: p.name.clone(),
                                data: clone_metadata(&prop_schema.data),
                                prop_type,
                            };
                            proof {
                                assert(prop_kept(ps[j as int]));
                                assert(prop_view(&model_prop) =~= raw_prop_view(ps[j as int]));
                            }
                            model_map_insert(&mut property_map, p.name.clone(), model_prop);
                        }
                    }
                    j = j + 1;
                }
                proof {
                    assert(ps.take(ps.len() as int) =~= ps);
                }
                let model = Model {
                    name: entry.name.clone(),
                    data: clone_annotations(&schema.data),
                    properties: property_map,
                };
                proof {
                    assert(entry_kept(es[i as int]));
                    assert(model_matches(model, summary_of(es[i as int])));
                }
                unwrapped_schemas.push(model);
            }
        }
        i = i + 1;
    }
    proof {
        assert(es.take(es.len() as int) =~= es);
    }
    Result::Ok(unwrapped_schemas)
}

} // verus!
