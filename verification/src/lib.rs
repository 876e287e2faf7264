use vstd::prelude::*;

pub mod codegen;
pub mod config;
pub mod constants;
pub mod indexed;
pub mod printer;
pub mod reader;
pub mod text;

use crate::codegen::generator::{dedup_texts, interface_text, member_texts};
use crate::codegen::model::{model_values, Model, PropView};
use crate::codegen::validation::{derived_entries, validator_text};
use crate::codegen::{InterfaceGenerator, ValidationGenerator};
use crate::config::ConfigManager;
use crate::printer::{Print, PrintHelper};
use crate::text::{concat_texts, lemma_concat_texts_push};

verus! {

// ---------------------------------------------------------------------------
// The pipeline.
// ---------------------------------------------------------------------------

/// One model's block in the generated file: its interface declaration, a
/// line break, its validator expression, and two blank lines.
pub open spec fn model_block_text(name: Seq<char>, vals: Seq<PropView>) -> Seq<char> {
    interface_text(name, dedup_texts(member_texts(vals))) + "\n"@ + validator_text(
        name,
        derived_entries(vals),
    ) + "\n\n\n"@
}

pub open spec fn model_block_of(m: Model) -> Seq<char> {
    model_block_text(m.name@, model_values(m.properties))
}

/// The generated text for a run of models, one block each, in order.
pub open spec fn rendered_models(ms: Seq<Model>) -> Seq<char> {
    concat_texts(ms.map_values(|m: Model| model_block_of(m)))
}

/// Both backends are pure functions of the model alone: generating twice
/// from the same model yields identical interface text, identical
/// validator text, and so an identical block.
pub proof fn lemma_generation_deterministic(
    name1: Seq<char>,
    vals1: Seq<PropView>,
    name2: Seq<char>,
    vals2: Seq<PropView>,
)
    requires
        name1 == name2,
        vals1 == vals2,
    ensures
        interface_text(name1, dedup_texts(member_texts(vals1))) == interface_text(
            name2,
            dedup_texts(member_texts(vals2)),
        ),
        validator_text(name1, derived_entries(vals1)) == validator_text(
            name2,
            derived_entries(vals2),
        ),
        model_block_text(name1, vals1) == model_block_text(name2, vals2),
{
}

/// Renders the blocks of a run of models, in order.
pub fn render_models(models: &Vec<Model>) -> (r: String)
    ensures
        r@ == rendered_models(models@),
{
    let ghost blocks = models@.map_values(|m: Model| model_block_of(m));
    let mut s = String::new();
    let mut i: usize = 0;
    proof {
        assert(s@ =~= concat_texts(blocks.take(0)));
    }
    while i < models.len()
        invariant
            i <= models@.len(),
            blocks == models@.map_values(|m: Model| model_block_of(m)),
            blocks.len() == models@.len(),
            s@ == concat_texts(blocks.take(i as int)),
        decreases models@.len() - i,
    {
        let generator = InterfaceGenerator::from(&models[i]);
        let serialized = generator.build();
        s.append(serialized.as_str());
        s.append("\n");
        let validation = ValidationGenerator::from(&models[i]);
        let built = validation.build();
        s.append(built.as_str());
        s.append("\n\n\n");
        proof {
            assert(blocks[i as int] == model_block_of(models@[i as int]));
            assert(blocks.take(i + 1) =~= blocks.take(i as int).push(blocks[i as int]));
            lemma_concat_texts_push(blocks.take(i as int), blocks[i as int]);
            assert(s@ =~= concat_texts(blocks.take(i + 1)));
        }
        i = i + 1;
    }
    proof {
        assert(blocks.take(blocks.len() as int) =~= blocks);
    }
    s
}

/// The generation run: the loaded configuration and the printer it
/// reports through.  The front end drives the per-project loop, reading
/// each schema and writing each output file, and renders every model's
/// block through `render_models`.
pub struct Sahih<W> {
    pub config: ConfigManager,
    pub printer: W,
}

impl<W> Sahih<W> where W: Print + PrintHelper {
    pub fn new(config: ConfigManager, printer: W) -> (r: Sahih<W>)
        ensures
            r == (Sahih { config, printer }),
    {
        Sahih { config, printer }
    }
}

} // verus!
