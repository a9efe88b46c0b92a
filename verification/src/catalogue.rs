//! Models that are described by a table.

use crate::text;
use crate::types;
use crate::types::{
    CapabilitiesView, FullModelInfo, FullModelInfoView, ModelCapabilities, ModelPricing,
};
use vstd::prelude::*;

verus! {

/// A line of a table of models. Prices are in billionths of a US dollar per thousand tokens.
pub struct ModelEntry {
    pub id: &'static str,
    pub name: &'static str,
    pub provider: &'static str,
    pub description: &'static str,
    pub context_window: u32,
    pub max_output_tokens: u32,
    pub vision: bool,
    pub caching: bool,
    pub prompt_price: u64,
    pub completion_price: u64,
    pub created: u64,
}

/// The name of a family of models: as it stands in identifiers, and as it stands in titles.
#[derive(Debug, Clone, PartialEq)]
pub struct ModelFamily {
    pub id: String,
    pub title: String,
}

/// A line of a table of models of one family. The identifier and the name are what follows the
/// family's; the description has the family's title in its middle. Prices are in billionths of a
/// US dollar per thousand tokens.
pub struct FamilyEntry {
    pub id_end: &'static str,
    pub name_end: &'static str,
    pub provider: &'static str,
    pub description_start: &'static str,
    pub description_end: &'static str,
    pub context_window: u32,
    pub max_output_tokens: u32,
    pub vision: bool,
    pub caching: bool,
    pub prompt_price: u64,
    pub completion_price: u64,
    pub created: u64,
}

/// The list that holds nothing but text.
pub open spec fn text_only() -> Seq<Seq<char>> {
    seq!["text"@]
}

/// What all models of the tables have in common: they call functions, stream, write JSON and cost
/// something.
pub open spec fn table_model(
    id: Seq<char>,
    name: Seq<char>,
    provider: Seq<char>,
    description: Seq<char>,
    context_window: u32,
    max_output_tokens: u32,
    vision: bool,
    caching: bool,
    modalities: Seq<Seq<char>>,
    prompt_price: u64,
    completion_price: u64,
    created: u64,
) -> FullModelInfoView {
    FullModelInfoView {
        id,
        name,
        provider,
        description: Some(description),
        context_window,
        max_output_tokens,
        capabilities: CapabilitiesView {
            function_calling: true,
            vision,
            streaming: true,
            json_mode: true,
            caching,
            max_tokens: max_output_tokens,
            context_window,
            input_modalities: modalities,
            output_modalities: modalities,
            strengths: Seq::empty(),
        },
        pricing: Some(
            ModelPricing {
                prompt_tokens: prompt_price,
                completion_tokens: completion_price,
                image_tokens: None,
                is_free: false,
            },
        ),
        created,
        available: true,
    }
}

/// The model that a line describes, which takes and gives text.
pub open spec fn entry_model(e: ModelEntry) -> FullModelInfoView {
    table_model(
        e.id@,
        e.name@,
        e.provider@,
        e.description@,
        e.context_window,
        e.max_output_tokens,
        e.vision,
        e.caching,
        text_only(),
        e.prompt_price,
        e.completion_price,
        e.created,
    )
}

/// The models that some lines describe.
pub open spec fn entry_models(entries: Seq<ModelEntry>) -> Seq<FullModelInfoView> {
    entries.map_values(|e: ModelEntry| entry_model(e))
}

/// The model of a family that a line describes. Nothing is said of what it takes and gives.
pub open spec fn family_model(family: ModelFamily, e: FamilyEntry) -> FullModelInfoView {
    table_model(
        family.id@ + e.id_end@,
        family.title@ + e.name_end@,
        e.provider@,
        e.description_start@ + family.title@ + e.description_end@,
        e.context_window,
        e.max_output_tokens,
        e.vision,
        e.caching,
        Seq::empty(),
        e.prompt_price,
        e.completion_price,
        e.created,
    )
}

/// The models of a family that some lines describe.
pub open spec fn family_models(family: ModelFamily, entries: Seq<FamilyEntry>) -> Seq<
    FullModelInfoView,
> {
    entries.map_values(|e: FamilyEntry| family_model(family, e))
}

/// A list of one text.
pub fn one_text(s: &str) -> (r: Vec<String>)
    ensures
        text::texts(r@) == seq![s@],
{
    let mut v: Vec<String> = Vec::new();
    v.push(s.to_owned());
    assert(text::texts(v@) =~= seq![s@]);
    v
}

/// A list of no texts.
pub fn no_texts() -> (r: Vec<String>)
    ensures
        text::texts(r@) == Seq::<Seq<char>>::empty(),
{
    let v: Vec<String> = Vec::new();
    assert(text::texts(v@) =~= Seq::<Seq<char>>::empty());
    v
}

fn make_table_model(
    id: String,
    name: String,
    provider: &str,
    description: String,
    context_window: u32,
    max_output_tokens: u32,
    vision: bool,
    caching: bool,
    text_known: bool,
    prompt_price: u64,
    completion_price: u64,
    created: u64,
) -> (r: FullModelInfo)
    ensures
        r@ == table_model(
            id@,
            name@,
            provider@,
            description@,
            context_window,
            max_output_tokens,
            vision,
            caching,
            if text_known {
                text_only()
            } else {
                Seq::empty()
            },
            prompt_price,
            completion_price,
            created,
        ),
{
    let inputs = if text_known {
        one_text("text")
    } else {
        no_texts()
    };
    let outputs = if text_known {
        one_text("text")
    } else {
        no_texts()
    };
    FullModelInfo {
        id,
        name,
        provider: provider.to_owned(),
        description: Some(description),
        context_window,
        max_output_tokens,
        capabilities: ModelCapabilities {
            function_calling: true,
            vision,
            streaming: true,
            json_mode: true,
            caching,
            max_tokens: max_output_tokens,
            context_window,
            input_modalities: inputs,
            output_modalities: outputs,
            strengths: no_texts(),
        },
        pricing: Some(
            ModelPricing {
                prompt_tokens: prompt_price,
                completion_tokens: completion_price,
                image_tokens: None,
                is_free: false,
            },
        ),
        created,
        available: true,
    }
}

/// The models that some lines describe.
pub fn models(entries: &Vec<ModelEntry>) -> (r: Vec<FullModelInfo>)
    ensures
        types::models_view(r@) == entry_models(entries@),
{
    let mut out: Vec<FullModelInfo> = Vec::new();
    let mut i: usize = 0;
    while i < entries.len()
        invariant
            i <= entries@.len(),
            out@.len() == i,
            forall|j: int| 0 <= j < i ==> (#[trigger] out@[j])@ == entry_model(entries@[j]),
        decreases entries@.len() - i,
    {
        let e = &entries[i];
        out.push(
            make_table_model(
                e.id.to_owned(),
                e.name.to_owned(),
                e.provider,
                e.description.to_owned(),
                e.context_window,
                e.max_output_tokens,
                e.vision,
                e.caching,
                true,
                e.prompt_price,
                e.completion_price,
                e.created,
            ),
        );
        i = i + 1;
    }
    assert(types::models_view(out@) =~= entry_models(entries@));
    out
}

/// The models of a family that some lines describe.
pub fn models_of_family(family: &ModelFamily, entries: &Vec<FamilyEntry>) -> (r: Vec<FullModelInfo>)
    ensures
        types::models_view(r@) == family_models(*family, entries@),
{
    let mut out: Vec<FullModelInfo> = Vec::new();
    let mut i: usize = 0;
    while i < entries.len()
        invariant
            i <= entries@.len(),
            out@.len() == i,
            forall|j: int|
                0 <= j < i ==> (#[trigger] out@[j])@ == family_model(*family, entries@[j]),
        decreases entries@.len() - i,
    {
        let e = &entries[i];
        out.push(
            make_table_model(
                text::cat(family.id.as_str(), e.id_end),
                text::cat(family.title.as_str(), e.name_end),
                e.provider,
                text::cat3(e.description_start, family.title.as_str(), e.description_end),
                e.context_window,
                e.max_output_tokens,
                e.vision,
                e.caching,
                false,
                e.prompt_price,
                e.completion_price,
                e.created,
            ),
        );
        i = i + 1;
    }
    assert(types::models_view(out@) =~= family_models(*family, entries@));
    out
}

/// The texts as owned strings.
pub fn owned(list: &Vec<&'static str>) -> (r: Vec<String>)
    ensures
        text::texts(r@) == list@.map_values(|s: &'static str| s@),
{
    let mut out: Vec<String> = Vec::new();
    let mut i: usize = 0;
    while i < list.len()
        invariant
            i <= list@.len(),
            out@.len() == i,
            forall|j: int| 0 <= j < i ==> (#[trigger] out@[j])@ == list@[j]@,
        decreases list@.len() - i,
    {
        out.push(list[i].to_owned());
        i = i + 1;
    }
    assert(text::texts(out@) =~= list@.map_values(|s: &'static str| s@));
    out
}

/// A line of the table is one model, which calls functions, streams, writes JSON, takes and gives
/// text, and has its prices; the rest is as the line says.
pub proof fn law_models_of_lines(entries: Seq<ModelEntry>, i: int)
    requires
        0 <= i < entries.len(),
    ensures
        entry_models(entries).len() == entries.len(),
        ({
            let e = entries[i];
            let m = entry_models(entries)[i];
            &&& m.id == e.id@
            &&& m.name == e.name@
            &&& m.provider == e.provider@
            &&& m.description == Some(e.description@)
            &&& m.capabilities.input_modalities == seq!["text"@]
            &&& m.capabilities.output_modalities == seq!["text"@]
            &&& is_line(
                m,
                e.context_window,
                e.max_output_tokens,
                e.vision,
                e.caching,
                e.prompt_price,
                e.completion_price,
                e.created,
            )
        }),
{
}

/// A line of the table of a family is one model, under the family's names; the rest is as the line
/// says, and nothing is said of what the model takes and gives.
pub proof fn law_models_of_families(family: ModelFamily, entries: Seq<FamilyEntry>, i: int)
    requires
        0 <= i < entries.len(),
    ensures
        family_models(family, entries).len() == entries.len(),
        ({
            let e = entries[i];
            let m = family_models(family, entries)[i];
            &&& m.id == family.id@ + e.id_end@
            &&& m.name == family.title@ + e.name_end@
            &&& m.provider == e.provider@
            &&& m.description == Some(e.description_start@ + family.title@ + e.description_end@)
            &&& m.capabilities.input_modalities.len() == 0
            &&& m.capabilities.output_modalities.len() == 0
            &&& is_line(
                m,
                e.context_window,
                e.max_output_tokens,
                e.vision,
                e.caching,
                e.prompt_price,
                e.completion_price,
                e.created,
            )
        }),
{
}

/// The model has these limits, abilities and prices, and what all models of the tables have in
/// common.
pub open spec fn is_line(
    m: FullModelInfoView,
    window: u32,
    output: u32,
    vision: bool,
    caching: bool,
    prompt: u64,
    completion: u64,
    created: u64,
) -> bool {
    &&& m.context_window == window
    &&& m.max_output_tokens == output
    &&& m.capabilities.context_window == window
    &&& m.capabilities.max_tokens == output
    &&& m.capabilities.vision == vision
    &&& m.capabilities.caching == caching
    &&& m.capabilities.function_calling
    &&& m.capabilities.streaming
    &&& m.capabilities.json_mode
    &&& m.capabilities.strengths.len() == 0
    &&& m.pricing matches Some(p) && p.prompt_tokens == prompt && p.completion_tokens == completion
        && p.image_tokens is None && !p.is_free
    &&& m.created == created
    &&& m.available
}

} // verus!
