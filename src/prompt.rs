use vstd::prelude::*;
use vstd::string::*;

verus! {

/// The instruction placed before the output schema.
pub const PROMPT_PREAMBLE: &'static str = "Analyze this bill/invoice PDF and extract information from each one.

Return your response as a JSON object that conforms to this JSON schema:
";

/// The default-value rules and the formatting directive, placed after the
/// output schema.
pub const PROMPT_RULES: &'static str = "

Rules:
- If you cannot determine the amount for a document DO NOT try to guess use 0
- If you cannot determine a date field for the document DO NOT try to guess use today's date
- If you cannot determine the value for any other property DO NOT try to guess use 'Unknown'
- Return ONLY a single-line, minified JSON object with no whitespace, no newlines, no indentation, and no additional text";

/// The extraction instruction for a given output schema: the fixed
/// preamble, the schema verbatim, then the fixed rules.
pub open spec fn prompt_text(schema: Seq<char>) -> Seq<char> {
    PROMPT_PREAMBLE@ + schema + PROMPT_RULES@
}

/// Builds the extraction instruction that accompanies every document.
pub fn build_prompt(schema: &str) -> (r: String)
    ensures
        r@ == prompt_text(schema@),
{
    let mut prompt = String::from_str(PROMPT_PREAMBLE);
    prompt.append(schema);
    prompt.append(PROMPT_RULES);
    prompt
}

/// The instruction depends on the schema text alone: equal schemas give
/// equal prompts, character for character.
pub proof fn lemma_prompt_deterministic(schema1: Seq<char>, schema2: Seq<char>)
    requires
        schema1 == schema2,
    ensures
        prompt_text(schema1) == prompt_text(schema2),
{
}

/// The schema stands verbatim in the instruction, right after the preamble.
pub proof fn lemma_prompt_embeds_schema(schema: Seq<char>)
    ensures
        prompt_text(schema).subrange(
            PROMPT_PREAMBLE@.len() as int,
            (PROMPT_PREAMBLE@.len() + schema.len()) as int,
        ) == schema,
        prompt_text(schema).len() == PROMPT_PREAMBLE@.len() + schema.len()
            + PROMPT_RULES@.len(),
{
    assert(prompt_text(schema).subrange(
        PROMPT_PREAMBLE@.len() as int,
        (PROMPT_PREAMBLE@.len() + schema.len()) as int,
    ) =~= schema);
}

} // verus!
