use crate::model::{Parameter, ParameterView};
use crate::strings::{decimal, decimal_text};
use vstd::prelude::*;
use vstd::string::StringExecFns;

verus! {

/// What the prompt begins with: how to reason about audio parameters.
pub const PROMPT_FRAMEWORK: &'static str = "# Audio Engineering Framework\n\nYou're setting MIDI CC values (0-127) for audio parameters. For each parameter, you must analyze:\n\n1. FUNCTION: What does this parameter change in the sound?\n2. DIRECTION: As values increase, does the effect increase or decrease?\n3. GOAL: What sound qualities does the user want based on the snapshot description?\n4. ALIGNMENT: How should this parameter be set to support those goals?\n\n## Parameter Category Framework\n\n### FILTERS - Control which frequencies pass through\n- High-pass filter (HPF): Removes bass frequencies. Higher values = less bass.\n- Low-pass filter (LPF): Removes treble frequencies. Lower values = less treble.\n- Band-pass filter (BPF): Isolates mid frequencies. Middle values typically best.\n\n### DYNAMICS - Control volume relationships\n- Compressor threshold: Lower values = more compression.\n- Compressor ratio: Higher values = more aggressive compression.\n- Gate threshold: Higher values = more gating (silence).\n\n### EFFECTS - Add sonic characteristics\n- Reverb/delay mix: Higher values = more wet sound.\n- Distortion/saturation: Higher values = more distorted sound.\n- Modulation (chorus/flanger/phaser): Higher values = more pronounced effect.\n\n### EQ - Shape frequency response\n- High frequency gain: Higher values = brighter sound.\n- Mid frequency gain: Higher values = more present sound.\n- Low frequency gain: Higher values = bassier sound.\n\n## Examples of Parameter Setting Reasoning\n\nExample 1:\n- Parameter: \"High-pass filter cutoff\"\n- Description: \"Full bass techno drop\"\n- Reasoning: This is a FILTER parameter that REMOVES bass as value increases. Since we want FULL BASS, we need to set this very LOW.\n- Value: 0 (No bass removal)\n\nExample 2:\n- Parameter: \"Reverb amount\"\n- Description: \"Dry, punchy drum section\"\n- Reasoning: This is an EFFECT parameter that ADDS space/wetness as value increases. Since we want DRY sound, we need to set this LOW.\n- Value: 10 (Minimal reverb)\n\nExample 3:\n- Parameter: \"Compressor threshold\"\n- Description: \"Heavily squashed pad sound\"\n- Reasoning: This is a DYNAMICS parameter where LOWER values cause MORE compression. Since we want HEAVILY SQUASHED sound, we need a LOW threshold.\n- Value: 30 (Heavy compression)\n\nExample 4:\n- Parameter: \"Low EQ gain\"\n- Description: \"Thin atmospheric pad, no sub frequencies\"\n- Reasoning: This is an EQ parameter that ADDS bass as value increases. Since we want a THIN sound with NO SUB, we need this LOW.\n- Value: 20 (Minimal bass boost)\n\n";

/// What the prompt ends with: the form of the answer.
pub const PROMPT_RESPONSE_FORMAT: &'static str = "\n## Response Format\n\nFor each parameter:\n1. Identify its category and function\n2. Analyze how it relates to the sound goals\n3. Determine the appropriate value\n4. Include your reasoning\n\nRespond with a JSON object in this format:\n{\n  \"values\": [\n    { \"cc\": <cc_number>, \"name\": \"<param_name>\", \"value\": <value_0_to_127>, \"reasoning\": \"Your step-by-step reasoning\" },\n    ...\n  ]\n}\n\nFocus on the internal logic of the relationship between parameter function, sound goals, and appropriate values.\n";

/// The system message that goes with every prompt.
pub const SYSTEM_MESSAGE: &'static str = "You are an expert audio engineer and music producer. You understand how audio parameters affect sound and how to set them to achieve specific sonic goals. Think step-by-step and use your knowledge of audio engineering principles to set appropriate parameter values.";

/// What is published where no key for the generating service is at hand.
pub const MISSING_KEY_MESSAGE: &'static str = "No OpenAI API key provided. Set OPENAI_API_KEY environment variable or in application settings.";

/// The line that tells of one parameter.
pub open spec fn parameter_line(parameter: ParameterView) -> Seq<char> {
    "- Name: "@ + parameter.name + ", CC: "@ + decimal_text(parameter.cc as nat)
        + ", Description: "@ + parameter.description + "\n"@
}

/// The lines that tell of the first `n` parameters.
pub open spec fn parameter_lines(parameters: Seq<ParameterView>, n: nat) -> Seq<char>
    decreases n,
{
    if n == 0 {
        Seq::empty()
    } else {
        parameter_lines(parameters, (n - 1) as nat) + parameter_line(parameters[n - 1])
    }
}

/// What the prompt says of the snap whose values are asked for.
pub open spec fn context_text(
    project_name: Seq<char>,
    bank_name: Seq<char>,
    snap_name: Seq<char>,
    snap_description: Seq<char>,
) -> Seq<char> {
    "## Snapshot Context\n\n"@ + "Project: "@ + project_name + "\n"@ + "Bank: "@ + bank_name
        + "\n"@ + "Snapshot Name: "@ + snap_name + "\n"@ + (if snap_description.len() > 0 {
        "Snapshot Description: "@ + snap_description + "\n\n"@
    } else {
        "Snapshot Description: Default balanced sound\n\n"@
    }) + "## Sound Goals Analysis\n\n"@
        + "Based on the snapshot description, extract the key sound qualities desired:\n\n"@ + (
    if snap_description.len() > 0 {
        Seq::empty()
    } else {
        "Using default balanced sound profile since no description provided.\n\n"@
    })
}

/// The whole prompt: the framework, the snap, the parameters, the form of
/// the answer.
pub open spec fn prompt_text(
    project_name: Seq<char>,
    bank_name: Seq<char>,
    snap_name: Seq<char>,
    snap_description: Seq<char>,
    parameters: Seq<ParameterView>,
) -> Seq<char> {
    PROMPT_FRAMEWORK@ + context_text(project_name, bank_name, snap_name, snap_description)
        + "## Parameters to Configure\n\n"@ + parameter_lines(parameters, parameters.len())
        + PROMPT_RESPONSE_FORMAT@
}

/// Builds the prompt that asks for the values of one snap.
pub fn build_audio_reasoning_prompt(
    project_name: &str,
    bank_name: &str,
    snap_name: &str,
    snap_description: &str,
    parameters: &Vec<Parameter>,
) -> (prompt: String)
    ensures
        prompt@ == prompt_text(
            project_name@,
            bank_name@,
            snap_name@,
            snap_description@,
            parameters@.map_values(|p: Parameter| p@),
        ),
{
    let mut prompt = PROMPT_FRAMEWORK.to_owned();
    prompt.append("## Snapshot Context\n\n");
    prompt.append("Project: ");
    prompt.append(project_name);
    prompt.append("\n");
    prompt.append("Bank: ");
    prompt.append(bank_name);
    prompt.append("\n");
    prompt.append("Snapshot Name: ");
    prompt.append(snap_name);
    prompt.append("\n");
    let described = !snap_description.is_empty();
    if described {
        prompt.append("Snapshot Description: ");
        prompt.append(snap_description);
        prompt.append("\n\n");
    } else {
        prompt.append("Snapshot Description: Default balanced sound\n\n");
    }
    prompt.append("## Sound Goals Analysis\n\n");
    prompt.append("Based on the snapshot description, extract the key sound qualities desired:\n\n");
    if !described {
        prompt.append("Using default balanced sound profile since no description provided.\n\n");
    }
    assert(prompt@ =~= PROMPT_FRAMEWORK@ + context_text(
        project_name@,
        bank_name@,
        snap_name@,
        snap_description@,
    ));
    prompt.append("## Parameters to Configure\n\n");
    let ghost head = prompt@;
    let ghost views = parameters@.map_values(|p: Parameter| p@);
    let mut i: usize = 0;
    while i < parameters.len()
        invariant
            i <= parameters.len(),
            views == parameters@.map_values(|p: Parameter| p@),
            prompt@ == head + parameter_lines(views, i as nat),
        decreases parameters.len() - i,
    {
        let ghost before = prompt@;
        prompt.append("- Name: ");
        prompt.append(parameters[i].name.as_str());
        prompt.append(", CC: ");
        let number = decimal(parameters[i].cc as u64);
        prompt.append(number.as_str());
        prompt.append(", Description: ");
        prompt.append(parameters[i].description.as_str());
        prompt.append("\n");
        assert(prompt@ =~= before + parameter_line(views[i as int]));
        assert(prompt@ =~= head + parameter_lines(views, (i + 1) as nat));
        i += 1;
    }
    prompt.append(PROMPT_RESPONSE_FORMAT);
    assert(prompt@ =~= prompt_text(
        project_name@,
        bank_name@,
        snap_name@,
        snap_description@,
        views,
    ));
    prompt
}

} // verus!
