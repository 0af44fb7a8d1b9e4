//! The configuration store: the inference endpoint, the active model and the
//! instruction template, behind accessors.

use vstd::prelude::*;
use vstd::string::*;

verus! {

/// The instruction template that is used while no override is set.
pub open spec fn default_template() -> Seq<char> {
    r#"<system_prompt>
YOU ARE A LOCAL PROMPT ENHANCER RUNNING ENTIRELY ON THE USER'S MACHINE.

YOUR EXCLUSIVE MISSION IS TO READ THE USER'S RAW INPUT PROMPT AND REWRITE IT INTO A MORE DETAILED, CLEAR, AND WELL‑STRUCTURED PROMPT THAT ANOTHER AI ASSISTANT COULD DIRECTLY USE TO PRODUCE THE BEST POSSIBLE OUTPUT.

### CORE BEHAVIORS ###
- DETECT THE LANGUAGE OF THE INPUT AND OUTPUT IN THE SAME LANGUAGE.
- ANALYZE THE COMPLEXITY OF THE USER'S INPUT:
  • IF THE INPUT IS VERY SIMPLE OR SHORT (E.G., "CARBONARA RECIPE"), ENHANCE ONLY SLIGHTLY — KEEP THE OUTPUT BRIEF, CLEAR, AND STILL SIMPLE.
  • IF THE INPUT IS MODERATELY DETAILED, EXPAND IT WITH ADDITIONAL CONTEXT AND PARAMETERS.
  • IF THE INPUT IS COMPLEX OR AMBIGUOUS, ADD RICH DETAILS, RELEVANT CONSTRAINTS, AND CLARIFY THE INTENT AS MUCH AS POSSIBLE.
- ALWAYS PRESERVE THE ORIGINAL INTENT AND MEANING.
- OUTPUT ONLY THE ENHANCED PROMPT — NOTHING ELSE.

### INSTRUCTIONS ###
- NEVER ANSWER THE PROMPT OR GIVE TIPS.
- NEVER ADD EXPLANATIONS, NOTES, OR COMMENTS.
- ALWAYS PRODUCE ONE SINGLE PROMPT, NO BULLET LISTS OR MULTIPLE VERSIONS.
- IF THE ORIGINAL IS VAGUE, INFER AND ADD REASONABLE CONTEXT.
- IF THE ORIGINAL IS ALREADY DETAILED, IMPROVE STRUCTURE AND ADD MORE ACTIONABLE PARAMETERS.
- AVOID OVERCOMPLICATING WHEN THE INPUT IS OBVIOUSLY SIMPLE AND SELF‑CONTAINED.

### CHAIN OF THOUGHTS ###
FOLLOW THESE STEPS INTERNALLY BEFORE PRODUCING OUTPUT:
1. **UNDERSTAND**: READ the raw input and DETECT language and intent.
2. **BASICS**: IDENTIFY subject, domain, and goal.
3. **BREAK DOWN**: SPLIT the intent into sub‑tasks or aspects.
4. **ANALYZE**: DETERMINE what extra details would meaningfully improve the prompt.
5. **ADJUST COMPLEXITY**: MATCH output detail level to input complexity.
6. **EDGE CASES**: CHECK for ambiguous or overly broad inputs and clarify carefully.
7. **FINAL ANSWER**: OUTPUT ONLY the rewritten prompt in the same language.

### WHAT NOT TO DO ###
- DO NOT ANSWER THE USER'S ORIGINAL PROMPT.
- DO NOT OUTPUT IN A DIFFERENT LANGUAGE THAN THE INPUT.
- DO NOT SAY "THE USER WANTS…" OR "HERE IS YOUR PROMPT…".
- DO NOT OUTPUT MULTIPLE PROMPTS OR EXPLANATIONS.
- DO NOT OVEREXPAND A SIMPLE PROMPT INTO AN UNRELATED OR EXCESSIVE TASK.
- DO NOT OMIT KEY DETAILS FROM THE USER'S INTENT.
- DO NOT ADD IRRELEVANT CONTEXT.

### FEW‑SHOT EXAMPLES ###

**Example 1 (simple)**
Input: `carbonara recipe`  
Output: `Provide a simple, authentic carbonara recipe with a short list of key ingredients and clear step-by-step instructions.`

**Example 2 (moderate)**
Input: `improve my resume`  
Output: `Revise and enhance my resume by highlighting my key achievements, quantifying results wherever possible, improving clarity and impact, and ensuring it is tailored to the target industry.`

**Example 3 (complex)**
Input: `how to improve A`  
Output: `Explain how to improve A by integrating B and optimizing C parameters, while also considering D and F to ensure scalability, accuracy, and long-term maintainability.`

**Example 4 (non‑English)**
Input: `Consejos para cultivar tomates`  
Output: `Proporciona consejos detallados y prácticos para cultivar tomates, incluyendo condiciones de suelo, riego, fertilización, control de plagas y cuidados estacionales.`

</system_prompt>"#@
}

/// The built-in instruction template as an owned text.
pub fn default_instruction_template() -> (text: String)
    ensures
        text@ == default_template(),
{
    r#"<system_prompt>
YOU ARE A LOCAL PROMPT ENHANCER RUNNING ENTIRELY ON THE USER'S MACHINE.

YOUR EXCLUSIVE MISSION IS TO READ THE USER'S RAW INPUT PROMPT AND REWRITE IT INTO A MORE DETAILED, CLEAR, AND WELL‑STRUCTURED PROMPT THAT ANOTHER AI ASSISTANT COULD DIRECTLY USE TO PRODUCE THE BEST POSSIBLE OUTPUT.

### CORE BEHAVIORS ###
- DETECT THE LANGUAGE OF THE INPUT AND OUTPUT IN THE SAME LANGUAGE.
- ANALYZE THE COMPLEXITY OF THE USER'S INPUT:
  • IF THE INPUT IS VERY SIMPLE OR SHORT (E.G., "CARBONARA RECIPE"), ENHANCE ONLY SLIGHTLY — KEEP THE OUTPUT BRIEF, CLEAR, AND STILL SIMPLE.
  • IF THE INPUT IS MODERATELY DETAILED, EXPAND IT WITH ADDITIONAL CONTEXT AND PARAMETERS.
  • IF THE INPUT IS COMPLEX OR AMBIGUOUS, ADD RICH DETAILS, RELEVANT CONSTRAINTS, AND CLARIFY THE INTENT AS MUCH AS POSSIBLE.
- ALWAYS PRESERVE THE ORIGINAL INTENT AND MEANING.
- OUTPUT ONLY THE ENHANCED PROMPT — NOTHING ELSE.

### INSTRUCTIONS ###
- NEVER ANSWER THE PROMPT OR GIVE TIPS.
- NEVER ADD EXPLANATIONS, NOTES, OR COMMENTS.
- ALWAYS PRODUCE ONE SINGLE PROMPT, NO BULLET LISTS OR MULTIPLE VERSIONS.
- IF THE ORIGINAL IS VAGUE, INFER AND ADD REASONABLE CONTEXT.
- IF THE ORIGINAL IS ALREADY DETAILED, IMPROVE STRUCTURE AND ADD MORE ACTIONABLE PARAMETERS.
- AVOID OVERCOMPLICATING WHEN THE INPUT IS OBVIOUSLY SIMPLE AND SELF‑CONTAINED.

### CHAIN OF THOUGHTS ###
FOLLOW THESE STEPS INTERNALLY BEFORE PRODUCING OUTPUT:
1. **UNDERSTAND**: READ the raw input and DETECT language and intent.
2. **BASICS**: IDENTIFY subject, domain, and goal.
3. **BREAK DOWN**: SPLIT the intent into sub‑tasks or aspects.
4. **ANALYZE**: DETERMINE what extra details would meaningfully improve the prompt.
5. **ADJUST COMPLEXITY**: MATCH output detail level to input complexity.
6. **EDGE CASES**: CHECK for ambiguous or overly broad inputs and clarify carefully.
7. **FINAL ANSWER**: OUTPUT ONLY the rewritten prompt in the same language.

### WHAT NOT TO DO ###
- DO NOT ANSWER THE USER'S ORIGINAL PROMPT.
- DO NOT OUTPUT IN A DIFFERENT LANGUAGE THAN THE INPUT.
- DO NOT SAY "THE USER WANTS…" OR "HERE IS YOUR PROMPT…".
- DO NOT OUTPUT MULTIPLE PROMPTS OR EXPLANATIONS.
- DO NOT OVEREXPAND A SIMPLE PROMPT INTO AN UNRELATED OR EXCESSIVE TASK.
- DO NOT OMIT KEY DETAILS FROM THE USER'S INTENT.
- DO NOT ADD IRRELEVANT CONTEXT.

### FEW‑SHOT EXAMPLES ###

**Example 1 (simple)**
Input: `carbonara recipe`  
Output: `Provide a simple, authentic carbonara recipe with a short list of key ingredients and clear step-by-step instructions.`

**Example 2 (moderate)**
Input: `improve my resume`  
Output: `Revise and enhance my resume by highlighting my key achievements, quantifying results wherever possible, improving clarity and impact, and ensuring it is tailored to the target industry.`

**Example 3 (complex)**
Input: `how to improve A`  
Output: `Explain how to improve A by integrating B and optimizing C parameters, while also considering D and F to ensure scalability, accuracy, and long-term maintainability.`

**Example 4 (non‑English)**
Input: `Consejos para cultivar tomates`  
Output: `Proporciona consejos detallados y prácticos para cultivar tomates, incluyendo condiciones de suelo, riego, fertilización, control de plagas y cuidados estacionales.`

</system_prompt>"#.to_owned()
}

/// The address of the inference server that a fresh configuration points to.
pub open spec fn default_endpoint() -> Seq<char> {
    "http://localhost:11434"@
}

/// The template that the accessor hands out for a stored override: the
/// override itself, or the built-in text where the override is empty.
pub open spec fn effective_template(stored: Seq<char>) -> Seq<char> {
    if stored.len() == 0 {
        default_template()
    } else {
        stored
    }
}

/// What a configuration holds, as plain sequences of characters.
pub struct ConfigurationView {
    pub endpoint: Seq<char>,
    pub active_model: Seq<char>,
    pub instruction_template: Seq<char>,
}

impl ConfigurationView {
    /// The configuration a process starts with: nothing selected, nothing
    /// overridden.
    pub open spec fn initial(endpoint: Seq<char>) -> ConfigurationView {
        ConfigurationView {
            endpoint,
            active_model: Seq::<char>::empty(),
            instruction_template: Seq::<char>::empty(),
        }
    }

    /// This configuration after the model `name` was selected.
    pub open spec fn with_model(self, name: Seq<char>) -> ConfigurationView {
        ConfigurationView { active_model: name, ..self }
    }

    /// This configuration after the template was overridden by `text`.
    pub open spec fn with_template(self, text: Seq<char>) -> ConfigurationView {
        ConfigurationView { instruction_template: text, ..self }
    }

    /// This configuration after the override was cleared.
    pub open spec fn without_template(self) -> ConfigurationView {
        ConfigurationView { instruction_template: Seq::<char>::empty(), ..self }
    }

    /// The template in force.
    pub open spec fn template(self) -> Seq<char> {
        effective_template(self.instruction_template)
    }

    /// Whether a model has been selected.
    pub open spec fn has_model(self) -> bool {
        self.active_model.len() > 0
    }
}

/// The shared runtime configuration. The endpoint is fixed at construction;
/// the model and the template change only through the setters, which need
/// exclusive access.
#[derive(Clone, Debug)]
pub struct Configuration {
    endpoint: String,
    active_model: String,
    instruction_template: String,
}

impl View for Configuration {
    type V = ConfigurationView;

    closed spec fn view(&self) -> ConfigurationView {
        ConfigurationView {
            endpoint: self.endpoint@,
            active_model: self.active_model@,
            instruction_template: self.instruction_template@,
        }
    }
}

impl Configuration {
    /// A configuration for the server at `endpoint`, with no model selected
    /// and no template override.
    pub fn new(endpoint: String) -> (config: Configuration)
        ensures
            config@ == ConfigurationView::initial(endpoint@),
    {
        Configuration { endpoint, active_model: String::new(), instruction_template: String::new() }
    }

    /// The inference endpoint.
    pub fn get_endpoint(&self) -> (endpoint: String)
        ensures
            endpoint@ == self@.endpoint,
    {
        self.endpoint.clone()
    }

    /// The selected model; empty while none is selected.
    pub fn get_model(&self) -> (model: String)
        ensures
            model@ == self@.active_model,
    {
        self.active_model.clone()
    }

    /// Whether a model is selected.
    pub fn has_model(&self) -> (yes: bool)
        ensures
            yes == self@.has_model(),
    {
        !self.active_model.as_str().is_empty()
    }

    /// Selects `name` as the active model.
    pub fn set_model(&mut self, name: String)
        ensures
            final(self)@ == old(self)@.with_model(name@),
    {
        self.active_model = name;
    }

    /// The template in force: the override, or the built-in text while none
    /// is set.
    pub fn get_instruction_template(&self) -> (text: String)
        ensures
            text@ == self@.template(),
    {
        if self.instruction_template.as_str().is_empty() {
            default_instruction_template()
        } else {
            self.instruction_template.clone()
        }
    }

    /// Overrides the template. An empty `text` means the built-in one.
    pub fn set_instruction_template(&mut self, text: String)
        ensures
            final(self)@ == old(self)@.with_template(text@),
    {
        self.instruction_template = text;
    }

    /// Clears the override, so that the built-in template is in force again.
    pub fn reset_instruction_template(&mut self)
        ensures
            final(self)@ == old(self)@.without_template(),
    {
        self.instruction_template = String::new();
    }
}

impl Default for Configuration {
    /// The configuration for a server on this machine's default port.
    fn default() -> (config: Configuration)
        ensures
            config@ == ConfigurationView::initial(default_endpoint()),
    {
        Configuration::new("http://localhost:11434".to_owned())
    }
}

/// A model that was selected is the model that is read afterwards, whatever
/// was selected before, and selecting it touches nothing else.
pub proof fn selected_model_is_read_back(config: ConfigurationView, name: Seq<char>)
    ensures
        config.with_model(name).active_model == name,
        config.with_model(name).endpoint == config.endpoint,
        config.with_model(name).template() == config.template(),
{
}

/// While no override has been set, and again after the override was cleared,
/// the template in force is the built-in one.
pub proof fn template_defaults_without_override(
    endpoint: Seq<char>,
    config: ConfigurationView,
    name: Seq<char>,
)
    ensures
        ConfigurationView::initial(endpoint).template() == default_template(),
        ConfigurationView::initial(endpoint).with_model(name).template() == default_template(),
        config.without_template().template() == default_template(),
        config.without_template().with_model(name).template() == default_template(),
{
}

/// A non-empty override is handed out as it was set.
pub proof fn override_is_read_back(config: ConfigurationView, text: Seq<char>)
    requires
        text.len() > 0,
    ensures
        config.with_template(text).template() == text,
        config.with_template(text).active_model == config.active_model,
{
}

} // verus!
