//! Declarative pool construction.
//!
//! A caller describes each agent with an [`AgentConfig`]; [`plan_agents`]
//! resolves every supported config into an [`AgentPlan`] — the provider
//! label, the defaulted agent name and system prompt, and the credentials a
//! client constructor needs — while configs for providers without a
//! constructor are skipped.  [`RandAgentBuilder::simple_builder`] registers
//! the identity of every planned agent with the builder.

use vstd::prelude::*;

use crate::rand_agent::RandAgentBuilder;

verus! {

/// The closed set of provider tags a config may name.
#[derive(Clone, Copy, Debug, PartialEq, Eq, Structural)]
pub enum ProviderEnum {
    Anthropic,
    Cohere,
    Gemini,
    Huggingface,
    Mistral,
    OpenAi,
    OpenRouter,
    Together,
    XAI,
    Azure,
    DeepSeek,
    Galadriel,
    Groq,
    Hyperbolic,
    Mira,
    Moonshot,
    Ollama,
    Perplexity,
    Bigmodel,
}

impl ProviderEnum {
    /// The lower-case label an entry built from this tag carries as its
    /// provider name.
    pub open spec fn spec_label(self) -> Seq<char> {
        match self {
            ProviderEnum::Anthropic => "anthropic"@,
            ProviderEnum::Cohere => "cohere"@,
            ProviderEnum::Gemini => "gemini"@,
            ProviderEnum::Huggingface => "huggingface"@,
            ProviderEnum::Mistral => "mistral"@,
            ProviderEnum::OpenAi => "openai"@,
            ProviderEnum::OpenRouter => "openrouter"@,
            ProviderEnum::Together => "together"@,
            ProviderEnum::XAI => "xai"@,
            ProviderEnum::Azure => "azure"@,
            ProviderEnum::DeepSeek => "deepseek"@,
            ProviderEnum::Galadriel => "galadriel"@,
            ProviderEnum::Groq => "groq"@,
            ProviderEnum::Hyperbolic => "hyperbolic"@,
            ProviderEnum::Mira => "mira"@,
            ProviderEnum::Moonshot => "moonshot"@,
            ProviderEnum::Ollama => "ollama"@,
            ProviderEnum::Perplexity => "perplexity"@,
            ProviderEnum::Bigmodel => "bigmodel"@,
        }
    }

    /// Whether the registry has a constructor for this tag.  Azure and
    /// Perplexity currently have none: their configs are skipped with a
    /// warning instead of failing the whole pool.
    pub open spec fn spec_supported(self) -> bool {
        match self {
            ProviderEnum::Azure => false,
            ProviderEnum::Perplexity => false,
            _ => true,
        }
    }

    pub fn as_str(&self) -> (r: &'static str)
        ensures
            r@ == self.spec_label(),
    {
        match self {
            ProviderEnum::Anthropic => "anthropic",
            ProviderEnum::Cohere => "cohere",
            ProviderEnum::Gemini => "gemini",
            ProviderEnum::Huggingface => "huggingface",
            ProviderEnum::Mistral => "mistral",
            ProviderEnum::OpenAi => "openai",
            ProviderEnum::OpenRouter => "openrouter",
            ProviderEnum::Together => "together",
            ProviderEnum::XAI => "xai",
            ProviderEnum::Azure => "azure",
            ProviderEnum::DeepSeek => "deepseek",
            ProviderEnum::Galadriel => "galadriel",
            ProviderEnum::Groq => "groq",
            ProviderEnum::Hyperbolic => "hyperbolic",
            ProviderEnum::Mira => "mira",
            ProviderEnum::Moonshot => "moonshot",
            ProviderEnum::Ollama => "ollama",
            ProviderEnum::Perplexity => "perplexity",
            ProviderEnum::Bigmodel => "bigmodel",
        }
    }

    pub fn is_supported(&self) -> (r: bool)
        ensures
            r == self.spec_supported(),
    {
        match self {
            ProviderEnum::Azure => false,
            ProviderEnum::Perplexity => false,
            _ => true,
        }
    }
}

/// One declarative agent description, consumed once at pool construction.
#[derive(Debug)]
pub struct AgentConfig {
    pub id: i32,
    pub provider: ProviderEnum,
    pub model_name: String,
    pub api_key: String,
    /// Overrides the provider's default endpoint when present.
    pub api_base_url: Option<String>,
    /// Overrides the global default system prompt when present.
    pub system_prompt: Option<String>,
    /// Overrides the fixed default agent name when present.
    pub agent_name: Option<String>,
}

impl Clone for AgentConfig {
    fn clone(&self) -> (r: Self)
        ensures
            r == *self,
    {
        AgentConfig {
            id: self.id,
            provider: self.provider,
            model_name: self.model_name.clone(),
            api_key: self.api_key.clone(),
            api_base_url: clone_opt_string(&self.api_base_url),
            system_prompt: clone_opt_string(&self.system_prompt),
            agent_name: clone_opt_string(&self.agent_name),
        }
    }
}

fn clone_opt_string(s: &Option<String>) -> (r: Option<String>)
    ensures
        r == *s,
{
    match s {
        Option::Some(v) => Option::Some(v.clone()),
        Option::None => Option::None,
    }
}

/// Everything a client constructor needs for one supported config: the
/// resolved identity, credentials, and defaulted name and prompt.
#[derive(Debug)]
pub struct AgentPlan {
    pub id: i32,
    pub provider: ProviderEnum,
    pub provider_label: String,
    pub model_name: String,
    pub api_key: String,
    pub api_base_url: Option<String>,
    pub agent_name: String,
    pub system_prompt: String,
}

/// How one plan is resolved from one supported config and the global default
/// system prompt.
pub open spec fn spec_plan_matches(c: AgentConfig, global: Seq<char>, p: AgentPlan) -> bool {
    &&& p.id == c.id
    &&& p.provider == c.provider
    &&& p.provider_label@ == c.provider.spec_label()
    &&& p.model_name@ == c.model_name@
    &&& p.api_key@ == c.api_key@
    &&& match c.api_base_url {
        Option::Some(u) => p.api_base_url matches Option::Some(v) && v@ == u@,
        Option::None => p.api_base_url is None,
    }
    &&& p.agent_name@ == match c.agent_name {
        Option::Some(n) => n@,
        Option::None => "rand agent"@,
    }
    &&& p.system_prompt@ == match c.system_prompt {
        Option::Some(s) => s@,
        Option::None => global,
    }
}

/// The plans are exactly the supported configs, resolved in order.
pub open spec fn spec_plans_match(
    cs: Seq<AgentConfig>,
    global: Seq<char>,
    ps: Seq<AgentPlan>,
) -> bool
    decreases cs.len(),
{
    if cs.len() == 0 {
        ps.len() == 0
    } else if cs.last().provider.spec_supported() {
        &&& ps.len() > 0
        &&& spec_plan_matches(cs.last(), global, ps.last())
        &&& spec_plans_match(cs.drop_last(), global, ps.drop_last())
    } else {
        spec_plans_match(cs.drop_last(), global, ps)
    }
}

/// Resolve every supported config into a construction plan, in order;
/// configs whose provider has no constructor are skipped.
pub fn plan_agents(agent_configs: &Vec<AgentConfig>, global_system_prompt: &str) -> (r: Vec<
    AgentPlan,
>)
    ensures
        spec_plans_match(agent_configs@, global_system_prompt@, r@),
{
    let n = agent_configs.len();
    let mut plans: Vec<AgentPlan> = Vec::new();
    for k in 0..n
        invariant
            n == agent_configs@.len(),
            spec_plans_match(agent_configs@.take(k as int), global_system_prompt@, plans@),
    {
        let config = &agent_configs[k];
        let ghost prev = plans@;
        if config.provider.is_supported() {
            let agent_name = match &config.agent_name {
                Option::Some(name) => name.clone(),
                Option::None => "rand agent".to_owned(),
            };
            let system_prompt = match &config.system_prompt {
                Option::Some(prompt) => prompt.clone(),
                Option::None => global_system_prompt.to_owned(),
            };
            plans.push(AgentPlan {
                id: config.id,
                provider: config.provider,
                provider_label: config.provider.as_str().to_owned(),
                model_name: config.model_name.clone(),
                api_key: config.api_key.clone(),
                api_base_url: clone_opt_string(&config.api_base_url),
                agent_name,
                system_prompt,
            });
            proof {
                assert(plans@.drop_last() =~= prev);
            }
        }
        proof {
            assert(agent_configs@.take(k + 1).drop_last() =~= agent_configs@.take(k as int));
            assert(agent_configs@.take(k + 1).last() == agent_configs@[k as int]);
        }
    }
    proof {
        assert(agent_configs@.take(n as int) =~= agent_configs@);
    }
    plans
}

/// The identity triples are exactly `(id, provider label, model name)` of
/// the supported configs, in order.
pub open spec fn spec_identities_match(
    cs: Seq<AgentConfig>,
    ids: Seq<(i32, String, String)>,
) -> bool
    decreases cs.len(),
{
    if cs.len() == 0 {
        ids.len() == 0
    } else if cs.last().provider.spec_supported() {
        &&& ids.len() > 0
        &&& ids.last().0 == cs.last().id
        &&& ids.last().1@ == cs.last().provider.spec_label()
        &&& ids.last().2@ == cs.last().model_name@
        &&& spec_identities_match(cs.drop_last(), ids.drop_last())
    } else {
        spec_identities_match(cs.drop_last(), ids)
    }
}

/// Two identity lists resolved from the same configs agree in length and
/// carry the same ids position by position — so pools built from the same
/// config list twice have equal total length and the same id multiset.
pub proof fn lemma_identities_deterministic(
    cs: Seq<AgentConfig>,
    ids1: Seq<(i32, String, String)>,
    ids2: Seq<(i32, String, String)>,
)
    requires
        spec_identities_match(cs, ids1),
        spec_identities_match(cs, ids2),
    ensures
        ids1.len() == ids2.len(),
        forall|i: int| 0 <= i < ids1.len() ==> ids1[i].0 == ids2[i].0,
        ids1.map_values(|t: (i32, String, String)| t.0).to_multiset() == ids2.map_values(
            |t: (i32, String, String)| t.0,
        ).to_multiset(),
    decreases cs.len(),
{
    if cs.len() == 0 {
    } else if cs.last().provider.spec_supported() {
        lemma_identities_deterministic(cs.drop_last(), ids1.drop_last(), ids2.drop_last());
        assert(forall|i: int| 0 <= i < ids1.len() - 1 ==> ids1[i] == ids1.drop_last()[i]);
        assert(forall|i: int| 0 <= i < ids2.len() - 1 ==> ids2[i] == ids2.drop_last()[i]);
        assert(ids1.last().0 == ids2.last().0);
    } else {
        lemma_identities_deterministic(cs.drop_last(), ids1, ids2);
    }
    assert(ids1.map_values(|t: (i32, String, String)| t.0) =~= ids2.map_values(
        |t: (i32, String, String)| t.0,
    ));
}

impl RandAgentBuilder {
    /// Register the identity of every supported config, resolving labels and
    /// defaults as [`plan_agents`] does; unsupported configs are skipped.
    pub fn simple_builder(self, agent_configs: Vec<AgentConfig>, global_system_prompt: String) -> (r:
        Self)
        ensures
            r.spec_max_failures() == self.spec_max_failures(),
            r.spec_agents().len() >= self.spec_agents().len(),
            r.spec_agents().take(self.spec_agents().len() as int) == self.spec_agents(),
            spec_identities_match(
                agent_configs@,
                r.spec_agents().skip(self.spec_agents().len() as int),
            ),
    {
        let ghost original = self.spec_agents();
        let plans = plan_agents(&agent_configs, global_system_prompt.as_str());
        let mut builder = self;
        let n = plans.len();
        for k in 0..n
            invariant
                n == plans@.len(),
                builder.spec_max_failures() == self.spec_max_failures(),
                builder.spec_agents().len() == original.len() + k,
                builder.spec_agents().take(original.len() as int) == original,
                forall|i: int| 0 <= i < k ==> {
                    &&& (#[trigger] builder.spec_agents()[original.len() + i]).0 == plans@[i].id
                    &&& builder.spec_agents()[original.len() + i].1@ == plans@[i].provider_label@
                    &&& builder.spec_agents()[original.len() + i].2@ == plans@[i].model_name@
                },
        {
            let plan = &plans[k];
            builder = builder.add_agent(plan.id, plan.provider_label.clone(), plan.model_name.clone());
            proof {
                assert(builder.spec_agents().take(original.len() as int) =~= original);
            }
        }
        proof {
            let ids = builder.spec_agents().skip(original.len() as int);
            assert(ids.len() == plans@.len());
            assert forall|i: int| 0 <= i < plans@.len() implies {
                &&& (#[trigger] ids[i]).0 == plans@[i].id
                &&& ids[i].1@ == plans@[i].provider_label@
                &&& ids[i].2@ == plans@[i].model_name@
            } by {
                assert(ids[i] == builder.spec_agents()[original.len() + i]);
            }
            lemma_identity_projection(agent_configs@, global_system_prompt@, plans@, ids);
        }
        builder
    }
}

/// An identity list that copies `(id, provider label, model name)` out of a
/// plan list position by position matches the configs the plans came from.
proof fn lemma_identity_projection(
    cs: Seq<AgentConfig>,
    global: Seq<char>,
    ps: Seq<AgentPlan>,
    ids: Seq<(i32, String, String)>,
)
    requires
        spec_plans_match(cs, global, ps),
        ids.len() == ps.len(),
        forall|i: int| 0 <= i < ps.len() ==> {
            &&& (#[trigger] ids[i]).0 == ps[i].id
            &&& ids[i].1@ == ps[i].provider_label@
            &&& ids[i].2@ == ps[i].model_name@
        },
    ensures
        spec_identities_match(cs, ids),
    decreases cs.len(),
{
    if cs.len() == 0 {
    } else if cs.last().provider.spec_supported() {
        lemma_identity_projection(cs.drop_last(), global, ps.drop_last(), ids.drop_last());
        assert(ids.last().0 == ps.last().id);
    } else {
        lemma_identity_projection(cs.drop_last(), global, ps, ids);
    }
}

} // verus!
