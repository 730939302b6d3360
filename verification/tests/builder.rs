use rig_extra::rand_agent::RandAgent;
use rig_extra::rand_agent::RandAgentBuilder;
use rig_extra::simple_rand_builder::AgentConfig;
use rig_extra::simple_rand_builder::ProviderEnum;
use rig_extra::simple_rand_builder::plan_agents;

fn config(id: i32, provider: ProviderEnum, model: &str) -> AgentConfig {
    AgentConfig {
        id,
        provider,
        model_name: model.to_string(),
        api_key: "SECRET-REDACTED".to_string(),
        api_base_url: None,
        system_prompt: None,
        agent_name: None,
    }
}

fn sample_configs() -> Vec<AgentConfig> {
    vec![
        config(1, ProviderEnum::Bigmodel, "glm-4-flash"),
        config(2, ProviderEnum::Azure, "gpt-4o"),
        config(3, ProviderEnum::OpenAi, "gpt-4o-mini"),
        config(4, ProviderEnum::Perplexity, "sonar"),
        config(5, ProviderEnum::DeepSeek, "deepseek-chat"),
    ]
}

fn build_pool(configs: Vec<AgentConfig>) -> RandAgent {
    RandAgentBuilder::new()
        .max_failures(3)
        .simple_builder(configs, "you are a helpful agent".to_string())
        .build()
}

#[test]
fn unsupported_providers_are_skipped_not_fatal() {
    let pool = build_pool(sample_configs());
    // Azure and Perplexity have no constructor and drop out.
    assert_eq!(pool.total_len(), 3);
    let infos = pool.get_agents_info();
    let ids: Vec<i32> = infos.iter().map(|i| i.id).collect();
    assert_eq!(ids, vec![1, 3, 5]);
    assert_eq!(infos[0].provider, "bigmodel");
    assert_eq!(infos[1].provider, "openai");
    assert_eq!(infos[2].provider, "deepseek");
    assert_eq!(infos[0].model, "glm-4-flash");
}

#[test]
fn r2_building_twice_from_the_same_configs_agrees() {
    let pool_a = build_pool(sample_configs());
    let pool_b = build_pool(sample_configs());
    assert_eq!(pool_a.total_len(), pool_b.total_len());
    let mut ids_a: Vec<i32> = pool_a.get_agents_info().iter().map(|i| i.id).collect();
    let mut ids_b: Vec<i32> = pool_b.get_agents_info().iter().map(|i| i.id).collect();
    ids_a.sort();
    ids_b.sort();
    assert_eq!(ids_a, ids_b);
}

#[test]
fn plans_resolve_defaults_and_overrides() {
    let mut with_overrides = config(8, ProviderEnum::Mistral, "mistral-large");
    with_overrides.api_base_url = Some("https://proxy.example".to_string());
    with_overrides.system_prompt = Some("be terse".to_string());
    with_overrides.agent_name = Some("my agent".to_string());
    let configs = vec![config(7, ProviderEnum::Ollama, "llama3"), with_overrides];
    let plans = plan_agents(&configs, "global prompt");

    assert_eq!(plans.len(), 2);
    assert_eq!(plans[0].id, 7);
    assert_eq!(plans[0].provider_label, "ollama");
    assert_eq!(plans[0].agent_name, "rand agent");
    assert_eq!(plans[0].system_prompt, "global prompt");
    assert!(plans[0].api_base_url.is_none());

    assert_eq!(plans[1].id, 8);
    assert_eq!(plans[1].provider_label, "mistral");
    assert_eq!(plans[1].agent_name, "my agent");
    assert_eq!(plans[1].system_prompt, "be terse");
    assert_eq!(plans[1].api_base_url, Some("https://proxy.example".to_string()));
    assert_eq!(plans[1].api_key, "SECRET-REDACTED");
}

#[test]
fn provider_labels_are_the_lowercase_tags() {
    assert_eq!(ProviderEnum::Bigmodel.as_str(), "bigmodel");
    assert_eq!(ProviderEnum::OpenAi.as_str(), "openai");
    assert_eq!(ProviderEnum::OpenRouter.as_str(), "openrouter");
    assert_eq!(ProviderEnum::XAI.as_str(), "xai");
    assert_eq!(ProviderEnum::Moonshot.as_str(), "moonshot");
    assert_eq!(ProviderEnum::Huggingface.as_str(), "huggingface");
    assert!(ProviderEnum::Gemini.is_supported());
    assert!(!ProviderEnum::Azure.is_supported());
    assert!(!ProviderEnum::Perplexity.is_supported());
}

#[test]
fn builder_accumulates_agents_in_order() {
    let pool = RandAgentBuilder::default()
        .add_agent(10, "a".to_string(), "m1".to_string())
        .add_builder(11, "b", "m2")
        .max_failures(5)
        .build();
    assert_eq!(pool.total_len(), 2);
    let infos = pool.get_agents_info();
    assert_eq!(infos[0].id, 10);
    assert_eq!(infos[1].id, 11);
    assert_eq!(infos[1].provider, "b");
    assert_eq!(infos[1].model, "m2");
    assert_eq!(infos[0].max_failures, 5);
    assert_eq!(infos[0].failure_count, 0);
}
