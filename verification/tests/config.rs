use trace_bridge::config::{
    init_datadog_pipeline, post_settings, ConfigMissing, PostSettings, Setting, Telemetry,
};

fn s(text: &str) -> Option<String> {
    Some(text.to_string())
}

#[test]
fn telemetry_points_at_the_agent() {
    assert_eq!(
        init_datadog_pipeline(s("10.0.0.7"), s("post-function")),
        Ok(Telemetry {
            service_name: "post-function".to_string(),
            agent_endpoint: "http://10.0.0.7:8126".to_string(),
        })
    );
}

#[test]
fn telemetry_fails_on_the_first_missing_setting() {
    assert_eq!(
        init_datadog_pipeline(None, None),
        Err(ConfigMissing { setting: Setting::AgentAddress })
    );
    assert_eq!(
        init_datadog_pipeline(None, s("f")),
        Err(ConfigMissing { setting: Setting::AgentAddress })
    );
    assert_eq!(
        init_datadog_pipeline(s("a"), None),
        Err(ConfigMissing { setting: Setting::FunctionName })
    );
}

#[test]
fn post_settings_hold_all_four_values() {
    assert_eq!(
        post_settings(s("agent"), s("name"), s("https://api.example"), s("https://sqs/queue")),
        Ok(PostSettings {
            telemetry: Telemetry {
                service_name: "name".to_string(),
                agent_endpoint: "http://agent:8126".to_string(),
            },
            api_url: "https://api.example".to_string(),
            queue_url: "https://sqs/queue".to_string(),
        })
    );
}

#[test]
fn omitting_the_queue_url_fails_startup_with_a_descriptive_error() {
    let failure = post_settings(s("agent"), s("name"), s("https://api.example"), None)
        .expect_err("must not start");
    assert_eq!(failure.setting, Setting::QueueUrl);
    assert_eq!(failure.message(), "QUEUE_URL is required");
}

#[test]
fn post_settings_fail_on_the_first_missing_setting() {
    assert_eq!(post_settings(None, None, None, None).unwrap_err().setting, Setting::AgentAddress);
    assert_eq!(post_settings(s("a"), None, None, None).unwrap_err().setting, Setting::FunctionName);
    assert_eq!(post_settings(s("a"), s("f"), None, None).unwrap_err().setting, Setting::ApiUrl);
    assert_eq!(post_settings(s("a"), s("f"), None, s("q")).unwrap_err().setting, Setting::ApiUrl);
}

#[test]
fn every_setting_has_its_variable_name_and_message() {
    assert_eq!(Setting::AgentAddress.name(), "AGENT_ADDRESS");
    assert_eq!(Setting::FunctionName.name(), "FUNCTION_NAME");
    assert_eq!(Setting::ApiUrl.name(), "API_URL");
    assert_eq!(Setting::QueueUrl.name(), "QUEUE_URL");
    assert_eq!(
        ConfigMissing { setting: Setting::AgentAddress }.message(),
        "AGENT_ADDRESS is required"
    );
    assert_eq!(
        ConfigMissing { setting: Setting::FunctionName }.message(),
        "FUNCTION_NAME is required"
    );
    assert_eq!(ConfigMissing { setting: Setting::ApiUrl }.message(), "API_URL is required");
}
