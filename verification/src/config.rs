//! The settings that a service reads once at startup. A missing one is
//! fatal: the service does not start.

use vstd::prelude::*;
use vstd::string::*;
use crate::carrier::Text;

verus! {

/// A setting by name.
#[derive(Debug, Clone, Copy, PartialEq, Eq, Structural)]
pub enum Setting {
    /// Host of the trace exporter's agent.
    AgentAddress,
    /// The service's name, attached to every span.
    FunctionName,
    /// Base URL of the downstream service.
    ApiUrl,
    /// The queue to publish to.
    QueueUrl,
}

impl Setting {
    /// The name of the environment variable.
    pub open spec fn name_text(self) -> Text {
        match self {
            Setting::AgentAddress => "AGENT_ADDRESS"@,
            Setting::FunctionName => "FUNCTION_NAME"@,
            Setting::ApiUrl => "API_URL"@,
            Setting::QueueUrl => "QUEUE_URL"@,
        }
    }

    pub fn name(&self) -> (name: &'static str)
        ensures
            name@ == self.name_text(),
    {
        match self {
            Setting::AgentAddress => "AGENT_ADDRESS",
            Setting::FunctionName => "FUNCTION_NAME",
            Setting::ApiUrl => "API_URL",
            Setting::QueueUrl => "QUEUE_URL",
        }
    }
}

/// A required setting has no value.
#[derive(Debug, Clone, Copy, PartialEq, Eq, Structural)]
pub struct ConfigMissing {
    pub setting: Setting,
}

impl ConfigMissing {
    /// The message that names the missing setting.
    pub open spec fn message_text(self) -> Text {
        self.setting.name_text() + " is required"@
    }

    pub fn message(&self) -> (message: String)
        ensures
            message@ == self.message_text(),
    {
        String::from_str(self.setting.name()).concat(" is required")
    }
}

/// Where the spans go and under which name.
#[derive(Debug, Clone, PartialEq, Eq)]
pub struct Telemetry {
    pub service_name: String,
    pub agent_endpoint: String,
}

/// The settings of a service that calls downstream and publishes.
#[derive(Debug, Clone, PartialEq, Eq)]
pub struct PostSettings {
    pub telemetry: Telemetry,
    pub api_url: String,
    pub queue_url: String,
}

/// The URL of the agent on the host `agent_address`.
pub open spec fn endpoint_text(agent_address: Text) -> Text {
    "http://"@ + agent_address + ":8126"@
}

/// The first of the two telemetry settings that is missing, if any.
pub open spec fn telemetry_gap(agent_address: Option<String>, function_name: Option<String>)
    -> Option<Setting> {
    if agent_address is None {
        Some(Setting::AgentAddress)
    } else if function_name is None {
        Some(Setting::FunctionName)
    } else {
        None
    }
}

/// The first of the four settings that is missing, if any.
pub open spec fn post_gap(
    agent_address: Option<String>,
    function_name: Option<String>,
    api_url: Option<String>,
    queue_url: Option<String>,
) -> Option<Setting> {
    if telemetry_gap(agent_address, function_name) is Some {
        telemetry_gap(agent_address, function_name)
    } else if api_url is None {
        Some(Setting::ApiUrl)
    } else if queue_url is None {
        Some(Setting::QueueUrl)
    } else {
        None
    }
}

/// The telemetry settings, from the values of `AGENT_ADDRESS` and
/// `FUNCTION_NAME`. Fails on the first that is missing.
pub fn init_datadog_pipeline(agent_address: Option<String>, function_name: Option<String>) -> (r:
    Result<Telemetry, ConfigMissing>)
    ensures
        match r {
            Ok(t) => telemetry_gap(agent_address, function_name) is None && t.service_name@
                == function_name->0@ && t.agent_endpoint@ == endpoint_text(agent_address->0@),
            Err(e) => telemetry_gap(agent_address, function_name) == Some(e.setting),
        },
{
    let agent_address = match agent_address {
        Some(a) => a,
        None => { return Err(ConfigMissing { setting: Setting::AgentAddress }); },
    };
    let service_name = match function_name {
        Some(f) => f,
        None => { return Err(ConfigMissing { setting: Setting::FunctionName }); },
    };
    let agent_endpoint = String::from_str("http://").concat(agent_address.as_str()).concat(":8126");
    Ok(Telemetry { service_name, agent_endpoint })
}

/// The settings of the publishing service, from the values of
/// `AGENT_ADDRESS`, `FUNCTION_NAME`, `API_URL` and `QUEUE_URL`. Fails on the
/// first that is missing.
pub fn post_settings(
    agent_address: Option<String>,
    function_name: Option<String>,
    api_url: Option<String>,
    queue_url: Option<String>,
) -> (r: Result<PostSettings, ConfigMissing>)
    ensures
        match r {
            Ok(s) => post_gap(agent_address, function_name, api_url, queue_url) is None
                && s.telemetry.service_name@ == function_name->0@ && s.telemetry.agent_endpoint@
                == endpoint_text(agent_address->0@) && s.api_url@ == api_url->0@ && s.queue_url@
                == queue_url->0@,
            Err(e) => post_gap(agent_address, function_name, api_url, queue_url) == Some(
                e.setting,
            ),
        },
{
    let telemetry = match init_datadog_pipeline(agent_address, function_name) {
        Ok(t) => t,
        Err(e) => { return Err(e); },
    };
    let api_url = match api_url {
        Some(a) => a,
        None => { return Err(ConfigMissing { setting: Setting::ApiUrl }); },
    };
    let queue_url = match queue_url {
        Some(q) => q,
        None => { return Err(ConfigMissing { setting: Setting::QueueUrl }); },
    };
    Ok(PostSettings { telemetry, api_url, queue_url })
}

} // verus!
