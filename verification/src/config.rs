//! Names under which the deployment's parameters are stored.

use vstd::prelude::*;
use vstd::string::*;

verus! {

/// Project and environment that namespace every parameter.
#[derive(Debug, Clone)]
pub struct Config {
    pub project_name: String,
    pub environment: String,
}

/// The full name of a parameter: `/project/environment/key`.
pub open spec fn parameter_path(project: Seq<char>, environment: Seq<char>, key: Seq<char>) -> Seq<
    char,
> {
    "/"@ + project + "/"@ + environment + "/"@ + key
}

impl Config {
    /// The development deployment.
    pub fn new() -> (res: Self)
        ensures
            res.project_name@ == "stock-monitoring-bot"@,
            res.environment@ == "dev"@,
    {
        Config {
            project_name: String::from_str("stock-monitoring-bot"),
            environment: String::from_str("dev"),
        }
    }

    /// The name under which `key` is stored.
    pub fn get_parameter(&self, key: &str) -> (res: String)
        ensures
            res@ == parameter_path(self.project_name@, self.environment@, key@),
    {
        let mut name = String::from_str("/");
        name.append(self.project_name.as_str());
        name.append("/");
        name.append(self.environment.as_str());
        name.append("/");
        name.append(key);
        name
    }

    /// The name of the parameter holding the platform's public key.
    pub fn get_discord_public_key(&self) -> (res: String)
        ensures
            res@ == parameter_path(self.project_name@, self.environment@, "discord-public-key"@),
    {
        self.get_parameter("discord-public-key")
    }

    /// The name of the parameter holding the webhook address.
    pub fn get_discord_webhook_url(&self) -> (res: String)
        ensures
            res@ == parameter_path(self.project_name@, self.environment@, "discord-webhook-url"@),
    {
        self.get_parameter("discord-webhook-url")
    }

    /// The name of the parameter holding the market-data key.
    pub fn get_alpha_vantage_api_key(&self) -> (res: String)
        ensures
            res@ == parameter_path(
                self.project_name@,
                self.environment@,
                "alpha-vantage-api-key"@,
            ),
    {
        self.get_parameter("alpha-vantage-api-key")
    }
}

} // verus!
