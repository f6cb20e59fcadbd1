//! What the daemon does: routes chats through the desktop-platform bridge,
//! answers session, model and status requests, and reports changes of Hermes's
//! health.
//!
//! The functions here decide; sending, fetching and waiting is left to the
//! caller, which hands the outcome back.

pub mod handler;
pub mod replies;
pub mod turn;

use vstd::prelude::*;

use crate::config::{Config, ConfigView};
use crate::hermes::client::{HermesClient, HermesClientView};
use crate::ollama::{OllamaRouterClient, OllamaRouterClientView};
use crate::text::stripping_takes_a_trailing_run_only;

pub use handler::{Action, DaemonHandler};
pub use turn::ChatTurn;

verus! {

/// Capacity of the shared broadcast channel (toasts and status events).
pub const BROADCAST_CAP: usize = 256;

/// How often to probe Hermes health, in seconds.
pub const HEALTH_INTERVAL_SECS: u64 = 10;

/// The client for the Hermes server of a configuration.
pub open spec fn hermes_client_for(config: ConfigView) -> HermesClientView {
    HermesClientView::at(config.hermes_api_url, config.hermes_api_key)
}

/// The client for the model picker of a configuration, if it has one.
pub open spec fn picker_client_for(config: ConfigView) -> Option<OllamaRouterClientView> {
    match config.ollama_router_token {
        Some(_) => Some(
            OllamaRouterClientView::at(config.ollama_router_url, config.ollama_router_token),
        ),
        None => None,
    }
}

/// The client for the configured Hermes server.
pub fn hermes_client(config: &Config) -> (r: HermesClient)
    ensures
        r@ == hermes_client_for(config@),
{
    HermesClient::new(config.hermes_api_url.as_str(), config.hermes_api_key.as_str())
}

/// The client for the model picker, which needs a token to reach the router:
/// none without one.
pub fn picker_client(config: &Config) -> (r: Option<OllamaRouterClient>)
    ensures
        r is Some <==> config@.ollama_router_token is Some,
        (match r {
            Some(c) => Some(c@),
            None => None,
        }) == picker_client_for(config@),
{
    match &config.ollama_router_token {
        Some(token) => Some(
            OllamaRouterClient::new(config.ollama_router_url.as_str(), Some(token.clone())),
        ),
        None => None,
    }
}

/// The clients go by the configuration: each talks to the server configured for
/// it, but for slashes at the end, with the secret configured for it; and there
/// is a picker exactly when there is a token for the router.
pub proof fn clients_go_by_the_configuration(config: ConfigView)
    ensures
        ({
            let c = hermes_client_for(config);
            let url = config.hermes_api_url;
            &&& c.api_key == config.hermes_api_key
            &&& c.base_url == url.take(c.base_url.len() as int)
            &&& forall|i: int| c.base_url.len() <= i < url.len() ==> #[trigger] url[i] == '/'
            &&& c.base_url.len() > 0 ==> c.base_url.last() != '/'
        }),
        picker_client_for(config) is Some <==> config.ollama_router_token is Some,
        picker_client_for(config) matches Some(c) ==> {
            let url = config.ollama_router_url;
            &&& c.token == config.ollama_router_token
            &&& c.base_url == url.take(c.base_url.len() as int)
            &&& forall|i: int| c.base_url.len() <= i < url.len() ==> #[trigger] url[i] == '/'
            &&& c.base_url.len() > 0 ==> c.base_url.last() != '/'
        },
{
    stripping_takes_a_trailing_run_only(config.hermes_api_url, '/');
    stripping_takes_a_trailing_run_only(config.ollama_router_url, '/');
}

} // verus!
