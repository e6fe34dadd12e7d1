//! Gateway configuration: host, port, mode, and the service URLs that
//! HighAvailability mode requires, together with the startup gate that
//! rejects an ill-formed HighAvailability configuration.
use vstd::prelude::*;

verus! {

/// How the gateway composes its services.
#[derive(Debug, Clone, Copy, PartialEq, Eq, Structural)]
pub enum ServerMode {
    Standalone,
    HighAvailability,
}

/// Upstream service URLs used in HighAvailability mode.
#[derive(Debug, Clone)]
pub struct Services {
    pub inference_url: Option<String>,
    pub embeddings_url: Option<String>,
}

/// The gateway's configuration.
#[derive(Debug, Clone)]
pub struct ServerConfig {
    pub server_host: String,
    pub server_port: u16,
    pub server_mode: ServerMode,
    pub services: Option<Services>,
}

/// The host used when none is configured.
pub fn default_server_host() -> (r: String)
    ensures
        r@ == "127.0.0.1"@,
{
    String::from_str("127.0.0.1")
}

/// The port used when none is configured.
pub fn default_server_port() -> (r: u16)
    ensures
        r == 8080,
{
    8080
}

impl Default for ServerMode {
    /// The default mode is Standalone.
    fn default() -> (r: Self)
        ensures
            r == ServerMode::Standalone,
    {
        ServerMode::Standalone
    }
}

impl Default for Services {
    /// By default neither service URL is set.
    fn default() -> (r: Self)
        ensures
            r.inference_url is None,
            r.embeddings_url is None,
    {
        Services { inference_url: None, embeddings_url: None }
    }
}

impl Default for ServerConfig {
    /// Standalone on 127.0.0.1:8080, with an empty services table.
    fn default() -> (r: Self)
        ensures
            r.server_host@ == "127.0.0.1"@,
            r.server_port == 8080,
            r.server_mode == ServerMode::Standalone,
            r.services matches Some(s) && s.inference_url is None && s.embeddings_url is None,
    {
        ServerConfig {
            server_host: default_server_host(),
            server_port: default_server_port(),
            server_mode: ServerMode::Standalone,
            services: Some(Services { inference_url: None, embeddings_url: None }),
        }
    }
}

impl ServerConfig {
    /// The inference URL, if one is configured.
    pub open spec fn spec_inference_url(self) -> Option<Seq<char>> {
        match self.services {
            Some(s) => match s.inference_url {
                Some(u) => Some(u@),
                None => None,
            },
            None => None,
        }
    }

    /// The embeddings URL, if one is configured.
    pub open spec fn spec_embeddings_url(self) -> Option<Seq<char>> {
        match self.services {
            Some(s) => match s.embeddings_url {
                Some(u) => Some(u@),
                None => None,
            },
            None => None,
        }
    }

    /// What the startup gate decides: `Some(true)` to run HighAvailability,
    /// `Some(false)` to run Standalone, `None` for a fatal configuration.
    /// Standalone never consults the services table.
    pub open spec fn spec_gate(self) -> Option<bool> {
        if self.server_mode == ServerMode::Standalone {
            Some(false)
        } else if self.spec_inference_url() is Some && self.spec_embeddings_url() is Some {
            Some(true)
        } else {
            None
        }
    }

    /// Decide whether to run in HighAvailability mode. HighAvailability
    /// without both service URLs is a configuration error.
    pub fn is_high_availability(&self) -> (r: Result<bool, String>)
        ensures
            r matches Ok(b) ==> self.spec_gate() == Some(b),
            r is Err <==> self.spec_gate() is None,
    {
        match self.server_mode {
            ServerMode::Standalone => Ok(false),
            ServerMode::HighAvailability => {
                let well_defined = match &self.services {
                    Some(s) => s.inference_url.is_some() && s.embeddings_url.is_some(),
                    None => false,
                };
                if well_defined {
                    Ok(true)
                } else {
                    Err(String::from_str(
                        "HighAvailability mode configured but services not well defined!",
                    ))
                }
            },
        }
    }

    /// The inference service URL for proxying.
    pub fn inference_url(&self) -> (r: Option<String>)
        ensures
            r is Some <==> self.spec_inference_url() is Some,
            r matches Some(u) ==> self.spec_inference_url() == Some(u@),
    {
        match &self.services {
            Some(s) => match &s.inference_url {
                Some(u) => Some(u.clone()),
                None => None,
            },
            None => None,
        }
    }

    /// The embeddings service URL for proxying.
    pub fn embeddings_url(&self) -> (r: Option<String>)
        ensures
            r is Some <==> self.spec_embeddings_url() is Some,
            r matches Some(u) ==> self.spec_embeddings_url() == Some(u@),
    {
        match &self.services {
            Some(s) => match &s.embeddings_url {
                Some(u) => Some(u.clone()),
                None => None,
            },
            None => None,
        }
    }
}

/// A Standalone configuration never consults the services table: its
/// startup decision is the same whatever the services hold.
pub proof fn lemma_standalone_ignores_services(c1: ServerConfig, c2: ServerConfig)
    requires
        c1.server_mode == ServerMode::Standalone,
        c2.server_mode == ServerMode::Standalone,
    ensures
        c1.spec_gate() == c2.spec_gate(),
        c1.spec_gate() == Some(false),
{
}

/// HighAvailability without both service URLs is a fatal configuration;
/// with both URLs present the startup decision is HighAvailability.
pub proof fn lemma_ha_gate(c: ServerConfig)
    requires
        c.server_mode == ServerMode::HighAvailability,
    ensures
        c.spec_gate() is None <==> !(c.spec_inference_url() is Some && c.spec_embeddings_url()
            is Some),
        c.spec_gate() is Some ==> c.spec_gate() == Some(true),
{
}

} // verus!
