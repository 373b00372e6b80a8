//! Server configuration: the issuer URL and the one registered client.
use vstd::prelude::*;
use vstd::string::*;

verus! {

/// The registered client. There is a single one, built in; dynamic client
/// registration is not supported.
pub struct ClientConfig {
    pub client_id: String,
    pub client_secret: String,
    pub redirect_uris: Vec<String>,
}

pub struct Config {
    pub issuer: String,
    pub client: ClientConfig,
}

/// `uri` is one of the redirect URIs registered in `uris`.
pub open spec fn is_registered_uri(uris: Seq<String>, uri: Seq<char>) -> bool {
    exists|i: int| 0 <= i < uris.len() && (#[trigger] uris[i])@ == uri
}

impl ClientConfig {
    /// Whether `uri` is one of this client's registered redirect URIs.
    pub fn has_redirect_uri(&self, uri: &str) -> (registered: bool)
        ensures
            registered == is_registered_uri(self.redirect_uris@, uri@),
    {
        let wanted = String::from_str(uri);
        let n = self.redirect_uris.len();
        let mut i: usize = 0;
        while i < n
            invariant
                n == self.redirect_uris@.len(),
                wanted@ == uri@,
                i <= n,
                forall|j: int| 0 <= j < i ==> (#[trigger] self.redirect_uris@[j])@ != uri@,
            decreases n - i,
        {
            if self.redirect_uris[i] == wanted {
                return true;
            }
            i = i + 1;
        }
        false
    }
}

impl Config {
    /// The configuration, given the value of the `ISSUER` environment variable
    /// if it is set: the issuer defaults to `http://localhost:8080`, and the
    /// client is the built-in demo client.
    pub fn load(issuer_var: Option<String>) -> (config: Config)
        ensures
            config.issuer@ == (match issuer_var {
                Some(s) => s@,
                None => "http://localhost:8080"@,
            }),
            config.client.client_id@ == "demo-client"@,
            config.client.client_secret@ == "demo-secret"@,
            config.client.redirect_uris@.len() == 1,
            config.client.redirect_uris@[0]@ == "http://localhost:8080/callback"@,
    {
        let issuer = match issuer_var {
            Some(s) => s,
            None => String::from_str("http://localhost:8080"),
        };
        let mut redirect_uris: Vec<String> = Vec::new();
        redirect_uris.push(String::from_str("http://localhost:8080/callback"));
        Config {
            issuer,
            client: ClientConfig {
                client_id: String::from_str("demo-client"),
                client_secret: String::from_str("demo-secret"),
                redirect_uris,
            },
        }
    }
}

} // verus!
