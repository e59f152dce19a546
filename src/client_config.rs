//! The transport scaffolding of the client: a default HTTP configuration, one
//! constructor per server, the client type and its builder.
use vstd::prelude::*;
use vstd::string::StringExecFns;
use crate::text::owned;
use crate::diagnostics::{text_result, ErrorKind, ErrorView, GenError};
use crate::document::{Server, ServerVariable};
use crate::naming::{snake_case_of, to_snake_case};

verus! {

/// The opening of the clients file: the imports it needs.
pub const CLIENTS_HEADER: &'static str = "use anyhow::{Context as _, Result};
use reqwest::{Client, header, Method, RequestBuilder, Url};
use crate::builder::ApiClientBuilder;
use std::time::Duration;

";

/// The function that builds the default HTTP configuration.
pub const CONFIG_METHOD: &'static str = "pub fn default_config(
    timeout: Option<Duration>,
    user_agent: Option<&str>,
    default_headers: Option<header::HeaderMap>,
) -> Result<Client> {
    let mut headers = default_headers.unwrap_or_default();
    headers.insert(header::USER_AGENT, header::HeaderValue::from_str(user_agent.unwrap_or(\"Fiberplane Rust API client\"))?);

    Ok(Client::builder()
        .connect_timeout(timeout.unwrap_or_else(|| Duration::from_secs(10)))
        .default_headers(headers)
        .build()?)
}

";

/// The end of every server constructor.
pub const CLIENT_METHOD_TAIL: &'static str = "    let config = default_config(
        Some(Duration::from_secs(30)),
        None,
        None,
    )?;

    Ok(ApiClient {
        client: config,
        server: Url::parse(url).context(\"Failed to parse base url from Open API document\")?,
    })
}

";

/// The client type and its request helper.
pub const CLIENT_TYPE: &'static str = "#[derive(Debug)]
pub struct ApiClient {
    pub client: Client,
    pub server: Url,
}

impl ApiClient {
    pub fn request(&self, method: Method, endpoint: &str) -> Result<RequestBuilder> {
        let url = self.server.join(endpoint)?;

        Ok(self.client.request(method, url))
    }

    pub fn builder(base_url: Url) -> ApiClientBuilder {
        ApiClientBuilder::new(base_url)
    }
}
";

/// The whole builder file.
pub const BUILDER_SOURCE: &'static str = "use crate::clients::ApiClient;
use anyhow::Result;
use reqwest::{header, Url};
use std::time::Duration;

#[derive(Debug)]
pub struct ApiClientBuilder {
    // Some client specific values
    base_url: Url,
    timeout: Option<Duration>,

    // These values will be mapped to header values
    user_agent: Option<String>,
    bearer_token: Option<String>,
}

impl ApiClientBuilder {
    pub fn new(base_url: Url) -> Self {
        Self {
            base_url,
            timeout: None,
            user_agent: None,
            bearer_token: None,
        }
    }

    /// Override the base_url for the ApiClient.
    pub fn base_url(mut self, base_url: Url) -> Self {
        self.base_url = base_url;
        self
    }

    /// Change the timeout for the ApiClient.
    pub fn timeout(mut self, timeout: Option<Duration>) -> Self {
        self.timeout = timeout;
        self
    }

    /// Override the user agent for the ApiClient.
    pub fn user_agent(mut self, user_agent: Option<impl Into<String>>) -> Self {
        self.user_agent = user_agent.map(|agent| agent.into());
        self
    }

    /// Set an authentication token for the ApiClient.
    pub fn bearer_token(mut self, bearer_token: Option<impl Into<String>>) -> Self {
        self.bearer_token = bearer_token.map(|token| token.into());
        self
    }

    pub fn build_client(&self) -> Result<reqwest::Client> {
        let mut headers = header::HeaderMap::new();

        headers.insert(
            header::USER_AGENT,
            header::HeaderValue::from_str(
                self.user_agent
                    .as_deref()
                    .unwrap_or(\"Fiberplane Rust API client\"),
            )?,
        );

        if let Some(bearer) = &self.bearer_token {
          headers.insert(
              header::AUTHORIZATION,
              header::HeaderValue::from_str(
                  &format!(\"Bearer {}\", bearer)
              )?,
          );
        }

        let client = reqwest::Client::builder()
            .connect_timeout(self.timeout.unwrap_or_else(|| Duration::from_secs(5)))
            .default_headers(headers)
            .build()?;

        Ok(client)
    }

    /// Build the ApiClient.
    pub fn build(self) -> Result<ApiClient> {
        let client = self.build_client()?;
        let server = self.base_url;
        Ok(ApiClient { client, server })
    }
}
";

/// Position of the first occurrence of `pat` in `s` at or after `i`, or -1.
pub open spec fn find_from(s: Seq<char>, pat: Seq<char>, i: int) -> int
    decreases s.len() + 1 - i,
{
    if i < 0 || i + pat.len() > s.len() {
        -1
    } else if s.subrange(i, i + pat.len()) == pat {
        i
    } else {
        find_from(s, pat, i + 1)
    }
}

/// `s` with its first occurrence of `pat` taken out.
pub open spec fn remove_first(s: Seq<char>, pat: Seq<char>) -> Seq<char> {
    let i = find_from(s, pat, 0);
    if i >= 0 {
        s.take(i) + s.skip(i + pat.len())
    } else {
        s
    }
}

fn matches_at(s: &str, pat: &str, i: usize) -> (r: bool)
    requires
        i + pat@.len() <= s@.len(),
    ensures
        r == (s@.subrange(i as int, i + pat@.len()) == pat@),
{
    let n = pat.unicode_len();
    let sl = s.unicode_len();
    let mut k: usize = 0;
    while k < n
        invariant
            n == pat@.len(),
            sl == s@.len(),
            i + n <= s@.len(),
            k <= n,
            forall|j: int| 0 <= j < k ==> s@[i + j] == pat@[j],
        decreases n - k,
    {
        if s.get_char(i + k) != pat.get_char(k) {
            assert(s@.subrange(i as int, i + pat@.len())[k as int] != pat@[k as int]);
            return false;
        }
        k = k + 1;
    }
    assert(s@.subrange(i as int, i + pat@.len()) =~= pat@);
    true
}

/// Takes out the first occurrence of `pat` from `s`.
pub fn replace_first_with_nothing(s: &str, pat: &str) -> (r: String)
    ensures
        r@ == remove_first(s@, pat@),
{
    let n = s.unicode_len();
    let m = pat.unicode_len();
    if m > n {
        return s.to_string();
    }
    if m == 0 {
        assert(s@.subrange(0, 0) =~= pat@);
        assert(s@.take(0) + s@.skip(0) =~= s@);
        return s.to_string();
    }
    let mut i: usize = 0;
    while i <= n - m
        invariant
            n == s@.len(),
            m == pat@.len(),
            1 <= m <= n,
            i <= n - m + 1,
            find_from(s@, pat@, 0) == find_from(s@, pat@, i as int),
        decreases n - m + 1 - i,
    {
        if matches_at(s, pat, i) {
            let mut out = s.substring_char(0, i).to_string();
            out.append(s.substring_char(i + m, n));
            assert(out@ =~= s@.take(i as int) + s@.skip(i + m));
            return out;
        }
        i = i + 1;
    }
    s.to_string()
}

/// The parameter list entries of a server constructor, one per variable,
/// with a line break after the last.
pub open spec fn variable_params_spec(vars: Seq<(Seq<char>, ServerVariable)>) -> Seq<char> {
    variable_params_body(vars) + if vars.len() > 0 {
        "\n"@
    } else {
        Seq::<char>::empty()
    }
}

pub open spec fn variable_params_body(vars: Seq<(Seq<char>, ServerVariable)>) -> Seq<char>
    decreases vars.len(),
{
    if vars.len() == 0 {
        Seq::empty()
    } else {
        variable_params_body(vars.drop_last()) + "\n    "@ + snake_case_of(vars.last().0)
            + ": Option<&str>,"@
    }
}

/// The statement that falls back to a variable's default value.
pub open spec fn default_line(v: (Seq<char>, ServerVariable)) -> Seq<char> {
    let sn = snake_case_of(v.0);
    "let "@ + sn + " = "@ + sn + ".unwrap_or(\""@ + v.1.default@ + "\");"@
}

/// The fallback statements of all variables, one per line.
pub open spec fn default_lines(vars: Seq<(Seq<char>, ServerVariable)>) -> Seq<char>
    decreases vars.len(),
{
    if vars.len() == 0 {
        Seq::empty()
    } else if vars.len() == 1 {
        default_line(vars[0])
    } else {
        default_lines(vars.drop_last()) + "\n    "@ + default_line(vars.last())
    }
}

/// The named arguments that fill the server URL template.
pub open spec fn url_args(vars: Seq<(Seq<char>, ServerVariable)>) -> Seq<char>
    decreases vars.len(),
{
    if vars.len() == 0 {
        Seq::empty()
    } else if vars.len() == 1 {
        snake_case_of(vars[0].0) + " = "@ + snake_case_of(vars[0].0)
    } else {
        url_args(vars.drop_last()) + ", "@ + snake_case_of(vars.last().0) + " = "@
            + snake_case_of(vars.last().0)
    }
}

/// The statements that compute the server URL.
pub open spec fn url_spec(server: Server) -> Seq<char> {
    let vars = server.variables@;
    if vars.len() > 0 {
        "    "@ + default_lines(vars) + "\n"@ + "    let url = &format!(\""@ + server.url@ + "\", "@
            + url_args(vars) + ");"@
    } else {
        "    let url = \""@ + server.url@ + "\";"@
    }
}

/// The constructor of a client for one server, named after its description
/// with the word `servers` taken out.
pub open spec fn client_method_spec(server: Server) -> Result<Seq<char>, ErrorView> {
    match server.description {
        None => Err((ErrorKind::MissingServerDescription, server.url@)),
        Some(d) => Ok(
            "pub fn "@ + snake_case_of(remove_first(d@, "servers"@)) + "_client("@
                + variable_params_spec(server.variables@) + ") -> Result<ApiClient> {\n"@
                + url_spec(server) + "\n\n"@ + CLIENT_METHOD_TAIL@,
        ),
    }
}


/// The function that builds the default HTTP configuration.
pub fn generate_config_method() -> (r: String)
    ensures
        r@ == CONFIG_METHOD@,
{
    owned(CONFIG_METHOD)
}

/// The client type and its request helper.
pub fn generate_client_type() -> (r: String)
    ensures
        r@ == CLIENT_TYPE@,
{
    owned(CLIENT_TYPE)
}

/// The builder file of the client.
pub fn generate_builder() -> (r: String)
    ensures
        r@ == BUILDER_SOURCE@,
{
    owned(BUILDER_SOURCE)
}

/// Generates the constructor of a client for one server.
pub fn generate_client_method(server: &Server) -> (r: Result<String, GenError>)
    ensures
        text_result(r) == client_method_spec(*server),
{
    let description = match &server.description {
        Some(d) => d,
        None => {
            return Err(GenError { kind: ErrorKind::MissingServerDescription, detail: server.url.clone() });
        },
    };
    let trimmed = replace_first_with_nothing(description.as_str(), "servers");
    let name = to_snake_case(trimmed.as_str());
    let mut out = owned("pub fn ");
    out.append(name.as_str());
    out.append("_client(");
    let ghost vars = server.variables@;
    let n = server.variables.len();
    let mut params = String::new();
    let mut lets = String::new();
    let mut args = String::new();
    let mut i: usize = 0;
    proof {
        assert(vars.take(0) =~= Seq::<(Seq<char>, ServerVariable)>::empty());
    }
    while i < n
        invariant
            n == vars.len(),
            vars == server.variables@,
            i <= n,
            params@ == variable_params_body(vars.take(i as int)),
            lets@ == default_lines(vars.take(i as int)),
            args@ == url_args(vars.take(i as int)),
        decreases n - i,
    {
        proof {
            assert(vars.take(i + 1).drop_last() =~= vars.take(i as int));
            assert(vars.take(i + 1).last() == vars[i as int]);
            if i == 0 {
                assert(vars.take(1)[0] == vars[0]);
            }
        }
        let (var_name, var) = server.variables.entry(i);
        let sn = to_snake_case(var_name);
        params.append("\n    ");
        params.append(sn.as_str());
        params.append(": Option<&str>,");
        if i > 0 {
            lets.append("\n    ");
            args.append(", ");
        }
        lets.append("let ");
        lets.append(sn.as_str());
        lets.append(" = ");
        lets.append(sn.as_str());
        lets.append(".unwrap_or(\"");
        lets.append(var.default.as_str());
        lets.append("\");");
        args.append(sn.as_str());
        args.append(" = ");
        args.append(sn.as_str());
        proof {
            let v = vars[i as int];
            assert(params@ =~= variable_params_body(vars.take(i + 1)));
            if i == 0 {
                assert(lets@ =~= default_line(v));
                assert(args@ =~= snake_case_of(v.0) + " = "@ + snake_case_of(v.0));
            } else {
                assert(lets@ =~= default_lines(vars.take(i as int)) + "\n    "@ + default_line(v));
                assert(args@ =~= url_args(vars.take(i as int)) + ", "@ + snake_case_of(v.0) + " = "@
                    + snake_case_of(v.0));
            }
        }
        i = i + 1;
    }
    proof {
        assert(vars.take(n as int) =~= vars);
    }
    out.append(params.as_str());
    if n > 0 {
        out.append("\n");
    }
    out.append(") -> Result<ApiClient> {\n");
    let ghost before_url = out@;
    if n > 0 {
        out.append("    ");
        out.append(lets.as_str());
        out.append("\n");
        out.append("    let url = &format!(\"");
        out.append(server.url.as_str());
        out.append("\", ");
        out.append(args.as_str());
        out.append(");");
    } else {
        out.append("    let url = \"");
        out.append(server.url.as_str());
        out.append("\";");
    }
    assert(out@ =~= before_url + url_spec(*server));
    out.append("\n\n");
    out.append(CLIENT_METHOD_TAIL);
    assert(out@ =~= client_method_spec(*server)->Ok_0);
    Ok(out)
}

/// The two generated transport files.
pub struct ClientFiles {
    /// The clients file: configuration, one constructor per server, client type.
    pub clients: String,
    /// The builder file.
    pub builder: String,
}

/// The constructors of all servers, in order.
pub open spec fn client_methods_spec(servers: Seq<Server>) -> Result<Seq<char>, ErrorView>
    decreases servers.len(),
{
    if servers.len() == 0 {
        Ok(Seq::empty())
    } else {
        match client_methods_spec(servers.drop_last()) {
            Err(e) => Err(e),
            Ok(prev) => match client_method_spec(servers.last()) {
                Err(e) => Err(e),
                Ok(m) => Ok(prev + m),
            },
        }
    }
}

pub proof fn lemma_client_methods_error_prefix(servers: Seq<Server>, k: int)
    requires
        0 <= k <= servers.len(),
        client_methods_spec(servers.take(k)) is Err,
    ensures
        client_methods_spec(servers) == client_methods_spec(servers.take(k)),
    decreases servers.len(),
{
    if k < servers.len() {
        assert(servers.drop_last().take(k) =~= servers.take(k));
        lemma_client_methods_error_prefix(servers.drop_last(), k);
    } else {
        assert(servers.take(k) =~= servers);
    }
}

/// Generates the clients file and the builder file for a list of servers.
pub fn generate_client_configs(servers: &Vec<Server>) -> (r: Result<ClientFiles, GenError>)
    ensures
        match r {
            Ok(f) => client_methods_spec(servers@) matches Ok(methods) && f.clients@
                == CLIENTS_HEADER@ + CONFIG_METHOD@ + methods + CLIENT_TYPE@ && f.builder@
                == BUILDER_SOURCE@,
            Err(e) => client_methods_spec(servers@) == Err::<Seq<char>, ErrorView>(e@),
        },
{
    let ghost ss = servers@;
    let mut methods = String::new();
    let mut i: usize = 0;
    proof {
        assert(ss.take(0) =~= Seq::<Server>::empty());
    }
    while i < servers.len()
        invariant
            ss == servers@,
            i <= ss.len(),
            client_methods_spec(ss.take(i as int)) == Ok::<Seq<char>, ErrorView>(methods@),
        decreases servers.len() - i,
    {
        proof {
            assert(ss.take(i + 1).drop_last() =~= ss.take(i as int));
            assert(ss.take(i + 1).last() == ss[i as int]);
        }
        match generate_client_method(&servers[i]) {
            Ok(m) => {
                methods.append(m.as_str());
            },
            Err(e) => {
                proof {
                    lemma_client_methods_error_prefix(ss, i + 1);
                }
                return Err(e);
            },
        }
        i = i + 1;
    }
    proof {
        assert(ss.take(i as int) =~= ss);
    }
    let mut clients = owned(CLIENTS_HEADER);
    let config = generate_config_method();
    clients.append(config.as_str());
    clients.append(methods.as_str());
    let client_type = generate_client_type();
    clients.append(client_type.as_str());
    assert(clients@ =~= CLIENTS_HEADER@ + CONFIG_METHOD@ + methods@ + CLIENT_TYPE@);
    Ok(ClientFiles { clients, builder: generate_builder() })
}

} // verus!
