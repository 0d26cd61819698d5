use vstd::prelude::*;

use crate::helpers::{enum_as_string, is_plain};

verus! {

/// A local-to-container mapping, used for ports and for volumes.
#[derive(Debug)]
pub struct Conversion {
    pub local: String,
    pub container: String,
}

impl View for Conversion {
    type V = (Seq<char>, Seq<char>);

    open spec fn view(&self) -> (Seq<char>, Seq<char>) {
        (self.local@, self.container@)
    }
}

/// One environment variable of a container.
#[derive(Debug)]
pub struct EnvironmentVar {
    pub variable: String,
    pub value: String,
}

impl View for EnvironmentVar {
    type V = (Seq<char>, Seq<char>);

    open spec fn view(&self) -> (Seq<char>, Seq<char>) {
        (self.variable@, self.value@)
    }
}

/// The credentials posted once to obtain a token.
#[derive(Debug)]
pub struct LoginCredentials {
    pub(crate) username: String,
    pub(crate) password: String,
}

impl LoginCredentials {
    pub open(crate) spec fn spec_username(&self) -> Seq<char> {
        self.username@
    }

    pub open(crate) spec fn spec_password(&self) -> Seq<char> {
        self.password@
    }

    pub fn new(username: &str, password: &str) -> (r: LoginCredentials)
        ensures
            r.spec_username() == username@,
            r.spec_password() == password@,
    {
        LoginCredentials { username: username.to_string(), password: password.to_string() }
    }
}

/// When the service restarts a container.
#[derive(Clone, Copy, Debug, PartialEq, Eq, Structural, Hash)]
pub enum RestartMode {
    NoRestart,
    UnlessStopped,
    OnFailure,
    Always,
}

/// The fixed wire text of each restart policy.
pub open spec fn restart_wire(m: RestartMode) -> Seq<char> {
    match m {
        RestartMode::NoRestart => "no"@,
        RestartMode::UnlessStopped => "unless-stopped"@,
        RestartMode::OnFailure => "on-failure"@,
        RestartMode::Always => "always"@,
    }
}

/// Every wire text of a restart policy is written unescaped in JSON.
pub proof fn lemma_restart_wire_plain(m: RestartMode)
    ensures
        forall|i: int| 0 <= i < restart_wire(m).len() ==> is_plain(#[trigger] restart_wire(m)[i]),
{
    reveal_strlit("no");
    reveal_strlit("unless-stopped");
    reveal_strlit("on-failure");
    reveal_strlit("always");
}

impl RestartMode {
    /// The wire text of this policy.
    pub fn as_wire(&self) -> (r: &'static str)
        ensures
            r@ == restart_wire(*self),
    {
        match self {
            RestartMode::NoRestart => "no",
            RestartMode::UnlessStopped => "unless-stopped",
            RestartMode::OnFailure => "on-failure",
            RestartMode::Always => "always",
        }
    }
}

/// The abstract content of a deployment record.
pub struct DeploymentModel {
    pub id: Option<Seq<char>>,
    pub name: Seq<char>,
    pub server_id: Seq<char>,
    pub build_id: Option<Seq<char>>,
    pub image: Option<Seq<char>>,
    pub ports: Option<Seq<(Seq<char>, Seq<char>)>>,
    pub volumes: Option<Seq<(Seq<char>, Seq<char>)>>,
    pub environment: Option<Seq<(Seq<char>, Seq<char>)>>,
    pub network: Option<Seq<char>>,
    pub restart: Option<Seq<char>>,
    pub container_user: Option<Seq<char>>,
    pub docker_account: Option<Seq<char>>,
}

pub open spec fn opt_text(o: Option<String>) -> Option<Seq<char>> {
    match o {
        Some(s) => Some(s@),
        None => None,
    }
}

pub open spec fn opt_conversions(o: Option<Vec<Conversion>>) -> Option<Seq<(Seq<char>, Seq<char>)>> {
    match o {
        Some(v) => Some(v@.map_values(|c: Conversion| c@)),
        None => None,
    }
}

pub open spec fn opt_environment(o: Option<Vec<EnvironmentVar>>) -> Option<
    Seq<(Seq<char>, Seq<char>)>,
> {
    match o {
        Some(v) => Some(v@.map_values(|e: EnvironmentVar| e@)),
        None => None,
    }
}

/// A list field after one more entry: created with that entry when absent.
pub open spec fn appended(
    o: Option<Seq<(Seq<char>, Seq<char>)>>,
    x: (Seq<char>, Seq<char>),
) -> Option<Seq<(Seq<char>, Seq<char>)>> {
    match o {
        Some(s) => Some(s.push(x)),
        None => Some(seq![x]),
    }
}

/// The deployment that a fresh builder holds: empty name and server, nothing else.
pub open spec fn blank_model() -> DeploymentModel {
    DeploymentModel {
        id: None,
        name: Seq::empty(),
        server_id: Seq::empty(),
        build_id: None,
        image: None,
        ports: None,
        volumes: None,
        environment: None,
        network: None,
        restart: None,
        container_user: None,
        docker_account: None,
    }
}

/// A deployment of the service. `id` holds the server-assigned identifier as
/// its hexadecimal text, absent until the record was created.
#[derive(Debug)]
pub struct Deployment {
    pub id: Option<String>,
    pub name: String,
    pub server_id: String,
    pub build_id: Option<String>,
    pub image: Option<String>,
    pub ports: Option<Vec<Conversion>>,
    pub volumes: Option<Vec<Conversion>>,
    pub environment: Option<Vec<EnvironmentVar>>,
    pub network: Option<String>,
    pub restart: Option<String>,
    pub container_user: Option<String>,
    pub docker_account: Option<String>,
}

impl View for Deployment {
    type V = DeploymentModel;

    open spec fn view(&self) -> DeploymentModel {
        DeploymentModel {
            id: opt_text(self.id),
            name: self.name@,
            server_id: self.server_id@,
            build_id: opt_text(self.build_id),
            image: opt_text(self.image),
            ports: opt_conversions(self.ports),
            volumes: opt_conversions(self.volumes),
            environment: opt_environment(self.environment),
            network: opt_text(self.network),
            restart: opt_text(self.restart),
            container_user: opt_text(self.container_user),
            docker_account: opt_text(self.docker_account),
        }
    }
}

/// The body of a create request: the deployment under the key `deployment`.
pub struct CreateDeploymentBody {
    pub(crate) deployment: Deployment,
}

impl CreateDeploymentBody {
    pub open(crate) spec fn spec_deployment(&self) -> Deployment {
        self.deployment
    }
}

impl Deployment {
    pub fn builder() -> (r: DeploymentBuilder)
        ensures
            r@ == blank_model(),
    {
        DeploymentBuilder::new()
    }

    pub fn into_create_body(self) -> (r: CreateDeploymentBody)
        ensures
            r.spec_deployment() == self,
    {
        CreateDeploymentBody { deployment: self }
    }
}

/// Assembles a `Deployment` one field at a time.
pub struct DeploymentBuilder {
    deployment: Deployment,
}

impl View for DeploymentBuilder {
    type V = DeploymentModel;

    closed spec fn view(&self) -> DeploymentModel {
        self.deployment@
    }
}

fn push_conversion(list: Option<Vec<Conversion>>, item: Conversion) -> (r: Option<Vec<Conversion>>)
    ensures
        opt_conversions(r) == appended(opt_conversions(list), item@),
{
    let ghost old_list = list;
    let mut items = match list {
        Some(v) => v,
        None => Vec::new(),
    };
    items.push(item);
    proof {
        match old_list {
            Some(v) => {
                assert(items@.map_values(|c: Conversion| c@) =~= v@.map_values(
                    |c: Conversion| c@,
                ).push(item@));
            },
            None => {
                assert(items@.map_values(|c: Conversion| c@) =~= seq![item@]);
            },
        }
    }
    Some(items)
}

impl Default for Deployment {
    fn default() -> (r: Deployment)
        ensures
            r@ == blank_model(),
    {
        Deployment {
            id: None,
            name: String::new(),
            server_id: String::new(),
            build_id: None,
            image: None,
            ports: None,
            volumes: None,
            environment: None,
            network: None,
            restart: None,
            container_user: None,
            docker_account: None,
        }
    }
}

impl Default for DeploymentBuilder {
    fn default() -> (r: DeploymentBuilder)
        ensures
            r@ == blank_model(),
    {
        DeploymentBuilder::new()
    }
}

impl DeploymentBuilder {
    pub fn new() -> (r: DeploymentBuilder)
        ensures
            r@ == blank_model(),
    {
        DeploymentBuilder { deployment: Deployment::default() }
    }

    pub fn name(self, name: &str) -> (r: DeploymentBuilder)
        ensures
            r@ == (DeploymentModel { name: name@, ..self@ }),
    {
        let mut b = self;
        b.deployment.name = name.to_string();
        b
    }

    pub fn server_id(self, server_id: &str) -> (r: DeploymentBuilder)
        ensures
            r@ == (DeploymentModel { server_id: server_id@, ..self@ }),
    {
        let mut b = self;
        b.deployment.server_id = server_id.to_string();
        b
    }

    pub fn build_id(self, build_id: Option<String>) -> (r: DeploymentBuilder)
        ensures
            r@ == (DeploymentModel { build_id: opt_text(build_id), ..self@ }),
    {
        let mut b = self;
        b.deployment.build_id = build_id;
        b
    }

    pub fn image(self, image: Option<String>) -> (r: DeploymentBuilder)
        ensures
            r@ == (DeploymentModel { image: opt_text(image), ..self@ }),
    {
        let mut b = self;
        b.deployment.image = image;
        b
    }

    pub fn docker_account(self, docker_account: Option<String>) -> (r: DeploymentBuilder)
        ensures
            r@ == (DeploymentModel { docker_account: opt_text(docker_account), ..self@ }),
    {
        let mut b = self;
        b.deployment.docker_account = docker_account;
        b
    }

    pub fn add_environment(self, variable: &str, value: &str) -> (r: DeploymentBuilder)
        ensures
            r@ == (DeploymentModel {
                environment: appended(self@.environment, (variable@, value@)),
                ..self@
            }),
    {
        let mut b = self;
        let env_var = EnvironmentVar { variable: variable.to_string(), value: value.to_string() };
        let ghost old_env = b.deployment.environment;
        let mut env = match b.deployment.environment {
            Some(v) => v,
            None => Vec::new(),
        };
        env.push(env_var);
        proof {
            match old_env {
                Some(v) => {
                    assert(env@.map_values(|e: EnvironmentVar| e@) =~= v@.map_values(
                        |e: EnvironmentVar| e@,
                    ).push((variable@, value@)));
                },
                None => {
                    assert(env@.map_values(|e: EnvironmentVar| e@) =~= seq![(variable@, value@)]);
                },
            }
        }
        b.deployment.environment = Some(env);
        b
    }

    pub fn add_port(self, local: &str, container: &str) -> (r: DeploymentBuilder)
        ensures
            r@ == (DeploymentModel { ports: appended(self@.ports, (local@, container@)), ..self@ }),
    {
        let mut b = self;
        let port = Conversion { local: local.to_string(), container: container.to_string() };
        b.deployment.ports = push_conversion(b.deployment.ports, port);
        b
    }

    pub fn add_volume(self, local: &str, container: &str) -> (r: DeploymentBuilder)
        ensures
            r@ == (DeploymentModel {
                volumes: appended(self@.volumes, (local@, container@)),
                ..self@
            }),
    {
        let mut b = self;
        let volume = Conversion { local: local.to_string(), container: container.to_string() };
        b.deployment.volumes = push_conversion(b.deployment.volumes, volume);
        b
    }

    pub fn restart(self, restart: RestartMode) -> (r: DeploymentBuilder)
        ensures
            r@ == (DeploymentModel { restart: Some(restart_wire(restart)), ..self@ }),
    {
        let mut b = self;
        b.deployment.restart = Some(enum_as_string(&restart));
        b
    }

    pub fn network(self, network: &str) -> (r: DeploymentBuilder)
        ensures
            r@ == (DeploymentModel { network: Some(network@), ..self@ }),
    {
        let mut b = self;
        b.deployment.network = Some(network.to_string());
        b
    }

    pub fn build(self) -> (r: Deployment)
        ensures
            r@ == self@,
    {
        self.deployment
    }
}

/// Setting the name and the server in either order gives the same record, and
/// setting a field twice keeps the last value.
pub proof fn lemma_scalar_setters(m: DeploymentModel, a: Seq<char>, b: Seq<char>, c: Seq<char>)
    ensures
        (DeploymentModel { server_id: b, ..(DeploymentModel { name: a, ..m }) }) == (
        DeploymentModel { name: a, ..(DeploymentModel { server_id: b, ..m }) }),
        (DeploymentModel { name: c, ..(DeploymentModel { name: a, ..m }) }) == (DeploymentModel {
            name: c,
            ..m
        }),
        (DeploymentModel { server_id: c, ..(DeploymentModel { server_id: b, ..m }) }) == (
        DeploymentModel { server_id: c, ..m }),
{
}

/// Two additions to a list field keep both entries, in call order, after what
/// the list held; on a fresh builder that is a list of exactly those two.
pub proof fn lemma_list_accumulates(
    o: Option<Seq<(Seq<char>, Seq<char>)>>,
    p: (Seq<char>, Seq<char>),
    q: (Seq<char>, Seq<char>),
)
    ensures
        appended(appended(o, p), q) == Some(
            match o {
                Some(s) => s,
                None => Seq::empty(),
            } + seq![p, q],
        ),
        appended(appended(blank_model().ports, p), q) == Some(seq![p, q]),
        appended(appended(blank_model().ports, p), q)->0.len() == 2,
        blank_model().ports is None,
{
    match o {
        Some(s) => {
            assert(s.push(p).push(q) =~= s + seq![p, q]);
        },
        None => {
            assert(seq![p].push(q) =~= Seq::<(Seq<char>, Seq<char>)>::empty() + seq![p, q]);
        },
    }
    assert(seq![p].push(q) =~= seq![p, q]);
}

} // verus!
