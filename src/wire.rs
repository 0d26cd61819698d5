use vstd::prelude::*;
use vstd::string::*;

use crate::helpers::{json_quote, json_quoted};
use crate::types::{
    opt_conversions, opt_environment, opt_text, Conversion, CreateDeploymentBody, Deployment,
    DeploymentModel, EnvironmentVar, LoginCredentials,
};

verus! {

/// An optional text member: the key prefix and the quoted value, or nothing.
pub open spec fn text_member(prefix: Seq<char>, o: Option<Seq<char>>) -> Seq<char> {
    match o {
        Some(s) => prefix + json_quoted(s),
        None => Seq::empty(),
    }
}

/// A two-field object, its keys written as `{"a":` and `,"b":`.
pub open spec fn pair_json(k1: Seq<char>, k2: Seq<char>, p: (Seq<char>, Seq<char>)) -> Seq<char> {
    k1 + json_quoted(p.0) + k2 + json_quoted(p.1) + "}"@
}

/// Two-field objects separated by commas.
pub open spec fn pairs_joined(k1: Seq<char>, k2: Seq<char>, s: Seq<(Seq<char>, Seq<char>)>) -> Seq<
    char,
>
    decreases s.len(),
{
    if s.len() == 0 {
        Seq::empty()
    } else if s.len() == 1 {
        pair_json(k1, k2, s[0])
    } else {
        pairs_joined(k1, k2, s.drop_last()) + ","@ + pair_json(k1, k2, s.last())
    }
}

/// An optional list member: the key prefix (ending in `[`), the objects, `]`.
pub open spec fn list_member(
    prefix: Seq<char>,
    k1: Seq<char>,
    k2: Seq<char>,
    o: Option<Seq<(Seq<char>, Seq<char>)>>,
) -> Seq<char> {
    match o {
        Some(s) => prefix + pairs_joined(k1, k2, s) + "]"@,
        None => Seq::empty(),
    }
}

/// The identifier member, written as the service's object id, and its comma.
pub open spec fn id_member(o: Option<Seq<char>>) -> Seq<char> {
    match o {
        Some(h) => "\"_id\":{\"$oid\":"@ + json_quoted(h) + "},"@,
        None => Seq::empty(),
    }
}

/// The identifier and the required members of a deployment object.
pub open spec fn required_members(m: DeploymentModel) -> Seq<char> {
    id_member(m.id) + "\"name\":"@ + json_quoted(m.name) + ",\"serverID\":"@ + json_quoted(
        m.server_id,
    )
}

/// The optional text members that precede the lists.
pub open spec fn leading_options(m: DeploymentModel) -> Seq<char> {
    text_member(",\"buildID\":"@, m.build_id) + text_member(",\"image\":"@, m.image)
}

/// The list members of a deployment object.
pub open spec fn list_members(m: DeploymentModel) -> Seq<char> {
    list_member(",\"ports\":["@, "{\"local\":"@, ",\"container\":"@, m.ports) + list_member(
        ",\"volumes\":["@,
        "{\"local\":"@,
        ",\"container\":"@,
        m.volumes,
    ) + list_member(",\"environment\":["@, "{\"variable\":"@, ",\"value\":"@, m.environment)
}

/// The optional text members that follow the lists.
pub open spec fn trailing_options(m: DeploymentModel) -> Seq<char> {
    text_member(",\"network\":"@, m.network) + text_member(",\"restart\":"@, m.restart)
        + text_member(",\"containerUser\":"@, m.container_user) + text_member(
        ",\"dockerAccount\":"@,
        m.docker_account,
    )
}

/// The JSON object of a deployment, members in a fixed order. Absent fields
/// have no key at all.
pub open spec fn deployment_json(m: DeploymentModel) -> Seq<char> {
    "{"@ + required_members(m) + leading_options(m) + list_members(m) + trailing_options(m) + "}"@
}

/// The JSON body of a create request.
pub open spec fn create_body_json(m: DeploymentModel) -> Seq<char> {
    "{\"deployment\":"@ + deployment_json(m) + "}"@
}

/// The JSON body of a login request.
pub open spec fn credentials_json(username: Seq<char>, password: Seq<char>) -> Seq<char> {
    "{\"username\":"@ + json_quoted(username) + ",\"password\":"@ + json_quoted(password) + "}"@
}

fn append_quoted(out: &mut String, s: &str)
    ensures
        final(out)@ == old(out)@ + json_quoted(s@),
{
    let q = json_quote(s);
    out.append(q.as_str());
}

fn append_text_member(out: &mut String, prefix: &str, o: &Option<String>)
    ensures
        final(out)@ == old(out)@ + text_member(prefix@, opt_text(*o)),
{
    match o {
        Some(s) => {
            let ghost before = out@;
            out.append(prefix);
            append_quoted(out, s.as_str());
            assert(out@ =~= before + (prefix@ + json_quoted(s@)));
        },
        None => {
            assert(out@ =~= out@ + Seq::<char>::empty());
        },
    }
}

fn append_pair(out: &mut String, k1: &str, k2: &str, a: &str, b: &str)
    ensures
        final(out)@ == old(out)@ + pair_json(k1@, k2@, (a@, b@)),
{
    let ghost before = out@;
    out.append(k1);
    append_quoted(out, a);
    out.append(k2);
    append_quoted(out, b);
    out.append("}");
    assert(out@ =~= before + pair_json(k1@, k2@, (a@, b@)));
}

proof fn lemma_pairs_step(k1: Seq<char>, k2: Seq<char>, s: Seq<(Seq<char>, Seq<char>)>, i: int)
    requires
        0 <= i < s.len(),
    ensures
        pairs_joined(k1, k2, s.take(i + 1)) == if i == 0 {
            pair_json(k1, k2, s[0])
        } else {
            pairs_joined(k1, k2, s.take(i)) + ","@ + pair_json(k1, k2, s[i])
        },
{
    assert(s.take(i + 1).drop_last() =~= s.take(i));
    assert(s.take(i + 1).last() == s[i]);
}

fn append_conversions(out: &mut String, prefix: &str, k1: &str, k2: &str, o: &Option<Vec<Conversion>>)
    ensures
        final(out)@ == old(out)@ + list_member(prefix@, k1@, k2@, opt_conversions(*o)),
{
    match o {
        Some(v) => {
            let ghost before = out@;
            let ghost items = v@.map_values(|c: Conversion| c@);
            out.append(prefix);
            let mut i: usize = 0;
            assert(items.take(0) =~= Seq::<(Seq<char>, Seq<char>)>::empty());
            while i < v.len()
                invariant
                    i <= v@.len(),
                    items == v@.map_values(|c: Conversion| c@),
                    out@ == before + prefix@ + pairs_joined(k1@, k2@, items.take(i as int)),
                decreases v@.len() - i,
            {
                proof {
                    lemma_pairs_step(k1@, k2@, items, i as int);
                }
                let ghost mid = out@;
                if i > 0 {
                    out.append(",");
                }
                append_pair(out, k1, k2, v[i].local.as_str(), v[i].container.as_str());
                assert(items[i as int] == (v@[i as int].local@, v@[i as int].container@));
                if i == 0 {
                    assert(out@ =~= before + prefix@ + pairs_joined(k1@, k2@, items.take(1)));
                } else {
                    assert(out@ =~= before + prefix@ + pairs_joined(k1@, k2@, items.take(i + 1)));
                }
                i = i + 1;
            }
            assert(items.take(v@.len() as int) =~= items);
            out.append("]");
            assert(out@ =~= before + (prefix@ + pairs_joined(k1@, k2@, items) + "]"@));
        },
        None => {
            assert(out@ =~= out@ + Seq::<char>::empty());
        },
    }
}

fn append_environment(out: &mut String, prefix: &str, k1: &str, k2: &str, o: &Option<Vec<EnvironmentVar>>)
    ensures
        final(out)@ == old(out)@ + list_member(prefix@, k1@, k2@, opt_environment(*o)),
{
    match o {
        Some(v) => {
            let ghost before = out@;
            let ghost items = v@.map_values(|e: EnvironmentVar| e@);
            out.append(prefix);
            let mut i: usize = 0;
            assert(items.take(0) =~= Seq::<(Seq<char>, Seq<char>)>::empty());
            while i < v.len()
                invariant
                    i <= v@.len(),
                    items == v@.map_values(|e: EnvironmentVar| e@),
                    out@ == before + prefix@ + pairs_joined(k1@, k2@, items.take(i as int)),
                decreases v@.len() - i,
            {
                proof {
                    lemma_pairs_step(k1@, k2@, items, i as int);
                }
                if i > 0 {
                    out.append(",");
                }
                append_pair(out, k1, k2, v[i].variable.as_str(), v[i].value.as_str());
                assert(items[i as int] == (v@[i as int].variable@, v@[i as int].value@));
                if i == 0 {
                    assert(out@ =~= before + prefix@ + pairs_joined(k1@, k2@, items.take(1)));
                } else {
                    assert(out@ =~= before + prefix@ + pairs_joined(k1@, k2@, items.take(i + 1)));
                }
                i = i + 1;
            }
            assert(items.take(v@.len() as int) =~= items);
            out.append("]");
            assert(out@ =~= before + (prefix@ + pairs_joined(k1@, k2@, items) + "]"@));
        },
        None => {
            assert(out@ =~= out@ + Seq::<char>::empty());
        },
    }
}

fn append_required(out: &mut String, d: &Deployment)
    ensures
        final(out)@ == old(out)@ + required_members(d@),
{
    let ghost before = out@;
    match &d.id {
        Some(h) => {
            out.append("\"_id\":{\"$oid\":");
            append_quoted(out, h.as_str());
            out.append("},");
        },
        None => {},
    }
    assert(out@ =~= before + id_member(d@.id));
    out.append("\"name\":");
    append_quoted(out, d.name.as_str());
    out.append(",\"serverID\":");
    append_quoted(out, d.server_id.as_str());
    assert(out@ =~= before + required_members(d@));
}

fn append_lists(out: &mut String, d: &Deployment)
    ensures
        final(out)@ == old(out)@ + list_members(d@),
{
    let ghost before = out@;
    append_conversions(out, ",\"ports\":[", "{\"local\":", ",\"container\":", &d.ports);
    append_conversions(out, ",\"volumes\":[", "{\"local\":", ",\"container\":", &d.volumes);
    append_environment(out, ",\"environment\":[", "{\"variable\":", ",\"value\":", &d.environment);
    assert(out@ =~= before + list_members(d@));
}

fn append_trailing(out: &mut String, d: &Deployment)
    ensures
        final(out)@ == old(out)@ + trailing_options(d@),
{
    let ghost before = out@;
    append_text_member(out, ",\"network\":", &d.network);
    append_text_member(out, ",\"restart\":", &d.restart);
    append_text_member(out, ",\"containerUser\":", &d.container_user);
    append_text_member(out, ",\"dockerAccount\":", &d.docker_account);
    assert(out@ =~= before + trailing_options(d@));
}

fn append_deployment(out: &mut String, d: &Deployment)
    ensures
        final(out)@ == old(out)@ + deployment_json(d@),
{
    let ghost m = d@;
    let ghost before = out@;
    out.append("{");
    let ghost s1 = out@;
    append_required(out, d);
    let ghost s2 = out@;
    append_text_member(out, ",\"buildID\":", &d.build_id);
    append_text_member(out, ",\"image\":", &d.image);
    assert(out@ =~= s2 + leading_options(m));
    let ghost s3 = out@;
    append_lists(out, d);
    let ghost s4 = out@;
    append_trailing(out, d);
    let ghost s5 = out@;
    out.append("}");
    proof {
        let r = required_members(m);
        let l = leading_options(m);
        let ls = list_members(m);
        let t = trailing_options(m);
        assert(s1 == before + "{"@);
        assert(s2 == s1 + r);
        assert(s4 == s3 + ls);
        assert(s5 == s4 + t);
        assert(out@ == s5 + "}"@);
        assert(out@ =~= before + ("{"@ + r + l + ls + t + "}"@));
    }
}

impl Deployment {
    /// The JSON object of this deployment, without the keys of absent fields.
    pub fn to_json(&self) -> (r: String)
        ensures
            r@ == deployment_json(self@),
    {
        let mut out = String::new();
        append_deployment(&mut out, self);
        assert(out@ =~= deployment_json(self@));
        out
    }
}

impl CreateDeploymentBody {
    /// The JSON body of a create request.
    pub fn to_json(&self) -> (r: String)
        ensures
            r@ == create_body_json(self.spec_deployment()@),
    {
        let mut out = String::new();
        out.append("{\"deployment\":");
        append_deployment(&mut out, &self.deployment);
        out.append("}");
        assert(out@ =~= create_body_json(self.spec_deployment()@));
        out
    }
}

impl LoginCredentials {
    /// The JSON body of a login request.
    pub fn to_json(&self) -> (r: String)
        ensures
            r@ == credentials_json(self.spec_username(), self.spec_password()),
    {
        let mut out = String::new();
        out.append("{\"username\":");
        append_quoted(&mut out, self.username.as_str());
        out.append(",\"password\":");
        append_quoted(&mut out, self.password.as_str());
        out.append("}");
        assert(out@ =~= credentials_json(self.spec_username(), self.spec_password()));
        out
    }
}

/// A deployment with only its required fields set is written with the keys
/// `name` and `serverID` alone: no optional key appears, not even as null.
pub proof fn lemma_required_fields_only(m: DeploymentModel)
    requires
        m.id is None,
        m.build_id is None,
        m.image is None,
        m.ports is None,
        m.volumes is None,
        m.environment is None,
        m.network is None,
        m.restart is None,
        m.container_user is None,
        m.docker_account is None,
    ensures
        deployment_json(m) == "{\"name\":"@ + json_quoted(m.name) + ",\"serverID\":"@
            + json_quoted(m.server_id) + "}"@,
{
    let e = Seq::<char>::empty();
    assert(leading_options(m) =~= e);
    assert(list_members(m) =~= e);
    assert(trailing_options(m) =~= e);
    assert(deployment_json(m) =~= "{"@ + "\"name\":"@ + json_quoted(m.name) + ",\"serverID\":"@
        + json_quoted(m.server_id) + "}"@);
    assert("{"@ + "\"name\":"@ =~= "{\"name\":"@) by {
        reveal_strlit("{");
        reveal_strlit("\"name\":");
        reveal_strlit("{\"name\":");
    }
    assert(deployment_json(m) =~= "{\"name\":"@ + json_quoted(m.name) + ",\"serverID\":"@
        + json_quoted(m.server_id) + "}"@);
}

} // verus!
