//! The plan of a new service: where it goes, which generator renders it, and the
//! values its placeholders take.
use vstd::prelude::*;

use crate::service_management::add_service_error::AddServiceError;
use crate::service_management::generator_selection::ServiceGeneratorResolution;
use crate::template_management::feature_paths::{join_path, spec_join};
use crate::template_management::model::{
    pair_views, params_from_pairs, string_parameters, TemplateParameters, Version,
};
use crate::text::{concat, push_char};
use crate::yaml::{spec_str_at, YamlValue};
use vstd::utf8::encode_utf8;
use vstd::string::StringSliceAdditionalSpecFns;

verus! {

/// The first state of the project identifier hash.
pub const GUID_SEED_A: u64 = 0xcbf29ce484222325;

/// The second state of the project identifier hash.
pub const GUID_SEED_B: u64 = 0x8422_2325_cbf2_9ce4;

/// The multiplier of the project identifier hash.
pub const GUID_PRIME: u64 = 0x100000001b3;

/// One byte mixed into both states of the hash.
pub open spec fn guid_step(state: (u64, u64), byte: u8) -> (u64, u64) {
    (
        (state.0 ^ (byte as u64)).wrapping_mul(GUID_PRIME),
        (state.1 ^ ((byte as u64) * 2) as u64).wrapping_mul(GUID_PRIME),
    )
}

/// The two hash states after mixing in `bytes`.
pub open spec fn guid_states(bytes: Seq<u8>) -> (u64, u64)
    decreases bytes.len(),
{
    if bytes.len() == 0 {
        (GUID_SEED_A, GUID_SEED_B)
    } else {
        guid_step(guid_states(bytes.drop_last()), bytes.last())
    }
}

/// A lower-case hexadecimal digit.
pub open spec fn hex_digit(d: nat) -> char {
    if d < 10 {
        ((48 + d) as u8) as char
    } else {
        ((87 + d) as u8) as char
    }
}

/// The last `width` hexadecimal digits of `v`, zero-padded.
pub open spec fn hex_fixed(v: nat, width: nat) -> Seq<char>
    decreases width,
{
    if width == 0 {
        Seq::empty()
    } else {
        hex_fixed(v / 16, (width - 1) as nat).push(hex_digit(v % 16))
    }
}

/// Appends the last `width` hexadecimal digits of `v`, zero-padded.
fn push_hex(s: &mut String, v: u64, width: u64)
    ensures
        final(s)@ == old(s)@ + hex_fixed(v as nat, width as nat),
    decreases width,
{
    if width > 0 {
        push_hex(s, v / 16, width - 1);
        let d = (v % 16) as u8;
        if d < 10 {
            push_char(s, (48u8 + d) as char);
        } else {
            push_char(s, (87u8 + d) as char);
        }
        assert(final(s)@ =~= old(s)@ + hex_fixed(v as nat, width as nat));
    }
}

/// The project identifier of a service: a hash of the service name and the
/// generator identifier, written like a GUID.
pub open spec fn spec_project_guid(service_name: Seq<char>, generator_id: Seq<char>) -> Seq<char> {
    let (a, b) = guid_states(encode_utf8(service_name) + encode_utf8(generator_id));
    hex_fixed((a / 0x1_0000_0000) as nat, 8) + "-"@ + hex_fixed(((a / 0x1_0000) % 0x1_0000) as nat, 4)
        + "-"@ + hex_fixed((a % 0x1_0000) as nat, 4) + "-"@ + hex_fixed(
        ((b / 0x1_0000_0000_0000) % 0x1_0000) as nat,
        4,
    ) + "-"@ + hex_fixed((b % 0x1_0000_0000_0000) as nat, 12)
}

/// The project identifier of a service, stable across runs.
pub fn stable_project_guid(service_name: &str, generator_id: &str) -> (r: String)
    ensures
        r@ == spec_project_guid(service_name@, generator_id@),
{
    let first = service_name.as_bytes();
    let second = generator_id.as_bytes();
    let ghost all = service_name.spec_bytes() + generator_id.spec_bytes();
    let mut a: u64 = GUID_SEED_A;
    let mut b: u64 = GUID_SEED_B;
    let mut i: usize = 0;
    assert(all.take(0) =~= Seq::<u8>::empty());
    while i < first.len()
        invariant
            i <= first@.len(),
            first@ == service_name.spec_bytes(),
            all == first@ + second@,
            (a, b) == guid_states(all.take(i as int)),
        decreases first@.len() - i,
    {
        let byte = first[i];
        assert(all[i as int] == byte);
        assert(all.take(i + 1).drop_last() =~= all.take(i as int));
        a = (a ^ (byte as u64)).wrapping_mul(GUID_PRIME);
        b = (b ^ ((byte as u64) * 2)).wrapping_mul(GUID_PRIME);
        i = i + 1;
    }
    let mut j: usize = 0;
    while j < second.len()
        invariant
            j <= second@.len(),
            i == first@.len(),
            all == first@ + second@,
            (a, b) == guid_states(all.take(i + j)),
        decreases second@.len() - j,
    {
        let byte = second[j];
        assert(all[i + j] == byte);
        assert(all.take(i + j + 1).drop_last() =~= all.take(i + j));
        a = (a ^ (byte as u64)).wrapping_mul(GUID_PRIME);
        b = (b ^ ((byte as u64) * 2)).wrapping_mul(GUID_PRIME);
        j = j + 1;
    }
    assert(all.take(i + j) =~= all);
    let mut r = String::new();
    push_hex(&mut r, a / 0x1_0000_0000, 8);
    r.append("-");
    push_hex(&mut r, (a / 0x1_0000) % 0x1_0000, 4);
    r.append("-");
    push_hex(&mut r, a % 0x1_0000, 4);
    r.append("-");
    push_hex(&mut r, (b / 0x1_0000_0000_0000) % 0x1_0000, 4);
    r.append("-");
    push_hex(&mut r, b % 0x1_0000_0000_0000, 12);
    proof {
        reveal_strlit("-");
    }
    r
}

/// The namespace of the workspace, `workspace.namespace` of `nfw.yaml`.
pub fn read_workspace_namespace(yaml: &YamlValue) -> (r: Result<String, String>)
    ensures
        match spec_str_at(*yaml, "workspace"@, "namespace"@) {
            Some(n) => r matches Ok(s) && s@ == n,
            None => r matches Err(m) && m@ == "missing 'workspace.namespace' in nfw.yaml"@,
        },
{
    match yaml.str_at("workspace", "namespace") {
        Some(n) => Ok(n.clone()),
        None => Err("missing 'workspace.namespace' in nfw.yaml".to_owned()),
    }
}

/// The name of the workspace, `workspace.name` of `nfw.yaml`.
pub fn read_workspace_name(yaml: &YamlValue) -> (r: Result<String, String>)
    ensures
        match spec_str_at(*yaml, "workspace"@, "name"@) {
            Some(n) => r matches Ok(s) && s@ == n,
            None => r matches Err(m) && m@ == "missing 'workspace.name' in nfw.yaml"@,
        },
{
    match yaml.str_at("workspace", "name") {
        Some(n) => Ok(n.clone()),
        None => Err("missing 'workspace.name' in nfw.yaml".to_owned()),
    }
}

/// The directory a service is generated in: `src/<name>` below the workspace root.
pub open spec fn spec_output_root(workspace_root: Seq<char>, service_name: Seq<char>) -> Seq<char> {
    spec_join(spec_join(workspace_root, "src"@), service_name)
}

/// The directory a service is generated in.
pub fn output_root_for(workspace_root: &str, service_name: &str) -> (r: String)
    ensures
        r@ == spec_output_root(workspace_root@, service_name@),
{
    let src = join_path(workspace_root, "src");
    join_path(src.as_str(), service_name)
}

/// What generating a service takes.
#[derive(Debug)]
pub struct ServiceGenerationPlan {
    pub service_name: String,
    pub output_root: String,
    pub generator_cache_path: String,
    pub generator_id: String,
    pub generator_version: Version,
    pub namespace: String,
    pub placeholder_values: TemplateParameters,
}

/// The placeholder values of a new service.
pub open spec fn plan_pairs(
    service_name: Seq<char>,
    namespace: Seq<char>,
    workspace_name: Seq<char>,
    guid: Seq<char>,
) -> Seq<(Seq<char>, Seq<char>)> {
    seq![
        ("Name"@, service_name),
        ("Namespace"@, namespace),
        ("WorkspaceName"@, workspace_name),
        ("ServiceName"@, service_name),
        ("ProjectGuid"@, guid),
    ]
}

/// The message when `nfw.yaml` cannot be read for the plan.
pub open spec fn workspace_file_error(
    workspace_root: Seq<char>,
    file: Result<Result<YamlValue, String>, String>,
) -> Option<Seq<char>> {
    match file {
        Err(e) => Some("failed to read "@ + spec_join(workspace_root, "nfw.yaml"@) + ": "@ + e@),
        Ok(Err(e)) => Some("failed to parse nfw.yaml: "@ + e@),
        Ok(Ok(_)) => None,
    }
}

/// What building the plan of `service_name` in the workspace at `workspace_root`
/// gives, from the generator chosen, whether the service's directory exists, and
/// what reading `nfw.yaml` gave.
pub open spec fn plan_outcome(
    service_name: Seq<char>,
    workspace_root: Seq<char>,
    resolution: ServiceGeneratorResolution,
    output_root_exists: bool,
    workspace_file: Result<Result<YamlValue, String>, String>,
    r: Result<ServiceGenerationPlan, AddServiceError>,
) -> bool {
    &&& output_root_exists ==> (r matches Err(AddServiceError::TargetDirectoryAlreadyExists(p))
        && p@ == spec_output_root(workspace_root, service_name))
    &&& !output_root_exists ==> match workspace_file_error(workspace_root, workspace_file) {
        Some(e) => r matches Err(AddServiceError::InvalidWorkspaceContext(m)) && m@
            == "failed to read workspace namespace from nfw.yaml: "@ + e,
        None => {
            let yaml = workspace_file->Ok_0->Ok_0;
            match (spec_str_at(yaml, "workspace"@, "namespace"@), spec_str_at(yaml, "workspace"@, "name"@)) {
                (None, _) => r matches Err(AddServiceError::InvalidWorkspaceContext(m)) && m@
                    == "failed to read workspace namespace from nfw.yaml: "@
                    + "missing 'workspace.namespace' in nfw.yaml"@,
                (Some(_), None) => r matches Err(AddServiceError::InvalidWorkspaceContext(m)) && m@
                    == "failed to read workspace name from nfw.yaml: "@
                    + "missing 'workspace.name' in nfw.yaml"@,
                (Some(ns), Some(wn)) => r matches Ok(plan) && {
                    let namespace = ns + "."@ + service_name;
                    let qualified = resolution.source_name@ + "/"@ + resolution.generator_id@;
                    &&& plan.service_name@ == service_name
                    &&& plan.output_root@ == spec_output_root(workspace_root, service_name)
                    &&& plan.generator_cache_path@ == resolution.generator_cache_path@
                    &&& plan.generator_id@ == qualified
                    &&& plan.generator_version == resolution.resolved_version
                    &&& plan.namespace@ == namespace
                    &&& params_from_pairs(
                        plan.placeholder_values.entries@,
                        plan_pairs(service_name, namespace, wn, spec_project_guid(service_name, qualified)),
                    )
                },
            }
        },
    }
}

/// Builds the plan of a new service.
#[derive(Debug, Clone, Copy)]
pub struct ServiceGenerationPlanBuilder;

impl ServiceGenerationPlanBuilder {
    pub fn new() -> (r: ServiceGenerationPlanBuilder) {
        ServiceGenerationPlanBuilder
    }

    /// The plan of a service named `service_name` in the workspace at
    /// `workspace_root`. `output_root_exists` tells whether its directory (see
    /// `output_root_for`) exists; `workspace_file` is `nfw.yaml` of the workspace:
    /// the read error, or the parse error, or the document.
    pub fn build(
        &self,
        service_name: &str,
        workspace_root: &str,
        resolution: &ServiceGeneratorResolution,
        output_root_exists: bool,
        workspace_file: Result<Result<YamlValue, String>, String>,
    ) -> (r: Result<ServiceGenerationPlan, AddServiceError>)
        ensures
            plan_outcome(service_name@, workspace_root@, *resolution, output_root_exists, workspace_file, r),
    {
        let output_root = output_root_for(workspace_root, service_name);
        if output_root_exists {
            return Err(AddServiceError::TargetDirectoryAlreadyExists(output_root));
        }
        let yaml = match workspace_file {
            Err(e) => {
                let path = join_path(workspace_root, "nfw.yaml");
                let mut m = concat("failed to read workspace namespace from nfw.yaml: failed to read ", path.as_str());
                m.append(": ");
                m.append(e.as_str());
                proof {
                    reveal_strlit("failed to read workspace namespace from nfw.yaml: failed to read ");
                    reveal_strlit("failed to read workspace namespace from nfw.yaml: ");
                    reveal_strlit("failed to read ");
                    assert(m@ =~= "failed to read workspace namespace from nfw.yaml: "@ + ("failed to read "@ + path@ + ": "@ + e@));
                }
                return Err(AddServiceError::InvalidWorkspaceContext(m));
            },
            Ok(Err(e)) => {
                let m = concat("failed to read workspace namespace from nfw.yaml: failed to parse nfw.yaml: ", e.as_str());
                proof {
                    reveal_strlit("failed to read workspace namespace from nfw.yaml: failed to parse nfw.yaml: ");
                    reveal_strlit("failed to read workspace namespace from nfw.yaml: ");
                    reveal_strlit("failed to parse nfw.yaml: ");
                    assert(m@ =~= "failed to read workspace namespace from nfw.yaml: "@ + ("failed to parse nfw.yaml: "@ + e@));
                }
                return Err(AddServiceError::InvalidWorkspaceContext(m));
            },
            Ok(Ok(y)) => y,
        };
        let workspace_namespace = match read_workspace_namespace(&yaml) {
            Ok(n) => n,
            Err(e) => {
                return Err(
                    AddServiceError::InvalidWorkspaceContext(
                        concat("failed to read workspace namespace from nfw.yaml: ", e.as_str()),
                    ),
                );
            },
        };
        let workspace_name = match read_workspace_name(&yaml) {
            Ok(n) => n,
            Err(e) => {
                return Err(
                    AddServiceError::InvalidWorkspaceContext(
                        concat("failed to read workspace name from nfw.yaml: ", e.as_str()),
                    ),
                );
            },
        };
        let mut namespace = concat(workspace_namespace.as_str(), ".");
        namespace.append(service_name);
        let qualified = resolution.qualified_generator_id();
        let guid = stable_project_guid(service_name, qualified.as_str());
        let mut pairs: Vec<(String, String)> = Vec::new();
        pairs.push(("Name".to_owned(), service_name.to_owned()));
        pairs.push(("Namespace".to_owned(), namespace.clone()));
        pairs.push(("WorkspaceName".to_owned(), workspace_name.clone()));
        pairs.push(("ServiceName".to_owned(), service_name.to_owned()));
        pairs.push(("ProjectGuid".to_owned(), guid));
        proof {
            reveal_strlit("Name");
            reveal_strlit("Namespace");
            reveal_strlit("WorkspaceName");
            reveal_strlit("ServiceName");
            reveal_strlit("ProjectGuid");
        }
        let placeholder_values = string_parameters(&pairs);
        assert(pair_views(pairs@) =~= plan_pairs(
            service_name@,
            namespace@,
            workspace_name@,
            spec_project_guid(service_name@, qualified@),
        ));
        Ok(
            ServiceGenerationPlan {
                service_name: service_name.to_owned(),
                output_root,
                generator_cache_path: resolution.generator_cache_path.clone(),
                generator_id: qualified,
                generator_version: resolution.resolved_version.copy(),
                namespace,
                placeholder_values,
            },
        )
    }
}

} // verus!
