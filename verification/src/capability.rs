use crate::string_map::StringMap;
use crate::text::{contains_text, to_decimal};
use vstd::prelude::*;

verus! {

/// The name of the Filesystem capability.
pub const FS_CAPABILITY: &'static str = "wascc:blobstore";

/// The name of the HTTP capability.
pub const HTTP_CAPABILITY: &'static str = "wascc:http_server";

/// The name of the Logging capability.
pub const LOG_CAPABILITY: &'static str = "wascc:logging";

/// The key used to define the root directory of the Filesystem capability.
pub const FS_CONFIG_ROOTDIR: &'static str = "ROOT";

/// The key used to define the port of the HTTP capability.
pub const HTTP_CONFIG_PORT: &'static str = "PORT";

/// Kubernetes' view of environment variables is an unordered map of string to string.
pub type EnvVars = StringMap<String>;

/// A volume of a pod, and where it lies on the node.
#[derive(Debug)]
pub struct VolumeBinding {
    pub name: String,
    pub host_path: String,
}

/// Capability describes a waSCC capability.
///
/// Capabilities are made available to actors in two parts:
/// - They must be registered
/// - For each actor, the capability must be configured
pub struct Capability {
    pub name: &'static str,
    pub binding: Option<String>,
    pub env: EnvVars,
}

/// What a capability is made of.
#[verifier::ext_equal]
pub struct CapabilityView {
    pub name: Seq<char>,
    pub binding: Option<Seq<char>>,
    pub env: Map<Seq<char>, Seq<char>>,
}

impl View for Capability {
    type V = CapabilityView;

    open spec fn view(&self) -> CapabilityView {
        CapabilityView {
            name: self.name@,
            binding: crate::text::optional_text(self.binding),
            env: crate::text::value_texts(self.env@),
        }
    }
}

/// The views of the capabilities.
pub open spec fn capability_views(capabilities: Seq<Capability>) -> Seq<CapabilityView> {
    capabilities.map_values(|capability: Capability| capability@)
}

/// The Logging capability, which is configured with nothing.
pub open spec fn log_capability() -> CapabilityView {
    CapabilityView { name: LOG_CAPABILITY@, binding: None, env: Map::empty() }
}

/// The HTTP capability, which is configured with the container's environment and its port.
pub open spec fn http_capability(env: Map<Seq<char>, Seq<char>>, port: int) -> CapabilityView {
    CapabilityView {
        name: HTTP_CAPABILITY@,
        binding: None,
        env: env.insert(HTTP_CONFIG_PORT@, crate::text::decimal(port)),
    }
}

/// The Filesystem capability of a volume, which is configured with the volume's place.
pub open spec fn fs_capability(volume: VolumeBinding) -> CapabilityView {
    CapabilityView {
        name: FS_CAPABILITY@,
        binding: Some(volume.name@),
        env: Map::<Seq<char>, Seq<char>>::empty().insert(FS_CONFIG_ROOTDIR@, volume.host_path@),
    }
}

/// The capabilities that an actor is configured with, of those that its token names: logging, then
/// HTTP, then the file system once for each volume.
pub open spec fn planned_capabilities(
    actor_caps: Seq<Seq<char>>,
    env: Map<Seq<char>, Seq<char>>,
    volumes: Seq<VolumeBinding>,
    port: int,
) -> Seq<CapabilityView> {
    let log = if actor_caps.contains(LOG_CAPABILITY@) {
        seq![log_capability()]
    } else {
        seq![]
    };
    let http = if actor_caps.contains(HTTP_CAPABILITY@) {
        seq![http_capability(env, port)]
    } else {
        seq![]
    };
    let fs = if actor_caps.contains(FS_CAPABILITY@) {
        volumes.map_values(|volume: VolumeBinding| fs_capability(volume))
    } else {
        seq![]
    };
    log + http + fs
}

/// The capabilities that an actor is configured with.
pub fn plan_capabilities(
    actor_caps: &Vec<String>,
    env: EnvVars,
    volumes: &Vec<VolumeBinding>,
    port_assigned: i32,
) -> (capabilities: Vec<Capability>)
    ensures
        capability_views(capabilities@) == planned_capabilities(
            crate::text::texts(actor_caps@),
            crate::text::value_texts(env@),
            volumes@,
            port_assigned as int,
        ),
{
    let mut capabilities: Vec<Capability> = Vec::new();
    let ghost caps = crate::text::texts(actor_caps@);
    let ghost env_before = crate::text::value_texts(env@);
    let ghost planned = planned_capabilities(caps, env_before, volumes@, port_assigned as int);
    let mut env = env;
    if contains_text(actor_caps, LOG_CAPABILITY) {
        let capability = Capability { name: LOG_CAPABILITY, binding: None, env: StringMap::new() };
        assert(capability@ =~= log_capability());
        capabilities.push(capability);
    }
    if contains_text(actor_caps, HTTP_CAPABILITY) {
        env.insert(HTTP_CONFIG_PORT.to_owned(), to_decimal(port_assigned));
        let capability = Capability { name: HTTP_CAPABILITY, binding: None, env };
        assert(capability@ =~= http_capability(env_before, port_assigned as int));
        capabilities.push(capability);
    }
    let ghost unbound = capability_views(capabilities@);
    if contains_text(actor_caps, FS_CAPABILITY) {
        let ghost fs = volumes@.map_values(|volume: VolumeBinding| fs_capability(volume));
        let mut i: usize = 0;
        while i < volumes.len()
            invariant
                i <= volumes@.len(),
                fs == volumes@.map_values(|volume: VolumeBinding| fs_capability(volume)),
                capability_views(capabilities@) =~= unbound + fs.take(i as int),
            decreases volumes@.len() - i,
        {
            let mut fsenv: EnvVars = StringMap::new();
            fsenv.insert(FS_CONFIG_ROOTDIR.to_owned(), volumes[i].host_path.clone());
            let capability = Capability {
                name: FS_CAPABILITY,
                binding: Some(volumes[i].name.clone()),
                env: fsenv,
            };
            assert(capability@ =~= fs_capability(volumes@[i as int]));
            let ghost before = capability_views(capabilities@);
            capabilities.push(capability);
            assert(capability_views(capabilities@) =~= before.push(fs[i as int]));
            assert(fs.take(i + 1) =~= fs.take(i as int).push(fs[i as int]));
            i = i + 1;
        }
        assert(fs.take(volumes@.len() as int) =~= fs);
    }
    assert(capability_views(capabilities@) =~= planned);
    capabilities
}

} // verus!
