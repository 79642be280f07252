//! Port mapping resolver: from the optional mesh and ingress settings of an
//! application, the effective mesh port and the host:container port mappings
//! to publish.

use vstd::prelude::*;
use vstd::string::StringExecFns;
use crate::blueprint::{AppConfiguration, DaprBluePrint, IngressBluePrint};
use crate::text::{dec_rep, u32_to_dec};

verus! {

/// Whether the mesh is enabled: present settings with `enabled` set to true.
pub open spec fn mesh_enabled_spec(dapr: Option<DaprBluePrint>) -> bool {
    dapr matches Some(d) && d.enabled == Some(true)
}

/// Whether the ingress is external: present settings with `external` set to
/// true.
pub open spec fn ingress_external_spec(ingress: Option<IngressBluePrint>) -> bool {
    ingress matches Some(i) && i.external == Some(true)
}

/// The mesh application port, as declared.
pub open spec fn mesh_port_spec(dapr: Option<DaprBluePrint>) -> Option<u32> {
    match dapr {
        Some(d) => d.app_port,
        None => None,
    }
}

/// The mesh application identifier, defaulting to the empty string.
pub open spec fn mesh_id_spec(dapr: Option<DaprBluePrint>) -> Seq<char> {
    match dapr {
        Some(d) => match d.app_id {
            Some(s) => s@,
            None => Seq::empty(),
        },
        None => Seq::empty(),
    }
}

/// The ingress target port, defaulting to zero.
pub open spec fn ingress_port_spec(ingress: Option<IngressBluePrint>) -> u32 {
    match ingress {
        Some(i) => match i.target_port {
            Some(p) => p,
            None => 0,
        },
        None => 0,
    }
}

/// A port mapping string `host:container`, both in decimal.
pub open spec fn port_pair(host: u32, container: u32) -> Seq<char> {
    dec_rep(host as nat) + seq![':'] + dec_rep(container as nat)
}

/// Mathematical model of the port mapping result.
#[verifier::ext_equal]
pub ghost struct PortsModel {
    pub app_port: Option<u32>,
    pub mappings: Option<Seq<Seq<char>>>,
}

/// The port mapping rules. With mesh and external ingress, a single mapping
/// from the ingress port to the mesh port is published, and only for the
/// container whose name equals the mesh application identifier. With external
/// ingress alone, the ingress port is published onto itself. Otherwise
/// nothing is published. The declared mesh port is handed back as it stands.
pub open spec fn ports_spec(
    dapr: Option<DaprBluePrint>,
    ingress: Option<IngressBluePrint>,
    container_name: Seq<char>,
) -> PortsModel {
    let mesh = mesh_enabled_spec(dapr);
    let external = ingress_external_spec(ingress);
    let mappings = if mesh && external && container_name == mesh_id_spec(dapr) {
        Some(
            seq![
                port_pair(
                    ingress_port_spec(ingress),
                    match mesh_port_spec(dapr) {
                        Some(p) => p,
                        None => 0,
                    },
                ),
            ],
        )
    } else if !mesh && external {
        Some(seq![port_pair(ingress_port_spec(ingress), ingress_port_spec(ingress))])
    } else {
        None
    };
    PortsModel { app_port: mesh_port_spec(dapr), mappings }
}

/// The string `host:container`, both ports in decimal.
pub fn port_mapping_string(host: u32, container: u32) -> (r: String)
    ensures
        r@ == port_pair(host, container),
{
    let mut r = u32_to_dec(host);
    r.append(":");
    let rhs = u32_to_dec(container);
    r.append(rhs.as_str());
    proof {
        assert(":"@ =~= seq![':']) by {
            reveal_strlit(":");
        }
        assert(r@ =~= port_pair(host, container));
    }
    r
}

/// Computes the effective mesh port and the port mappings to publish for one
/// container, after the rules of `ports_spec`.
pub fn build_ports_mapping_for_serialization(configuration: AppConfiguration) -> (r: (
    Option<u32>,
    Option<Vec<String>>,
))
    ensures
        ({
            let pm = ports_spec(
                configuration.dapr_configuration,
                configuration.ingress_configuration,
                configuration.container.name@,
            );
            &&& r.0 == pm.app_port
            &&& match r.1 {
                Some(v) => pm.mappings matches Some(ms) && v.deep_view() == ms && v@.len() > 0,
                None => pm.mappings is None,
            }
        }),
{
    let AppConfiguration { container, dapr_configuration, ingress_configuration } = configuration;

    let has_dapr_enabled = match &dapr_configuration {
        Some(d) => match d.enabled {
            Some(e) => e,
            None => false,
        },
        None => false,
    };

    let has_ingress_exposed = match &ingress_configuration {
        Some(i) => match i.external {
            Some(e) => e,
            None => false,
        },
        None => false,
    };

    let dapr_app_port = match &dapr_configuration {
        Some(d) => d.app_port,
        None => None,
    };

    let ingress_app_port = match &ingress_configuration {
        Some(i) => match i.target_port {
            Some(p) => p,
            None => 0,
        },
        None => 0,
    };

    let ghost pm = ports_spec(dapr_configuration, ingress_configuration, container.name@);

    let mut ports: Vec<String> = Vec::new();

    if has_dapr_enabled && has_ingress_exposed {
        let dapr_app_id = match &dapr_configuration {
            Some(d) => match &d.app_id {
                Some(s) => s.clone(),
                None => String::new(),
            },
            None => String::new(),
        };
        let has_right_target = container.name.eq(&dapr_app_id);
        if has_right_target {
            let mapped_port = match dapr_app_port {
                Some(p) => p,
                None => 0,
            };
            ports.push(port_mapping_string(ingress_app_port, mapped_port));
        }
    }

    if !has_dapr_enabled && has_ingress_exposed {
        ports.push(port_mapping_string(ingress_app_port, ingress_app_port));
    }

    if ports.len() > 0 {
        proof {
            assert(pm.mappings matches Some(ms) && ports.deep_view() =~~= ms);
        }
        (dapr_app_port, Some(ports))
    } else {
        (dapr_app_port, None)
    }
}

} // verus!
