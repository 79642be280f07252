//! Configuration assembler: for one container, resolves its image, computes
//! its ports, and emits the output records — the primary container alone, or,
//! with the mesh enabled, the primary followed by its injected sidecar.

use vstd::prelude::*;
use vstd::string::StringExecFns;
use crate::blueprint::{
    clone_container, AppConfiguration, ContainerBluePrint, ContainerImageBluePrint, DaprBluePrint,
    IngressBluePrint,
};
use crate::image::{build_image_for_serialization, image_model_wf, image_spec, DockerImageForPulumi, ImageModel};
use crate::output::{records_model, BuildContext, ContainerAppConfiguration, RecordModel};
use crate::ports::{build_ports_mapping_for_serialization, mesh_enabled_spec, ports_spec};
use crate::text::{dec_rep, u32_to_dec};

verus! {

/// The record of the container itself. With the mesh enabled it depends on
/// the placement service and joins the mesh network; without it, every
/// optional field besides the ports stays empty.
pub open spec fn primary_record_spec(
    img: ImageModel,
    name: Seq<char>,
    ports: Option<Seq<Seq<char>>>,
    mesh: bool,
) -> RecordModel {
    RecordModel {
        image: img.name,
        build: if img.is_context {
            img.path
        } else {
            None
        },
        name: name,
        depends_on: if mesh {
            Some(seq!["placement"@])
        } else {
            None
        },
        networks: if mesh {
            Some(seq!["dapr-network"@])
        } else {
            None
        },
        network_mode: None,
        ports: ports,
        command: None,
    }
}

/// The injected sidecar record: the fixed sidecar image, named after the
/// container, sharing its network namespace, and started with the fixed
/// argument vector carrying the application identifier, the mesh port and
/// the placement service address.
pub open spec fn sidecar_record_spec(name: Seq<char>, app_port: Option<u32>) -> RecordModel {
    RecordModel {
        image: Some("daprio/daprd:edge"@),
        build: None,
        name: name + "_dapr"@,
        depends_on: Some(seq![name]),
        networks: None,
        network_mode: Some("service:"@ + name),
        ports: None,
        command: Some(
            seq![
                "./daprd"@,
                "-app-id"@,
                name,
                "-app-port"@,
                dec_rep(
                    (match app_port {
                        Some(p) => p,
                        None => 0,
                    }) as nat,
                ),
                "-placement-host-address"@,
                "placement:50006"@,
                "air"@,
            ],
        ),
    }
}

/// Assembly of one container: nothing when its image does not resolve; else
/// the primary record, followed by the sidecar record exactly when the mesh
/// is enabled, both carrying the ports of `ports_spec`.
pub open spec fn assemble_spec(
    images: Seq<ContainerImageBluePrint>,
    container: ContainerBluePrint,
    dapr: Option<DaprBluePrint>,
    ingress: Option<IngressBluePrint>,
) -> Option<Seq<RecordModel>> {
    match image_spec(images, container.image@) {
        None => None,
        Some(img) => {
            let pm = ports_spec(dapr, ingress, container.name@);
            if mesh_enabled_spec(dapr) {
                Some(
                    seq![
                        primary_record_spec(img, container.name@, pm.mappings, true),
                        sidecar_record_spec(container.name@, pm.app_port),
                    ],
                )
            } else {
                Some(seq![primary_record_spec(img, container.name@, pm.mappings, false)])
            }
        },
    }
}

/// Assembles the output records for one container: resolves its image — a
/// failed resolution drops the container —, computes its ports, and emits the
/// primary record, followed by the injected sidecar record when the mesh is
/// enabled.
pub fn parse_app_configuration(
    images: &Vec<ContainerImageBluePrint>,
    configuration: AppConfiguration,
) -> (r: Option<Vec<ContainerAppConfiguration>>)
    ensures
        match r {
            Some(v) => assemble_spec(
                images@,
                configuration.container,
                configuration.dapr_configuration,
                configuration.ingress_configuration,
            ) matches Some(ms) && records_model(v@) == ms,
            None => assemble_spec(
                images@,
                configuration.container,
                configuration.dapr_configuration,
                configuration.ingress_configuration,
            ) is None,
        },
{
    let has_dapr_enabled = match &configuration.dapr_configuration {
        Some(d) => match d.enabled {
            Some(e) => e,
            None => false,
        },
        None => false,
    };

    let container_copy = clone_container(&configuration.container);
    let image = match build_image_for_serialization(images, container_copy) {
        Some(img) => img,
        None => {
            return None;
        },
    };
    let name = configuration.container.name.clone();
    let ghost img_model = image_spec(images@, configuration.container.image@)->0;
    let ghost pm = ports_spec(
        configuration.dapr_configuration,
        configuration.ingress_configuration,
        configuration.container.name@,
    );

    let (dapr_app_port, ports) = build_ports_mapping_for_serialization(configuration);

    let DockerImageForPulumi { name: img_name, path: img_path, is_context } = image;
    proof {
        assert(image_model_wf(img_model));
    }
    let build = if is_context {
        Some(BuildContext { context: img_path.unwrap() })
    } else {
        None
    };

    let result = if has_dapr_enabled {
        let primary = ContainerAppConfiguration {
            image: img_name,
            build,
            name: name.clone(),
            depends_on: Some(vec![String::from_str("placement")]),
            networks: Some(vec![String::from_str("dapr-network")]),
            network_mode: None,
            ports,
            command: None,
        };
        let mut sidecar_name = name.clone();
        sidecar_name.append("_dapr");
        let mut network_mode = String::from_str("service:");
        network_mode.append(name.as_str());
        let mapped_port = match dapr_app_port {
            Some(p) => p,
            None => 0,
        };
        let sidecar = ContainerAppConfiguration {
            image: Some(String::from_str("daprio/daprd:edge")),
            name: sidecar_name,
            depends_on: Some(vec![name.clone()]),
            network_mode: Some(network_mode),
            ports: None,
            networks: None,
            build: None,
            command: Some(
                vec![
                    String::from_str("./daprd"),
                    String::from_str("-app-id"),
                    name,
                    String::from_str("-app-port"),
                    u32_to_dec(mapped_port),
                    String::from_str("-placement-host-address"),
                    String::from_str("placement:50006"),
                    String::from_str("air"),
                ],
            ),
        };
        proof {
            assert(primary.model() =~~= primary_record_spec(img_model, name@, pm.mappings, true));
            assert(sidecar.model() =~~= sidecar_record_spec(name@, pm.app_port));
        }
        vec![primary, sidecar]
    } else {
        let single = ContainerAppConfiguration {
            image: img_name,
            build,
            name,
            depends_on: None,
            networks: None,
            network_mode: None,
            ports,
            command: None,
        };
        proof {
            assert(single.model() =~~= primary_record_spec(img_model, single.name@, pm.mappings, false));
        }
        vec![single]
    };
    proof {
        assert(records_model(result@) =~~= assemble_spec(
            images@,
            configuration.container,
            configuration.dapr_configuration,
            configuration.ingress_configuration,
        )->0);
    }
    Some(result)
}

/// With the mesh enabled, a container whose image resolves yields exactly two
/// records, the sidecar — named after the container — directly following the
/// primary; with the mesh disabled, exactly one.
pub proof fn lemma_assemble_shape(
    images: Seq<ContainerImageBluePrint>,
    container: ContainerBluePrint,
    dapr: Option<DaprBluePrint>,
    ingress: Option<IngressBluePrint>,
)
    ensures
        match assemble_spec(images, container, dapr, ingress) {
            Some(rs) => if mesh_enabled_spec(dapr) {
                rs.len() == 2 && rs[0].name == container.name@ && rs[1].name == container.name@
                    + "_dapr"@
            } else {
                rs.len() == 1 && rs[0].name == container.name@
            },
            None => image_spec(images, container.image@) is None,
        },
{
}

} // verus!
