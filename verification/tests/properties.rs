use pulumi_compose::blueprint::{
    AppConfiguration, BuildContextBluePrint, ConfigurationBluePrint, ContainerAppBluePrint,
    ContainerBluePrint, ContainerImageBluePrint, DaprBluePrint, IngressBluePrint, Language,
    TemplateBluePrint,
};
use pulumi_compose::assemble::parse_app_configuration;
use pulumi_compose::image::{build_image_for_serialization, check_and_match_reference, DockerImageForPulumi};
use pulumi_compose::output::{BuildContext, ContainerAppConfiguration};
use pulumi_compose::ports::build_ports_mapping_for_serialization;
use pulumi_compose::reference::{extract_and_parse_resource_name, Resource};
use pulumi_compose::walk::{build_configuration, build_configuration_with_diagnostics, DroppedContainer, Pulumi};

fn sample_catalog() -> Vec<ContainerImageBluePrint> {
    vec![ContainerImageBluePrint {
        name: Some("myImage".to_string()),
        build: BuildContextBluePrint {
            context: "${pulumi.cwd}/node-app".to_string(),
        },
        reference_name: Some("myImage".to_string()),
    }]
}

fn mesh_app(image: &str, name: &str) -> ContainerAppBluePrint {
    ContainerAppBluePrint {
        configuration: Some(ConfigurationBluePrint {
            dapr: Some(DaprBluePrint {
                enabled: Some(true),
                app_port: Some(3000),
                app_id: Some(name.to_string()),
            }),
            ingress: Some(IngressBluePrint {
                external: Some(true),
                target_port: Some(80),
            }),
        }),
        template: Some(TemplateBluePrint {
            containers: Some(vec![ContainerBluePrint {
                image: image.to_string(),
                name: name.to_string(),
            }]),
        }),
    }
}

#[test]
fn literal_expressions_classify_as_literals() {
    for input in ["node-12", "nginx:latest", "a.b", "registry/app:v1.0.0", ""] {
        let output = extract_and_parse_resource_name(input.to_string());
        let expected = Ok(Resource {
            name: input.to_string(),
            is_reference: false,
        });
        assert_eq!(expected, output);
    }
}

#[test]
fn incomplete_interpolation_falls_back_to_literal() {
    for input in ["${unclosed", "${nodot}", "prefix${}suffix", "${.empty}"] {
        let output = extract_and_parse_resource_name(input.to_string()).unwrap();
        assert_eq!(
            output,
            Resource {
                name: input.to_string(),
                is_reference: false
            }
        );
    }
}

#[test]
fn image_name_marker_forces_reference() {
    let output = extract_and_parse_resource_name("someimageNametag".to_string()).unwrap();
    assert_eq!(
        output,
        Resource {
            name: "someimageNametag".to_string(),
            is_reference: true
        }
    );
}

#[test]
fn placeholder_is_replaced_at_every_occurrence() {
    let images = vec![ContainerImageBluePrint {
        name: None,
        build: BuildContextBluePrint {
            context: "${pulumi.cwd}/a/${pulumi.cwd}/b".to_string(),
        },
        reference_name: Some("twice".to_string()),
    }];
    let resource = Resource {
        name: "twice".to_string(),
        is_reference: true,
    };
    let output = check_and_match_reference(&images, resource).unwrap();
    assert_eq!(
        output,
        DockerImageForPulumi {
            name: None,
            path: Some("./a/./b".to_string()),
            is_context: true,
        }
    );
}

#[test]
fn unresolved_reference_yields_nothing_in_larger_catalog() {
    let images = vec![
        ContainerImageBluePrint {
            name: Some("one".to_string()),
            build: BuildContextBluePrint {
                context: "${pulumi.cwd}/one".to_string(),
            },
            reference_name: Some("one".to_string()),
        },
        ContainerImageBluePrint {
            name: Some("two".to_string()),
            build: BuildContextBluePrint {
                context: "${pulumi.cwd}/two".to_string(),
            },
            reference_name: None,
        },
    ];
    let container = ContainerBluePrint {
        image: "${missing.name}".to_string(),
        name: "myapp".to_string(),
    };
    assert_eq!(None, build_image_for_serialization(&images, container));
}

#[test]
fn ports_format_zero_and_largest_values() {
    let configuration = AppConfiguration {
        container: ContainerBluePrint {
            image: "node-12".to_string(),
            name: "app".to_string(),
        },
        dapr_configuration: None,
        ingress_configuration: Some(IngressBluePrint {
            external: Some(true),
            target_port: None,
        }),
    };
    let (port, ports) = build_ports_mapping_for_serialization(configuration);
    assert_eq!(port, None);
    assert_eq!(ports, Some(vec!["0:0".to_string()]));

    let configuration = AppConfiguration {
        container: ContainerBluePrint {
            image: "node-12".to_string(),
            name: "app".to_string(),
        },
        dapr_configuration: None,
        ingress_configuration: Some(IngressBluePrint {
            external: Some(true),
            target_port: Some(4294967295),
        }),
    };
    let (_, ports) = build_ports_mapping_for_serialization(configuration);
    assert_eq!(ports, Some(vec!["4294967295:4294967295".to_string()]));
}

#[test]
fn absent_enabled_flag_counts_as_mesh_disabled() {
    let configuration = AppConfiguration {
        container: ContainerBluePrint {
            image: "node-12".to_string(),
            name: "app".to_string(),
        },
        dapr_configuration: Some(DaprBluePrint {
            enabled: None,
            app_port: Some(80),
            app_id: Some("app".to_string()),
        }),
        ingress_configuration: None,
    };
    let output = parse_app_configuration(&sample_catalog(), configuration).unwrap();
    assert_eq!(output.len(), 1);
    assert_eq!(output[0].image, Some("node-12".to_string()));
    assert_eq!(output[0].depends_on, None);
}

#[test]
fn end_to_end_mesh_application_emits_primary_and_sidecar() {
    let apps = vec![mesh_app("${myImage.name}", "myapp")];
    let output = build_configuration(apps, sample_catalog()).unwrap();

    let expected = vec![
        ContainerAppConfiguration {
            image: None,
            build: Some(BuildContext {
                context: "./node-app".to_string(),
            }),
            name: "myapp".to_string(),
            depends_on: Some(vec!["placement".to_string()]),
            networks: Some(vec!["dapr-network".to_string()]),
            network_mode: None,
            ports: Some(vec!["80:3000".to_string()]),
            command: None,
        },
        ContainerAppConfiguration {
            image: Some("daprio/daprd:edge".to_string()),
            build: None,
            name: "myapp_dapr".to_string(),
            depends_on: Some(vec!["myapp".to_string()]),
            networks: None,
            network_mode: Some("service:myapp".to_string()),
            ports: None,
            command: Some(vec![
                "./daprd".to_string(),
                "-app-id".to_string(),
                "myapp".to_string(),
                "-app-port".to_string(),
                "3000".to_string(),
                "-placement-host-address".to_string(),
                "placement:50006".to_string(),
                "air".to_string(),
            ]),
        },
    ];
    assert_eq!(expected, output);
}

#[test]
fn end_to_end_plain_application_emits_single_bare_record() {
    let apps = vec![ContainerAppBluePrint {
        configuration: None,
        template: Some(TemplateBluePrint {
            containers: Some(vec![ContainerBluePrint {
                image: "node-12".to_string(),
                name: "myapp".to_string(),
            }]),
        }),
    }];
    let output = build_configuration(apps, sample_catalog()).unwrap();
    let expected = vec![ContainerAppConfiguration {
        image: Some("node-12".to_string()),
        build: None,
        name: "myapp".to_string(),
        depends_on: None,
        networks: None,
        network_mode: None,
        ports: None,
        command: None,
    }];
    assert_eq!(expected, output);
}

#[test]
fn build_twice_yields_equal_output() {
    let first = build_configuration(
        vec![
            mesh_app("${myImage.name}", "myapp"),
            mesh_app("node-12", "other"),
        ],
        sample_catalog(),
    );
    let second = build_configuration(
        vec![
            mesh_app("${myImage.name}", "myapp"),
            mesh_app("node-12", "other"),
        ],
        sample_catalog(),
    );
    assert_eq!(first, second);
}

#[test]
fn unresolved_container_is_dropped_but_others_survive() {
    let apps = vec![ContainerAppBluePrint {
        configuration: None,
        template: Some(TemplateBluePrint {
            containers: Some(vec![
                ContainerBluePrint {
                    image: "${missing.name}".to_string(),
                    name: "ghost".to_string(),
                },
                ContainerBluePrint {
                    image: "node-12".to_string(),
                    name: "kept".to_string(),
                },
            ]),
        }),
    }];
    let output = build_configuration(apps, sample_catalog()).unwrap();
    assert_eq!(output.len(), 1);
    assert_eq!(output[0].name, "kept".to_string());
}

#[test]
fn dropped_containers_are_reported_by_name_and_reference() {
    let apps = vec![ContainerAppBluePrint {
        configuration: None,
        template: Some(TemplateBluePrint {
            containers: Some(vec![
                ContainerBluePrint {
                    image: "${missing.name}".to_string(),
                    name: "ghost".to_string(),
                },
                ContainerBluePrint {
                    image: "node-12".to_string(),
                    name: "kept".to_string(),
                },
            ]),
        }),
    }];
    let (services, dropped) = build_configuration_with_diagnostics(apps, sample_catalog());
    assert_eq!(services.len(), 1);
    assert_eq!(services[0].name, "kept".to_string());
    assert_eq!(
        dropped,
        vec![DroppedContainer {
            container: "ghost".to_string(),
            reference: "missing".to_string(),
        }]
    );
}

#[test]
fn applications_without_containers_contribute_nothing() {
    let apps = vec![
        ContainerAppBluePrint {
            configuration: None,
            template: None,
        },
        ContainerAppBluePrint {
            configuration: None,
            template: Some(TemplateBluePrint { containers: None }),
        },
        ContainerAppBluePrint {
            configuration: None,
            template: Some(TemplateBluePrint {
                containers: Some(vec![]),
            }),
        },
    ];
    let output = build_configuration(apps, sample_catalog()).unwrap();
    assert_eq!(output, vec![]);
}

#[test]
fn new_session_accepts_supported_dialects_only() {
    for language in [Language::Yaml, Language::Typescript, Language::Javascript] {
        let session = Pulumi::new(language);
        assert!(session.is_some());
        assert!(session.unwrap().resources.is_none());
    }
    assert!(Pulumi::new(Language::Bicep).is_none());
}
