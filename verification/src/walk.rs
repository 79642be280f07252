//! Blueprint walker: iterates every application and every container within
//! it, assembles the output records, and flattens them — in declared order —
//! into the final configuration.

use vstd::prelude::*;
use crate::assemble::{assemble_spec, parse_app_configuration};
use crate::blueprint::{
    clone_container, clone_dapr, clone_ingress, AppConfiguration, ContainerAppBluePrint,
    ContainerBluePrint, ContainerImageBluePrint, DaprBluePrint, IngressBluePrint, Language,
};
use crate::image::image_spec;
use crate::output::{records_model, ContainerAppConfiguration, RecordModel};
use crate::reference::{classify_spec, extract_and_parse_resource_name};

verus! {

/// The mesh settings of an application, if declared.
pub open spec fn app_dapr(app: ContainerAppBluePrint) -> Option<DaprBluePrint> {
    match app.configuration {
        Some(c) => c.dapr,
        None => None,
    }
}

/// The ingress settings of an application, if declared.
pub open spec fn app_ingress(app: ContainerAppBluePrint) -> Option<IngressBluePrint> {
    match app.configuration {
        Some(c) => c.ingress,
        None => None,
    }
}

/// The containers of an application; a missing template or container list
/// counts as none.
pub open spec fn app_containers(app: ContainerAppBluePrint) -> Seq<ContainerBluePrint> {
    match app.template {
        Some(t) => match t.containers {
            Some(cs) => cs@,
            None => Seq::empty(),
        },
        None => Seq::empty(),
    }
}

/// The records of a sequence of containers, in order; a container whose
/// assembly fails contributes nothing.
pub open spec fn containers_records(
    images: Seq<ContainerImageBluePrint>,
    cs: Seq<ContainerBluePrint>,
    dapr: Option<DaprBluePrint>,
    ingress: Option<IngressBluePrint>,
) -> Seq<RecordModel>
    decreases cs.len(),
{
    if cs.len() == 0 {
        Seq::empty()
    } else {
        (match assemble_spec(images, cs[0], dapr, ingress) {
            Some(rs) => rs,
            None => Seq::empty(),
        }) + containers_records(images, cs.drop_first(), dapr, ingress)
    }
}

/// The records of a sequence of applications, in order: each application
/// contributes the records of its containers under its own mesh and ingress
/// settings.
pub open spec fn build_spec(
    apps: Seq<ContainerAppBluePrint>,
    images: Seq<ContainerImageBluePrint>,
) -> Seq<RecordModel>
    decreases apps.len(),
{
    if apps.len() == 0 {
        Seq::empty()
    } else {
        containers_records(images, app_containers(apps[0]), app_dapr(apps[0]), app_ingress(apps[0]))
            + build_spec(apps.drop_first(), images)
    }
}

/// A reported drop: the name of a container left out of the output because
/// its image reference resolved to no catalog entry, and that reference.
#[derive(Debug, PartialEq)]
pub struct DroppedContainer {
    pub container: String,
    pub reference: String,
}

/// Mathematical model of a reported drop.
#[verifier::ext_equal]
pub ghost struct DroppedModel {
    pub container: Seq<char>,
    pub reference: Seq<char>,
}

impl DroppedContainer {
    /// The model of this report.
    pub open spec fn model(self) -> DroppedModel {
        DroppedModel { container: self.container@, reference: self.reference@ }
    }
}

/// The models of a sequence of reports.
pub open spec fn dropped_model(v: Seq<DroppedContainer>) -> Seq<DroppedModel> {
    v.map_values(|d: DroppedContainer| d.model())
}

/// The reports for a sequence of containers, in order: one per container
/// whose image does not resolve, naming the container and the reference it
/// carried.
pub open spec fn dropped_in_containers(
    images: Seq<ContainerImageBluePrint>,
    cs: Seq<ContainerBluePrint>,
) -> Seq<DroppedModel>
    decreases cs.len(),
{
    if cs.len() == 0 {
        Seq::empty()
    } else {
        (if image_spec(images, cs[0].image@) is None {
            seq![
                DroppedModel {
                    container: cs[0].name@,
                    reference: classify_spec(cs[0].image@).name,
                },
            ]
        } else {
            Seq::empty()
        }) + dropped_in_containers(images, cs.drop_first())
    }
}

/// The reports for a sequence of applications, in order.
pub open spec fn dropped_spec(
    apps: Seq<ContainerAppBluePrint>,
    images: Seq<ContainerImageBluePrint>,
) -> Seq<DroppedModel>
    decreases apps.len(),
{
    if apps.len() == 0 {
        Seq::empty()
    } else {
        dropped_in_containers(images, app_containers(apps[0])) + dropped_spec(
            apps.drop_first(),
            images,
        )
    }
}

/// Walks every application and every container in declared order, assembles
/// each, and flattens the produced records into one sequence; beside them it
/// reports every container dropped over an unresolved image reference, so a
/// caller can surface what was skipped. Applications without containers
/// contribute nothing; the walk itself always succeeds.
pub fn build_configuration_with_diagnostics(
    apps: Vec<ContainerAppBluePrint>,
    images: Vec<ContainerImageBluePrint>,
) -> (r: (Vec<ContainerAppConfiguration>, Vec<DroppedContainer>))
    ensures
        records_model(r.0@) == build_spec(apps@, images@),
        dropped_model(r.1@) == dropped_spec(apps@, images@),
{
    let mut services: Vec<ContainerAppConfiguration> = Vec::new();
    let mut dropped: Vec<DroppedContainer> = Vec::new();
    proof {
        assert(apps@.skip(0) =~= apps@);
        assert(records_model(services@) =~= Seq::<RecordModel>::empty());
        assert(dropped_model(dropped@) =~= Seq::<DroppedModel>::empty());
    }
    let mut ai: usize = 0;
    while ai < apps.len()
        invariant
            ai <= apps@.len(),
            build_spec(apps@, images@) == records_model(services@) + build_spec(
                apps@.skip(ai as int),
                images@,
            ),
            dropped_spec(apps@, images@) == dropped_model(dropped@) + dropped_spec(
                apps@.skip(ai as int),
                images@,
            ),
        decreases apps@.len() - ai,
    {
        let app = &apps[ai];
        let dapr_configuration = match &app.configuration {
            Some(config) => clone_dapr(&config.dapr),
            None => None,
        };
        let ingress_configuration = match &app.configuration {
            Some(config) => clone_ingress(&config.ingress),
            None => None,
        };
        proof {
            assert(apps@.skip(ai as int)[0] == apps@[ai as int]);
            assert(apps@.skip(ai as int).drop_first() =~= apps@.skip(ai as int + 1));
        }
        let ghost d = app_dapr(apps@[ai as int]);
        let ghost g = app_ingress(apps@[ai as int]);
        match &app.template {
            Some(template) => match &template.containers {
                Some(containers) => {
                    let ghost cs = containers@;
                    let ghost entry_services = services@;
                    let ghost entry_dropped = dropped@;
                    proof {
                        assert(cs.skip(0) =~= cs);
                    }
                    let mut ci: usize = 0;
                    while ci < containers.len()
                        invariant
                            ci <= cs.len(),
                            cs == containers@,
                            d == dapr_configuration,
                            g == ingress_configuration,
                            records_model(services@) + containers_records(
                                images@,
                                cs.skip(ci as int),
                                d,
                                g,
                            ) == records_model(entry_services) + containers_records(
                                images@,
                                cs,
                                d,
                                g,
                            ),
                            dropped_model(dropped@) + dropped_in_containers(
                                images@,
                                cs.skip(ci as int),
                            ) == dropped_model(entry_dropped) + dropped_in_containers(images@, cs),
                        decreases cs.len() - ci,
                    {
                        let configuration = AppConfiguration {
                            container: clone_container(&containers[ci]),
                            dapr_configuration: clone_dapr(&dapr_configuration),
                            ingress_configuration: clone_ingress(&ingress_configuration),
                        };
                        proof {
                            assert(cs.skip(ci as int)[0] == cs[ci as int]);
                            assert(cs.skip(ci as int).drop_first() =~= cs.skip(ci as int + 1));
                        }
                        match parse_app_configuration(&images, configuration) {
                            Some(mut records) => {
                                let ghost before = services@;
                                let ghost recs = records@;
                                services.append(&mut records);
                                proof {
                                    assert(services@ =~= before + recs);
                                    assert(records_model(services@) =~= records_model(before)
                                        + records_model(recs));
                                }
                            },
                            None => {
                                let report = match extract_and_parse_resource_name(
                                    containers[ci].image.clone(),
                                ) {
                                    Ok(res) => DroppedContainer {
                                        container: containers[ci].name.clone(),
                                        reference: res.name,
                                    },
                                    Err(_) => {
                                        proof {
                                            assert(false);
                                        }
                                        DroppedContainer {
                                            container: String::new(),
                                            reference: String::new(),
                                        }
                                    },
                                };
                                let ghost before = dropped@;
                                dropped.push(report);
                                proof {
                                    assert(image_spec(images@, cs[ci as int].image@) is None);
                                    assert(dropped_model(dropped@) =~= dropped_model(before)
                                        + seq![report.model()]);
                                }
                            },
                        }
                        ci = ci + 1;
                    }
                    proof {
                        assert(cs.skip(ci as int) =~= Seq::<ContainerBluePrint>::empty());
                        assert(containers_records(images@, cs.skip(ci as int), d, g)
                            =~= Seq::<RecordModel>::empty());
                        assert(records_model(services@) =~= records_model(entry_services)
                            + containers_records(images@, app_containers(apps@[ai as int]), d, g));
                        assert(dropped_in_containers(images@, cs.skip(ci as int))
                            =~= Seq::<DroppedModel>::empty());
                        assert(dropped_model(dropped@) =~= dropped_model(entry_dropped)
                            + dropped_in_containers(images@, app_containers(apps@[ai as int])));
                    }
                },
                None => {
                    proof {
                        assert(app_containers(apps@[ai as int]) =~= Seq::<
                            ContainerBluePrint,
                        >::empty());
                    }
                },
            },
            None => {
                proof {
                    assert(app_containers(apps@[ai as int]) =~= Seq::<ContainerBluePrint>::empty());
                }
            },
        }
        ai = ai + 1;
    }
    proof {
        assert(apps@.skip(ai as int) =~= Seq::<ContainerAppBluePrint>::empty());
        assert(records_model(services@) =~= build_spec(apps@, images@));
        assert(dropped_model(dropped@) =~= dropped_spec(apps@, images@));
    }
    (services, dropped)
}

/// Walks every application and every container in declared order, assembles
/// each, and flattens the produced records into one sequence. Applications
/// without containers contribute nothing, and a container whose image does
/// not resolve is dropped silently; the walk itself always succeeds.
pub fn build_configuration(
    apps: Vec<ContainerAppBluePrint>,
    images: Vec<ContainerImageBluePrint>,
) -> (r: Option<Vec<ContainerAppConfiguration>>)
    ensures
        r matches Some(v) && records_model(v@) == build_spec(apps@, images@),
{
    let (services, _dropped) = build_configuration_with_diagnostics(apps, images);
    Some(services)
}

/// A translation session: the source dialect and, once deserialized, the
/// blueprint resources it holds.
pub struct Pulumi {
    pub language: Language,
    pub resources: Option<Vec<ContainerAppConfiguration>>,
}

impl Pulumi {
    /// Opens a translation session for a supported dialect — the structured
    /// one or either script-embedded one — with no resources yet; any other
    /// dialect is refused.
    pub fn new(language: Language) -> (r: Option<Pulumi>)
        ensures
            (r is Some) == (language == Language::Yaml || language == Language::Typescript
                || language == Language::Javascript),
            r matches Some(p) ==> p.resources is None && p.language == language,
    {
        match language {
            Language::Yaml | Language::Typescript | Language::Javascript => Some(
                Pulumi { language, resources: None },
            ),
            _ => None,
        }
    }
}

/// Building twice from the same application and image blueprints yields the
/// same records, in the same order.
pub proof fn lemma_build_idempotent(
    apps1: Seq<ContainerAppBluePrint>,
    images1: Seq<ContainerImageBluePrint>,
    apps2: Seq<ContainerAppBluePrint>,
    images2: Seq<ContainerImageBluePrint>,
)
    requires
        apps1 == apps2,
        images1 == images2,
    ensures
        build_spec(apps1, images1) == build_spec(apps2, images2),
{
}

/// Every record of a built configuration carries exactly one image source:
/// a pulled image name or a build context, never both and never neither.
pub proof fn lemma_one_image_source(
    apps: Seq<ContainerAppBluePrint>,
    images: Seq<ContainerImageBluePrint>,
)
    ensures
        forall|i: int|
            0 <= i < build_spec(apps, images).len() ==> ((#[trigger] build_spec(
                apps,
                images,
            )[i].image) is Some != build_spec(apps, images)[i].build is Some),
    decreases apps.len(),
{
    if apps.len() > 0 {
        lemma_containers_one_image_source(
            images,
            app_containers(apps[0]),
            app_dapr(apps[0]),
            app_ingress(apps[0]),
        );
        lemma_one_image_source(apps.drop_first(), images);
    }
}

/// Every record assembled from a sequence of containers carries exactly one
/// image source.
proof fn lemma_containers_one_image_source(
    images: Seq<ContainerImageBluePrint>,
    cs: Seq<ContainerBluePrint>,
    dapr: Option<DaprBluePrint>,
    ingress: Option<IngressBluePrint>,
)
    ensures
        forall|i: int|
            0 <= i < containers_records(images, cs, dapr, ingress).len() ==> ((
            #[trigger] containers_records(images, cs, dapr, ingress)[i].image) is Some
                != containers_records(images, cs, dapr, ingress)[i].build is Some),
    decreases cs.len(),
{
    if cs.len() > 0 {
        crate::image::lemma_resolve_wf(images, classify_spec(cs[0].image@));
        lemma_containers_one_image_source(images, cs.drop_first(), dapr, ingress);
    }
}

} // verus!
